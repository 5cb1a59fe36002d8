[package]
name = "ic-http-lb"
version = "0.1.0"
edition = "2021"
publish = false

[dependencies]
anyhow = "=1.0.104"
arc-swap = "=1.9.3"
async-trait = "=0.1.92"
axum = "=0.8.9"
axum-extra = { version = "=0.12.6", features = ["middleware"] }
bytes = "=1.12.1"
clap = { version = "=4.6.7", features = ["derive", "env", "string"] }
fqdn = "=0.5.2"
hostname = "=0.4.2"
http = "=1.5.0"
http-body-util = "=0.1.5"
humantime = "=2.4.0"
ic-bn-lib-common = { version = "=0.2.4", default-features = false }
itertools = "=0.14.0"
prometheus = "=0.14.0"
serde = { version = "=1.0.229", features = ["derive"] }
serde_json = "=1.0.154"
serde_yaml_ng = "=0.10.0"
time = "=0.3.55"
tokio = { version = "=1.54.1", features = ["full"] }
tokio-util = { version = "=0.7.20", features = ["full"] }
tower = { version = "=0.5.3", features = ["util"] }
tower-http = { version = "=0.6.11", features = ["compression-full"] }
tracing = "=0.1.44"
tracing-core = "=0.1.36"
tracing-subscriber = "=0.3.23"
url = { version = "=2.5.8", features = ["serde"] }
