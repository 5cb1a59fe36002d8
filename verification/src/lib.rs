//! The rules of an HTTP load balancer that runs in front of HTTP gateways: which backends get
//! requests, how requests are buffered and tried again, what clients are told when that fails, and
//! how all of it is configured.
//!
//! What goes over the network or to the disk is left to the caller: functions here take what was
//! read and return what is to be done.

pub mod api;
pub mod backend;
pub mod cli;
pub mod headers;
pub mod metrics;
pub mod middleware;
pub mod reconfiguration;
pub mod retries;
pub mod routing;
pub mod startup;
pub mod text;
pub mod time;
pub mod tls;
pub mod uri;
