use ic_http_lb::api::NoApiToken;
use ic_http_lb::cli::{
    Api, Cert, Cli, FilePath, Health, Limits, Listen, Log, Misc, Network, Retry,
};
use ic_http_lb::startup::{plan, ClientKind, ServerPlan, Serves};
use ic_http_lb::time::TimeSpan;
use ic_http_lb::tls::{
    custom_domains_worker_task, setup, NoCertificateProviders, Provider, TlsVersion,
};

fn settings() -> Cli {
    Cli {
        listen: Listen {
            listen_http: "127.0.0.1:8080".into(),
            listen_https: "127.0.0.1:8443".into(),
            listen_metrics: None,
            listen_insecure_serve_http_only: false,
        },
        network: Network {
            network_http_client_count: 16,
            network_http_client_insecure_bypass_tls_verification: false,
            network_request_body_buffer: false,
            network_response_body_buffer: false,
        },
        limits: Limits {
            limits_request_body_size: 10_000_000,
            limits_request_body_timeout: TimeSpan::from_secs(30),
            limits_response_body_size: 30_000_000,
            limits_response_body_timeout: TimeSpan::from_secs(60),
        },
        retry: Retry {
            retry_attempts: 1,
            retry_interval: TimeSpan::from_millis(50),
        },
        api: Api {
            api_listen: None,
            api_hostname: None,
            api_token: None,
            api_acme: false,
            api_acme_cache: None,
        },
        health: Health {
            health_check_interval: TimeSpan::from_secs(1),
            health_check_timeout: TimeSpan::from_secs(10),
        },
        custom_domains: false,
        cert: Cert {
            cert_provider_file: vec![],
            cert_provider_dir: vec![],
            cert_provider_issuer_url: vec![],
            cert_provider_issuer_poll_interval: TimeSpan::from_secs(30),
            cert_provider_poll_interval: TimeSpan::from_secs(5),
        },
        log: Log {
            log_requests: false,
            log_requests_long: None,
            log_vector_url: None,
        },
        waf_enable: false,
        sev_snp_enable: false,
        misc: Misc {
            env: "dev".into(),
            hostname: "host".into(),
            threads: None,
        },
    }
}

fn path(text: &str) -> FilePath {
    FilePath { bytes: text.as_bytes().to_vec() }
}

fn server(name: &'static str, listen: &str, serves: Serves, tls: bool) -> ServerPlan {
    ServerPlan { name, listen: listen.into(), serves, tls }
}

#[test]
fn plain_http_is_redirected() {
    let plan = plan(&settings()).unwrap();
    assert_eq!(
        plan.servers,
        vec![
            server("server_http", "127.0.0.1:8080", Serves::HttpsRedirect, false),
            server("server_https", "127.0.0.1:8443", Serves::Requests, true),
        ]
    );
    assert_eq!(plan.client, ClientKind::LeastLoaded(16));
    assert!(plan.verify_certificates);
    assert!(!plan.vector && !plan.waf);
    assert!(plan.api.is_none());
}

#[test]
fn everything_can_be_asked_for() {
    let mut cli = settings();
    cli.listen.listen_metrics = Some("127.0.0.1:9090".into());
    cli.listen.listen_insecure_serve_http_only = true;
    cli.network.network_http_client_count = 1;
    cli.network.network_http_client_insecure_bypass_tls_verification = true;
    cli.api.api_listen = Some("127.0.0.1:3000".into());
    cli.api.api_hostname = Some("api.example.com".into());
    cli.api.api_token = Some("token".into());
    cli.log.log_vector_url = Some("http://vector".into());
    cli.waf_enable = true;

    let plan = plan(&cli).unwrap();
    assert_eq!(
        plan.servers,
        vec![
            server("server_http", "127.0.0.1:8080", Serves::Requests, false),
            server("server_api", "127.0.0.1:3000", Serves::Api, false),
            server("metrics_server", "127.0.0.1:9090", Serves::Metrics, false),
        ]
    );
    assert_eq!(plan.client, ClientKind::Single);
    assert!(!plan.verify_certificates);
    assert!(plan.vector && plan.waf);
    let api = plan.api.unwrap();
    assert_eq!(api.state.token, "token");
    assert_eq!(api.routes.len(), 7);
}

#[test]
fn an_enabled_api_needs_a_token() {
    let mut cli = settings();
    cli.api.api_hostname = Some("api.example.com".into());
    assert_eq!(plan(&cli).unwrap_err(), NoApiToken);
    cli.api.api_token = Some("token".into());
    assert!(plan(&cli).unwrap().api.is_some());
}

#[test]
fn an_api_without_a_hostname_is_not_enabled() {
    let mut cli = settings();
    cli.api.api_listen = Some("127.0.0.1:3000".into());
    cli.api.api_token = Some("token".into());
    let plan = plan(&cli).unwrap();
    assert!(plan.api.is_none());
    assert!(plan.servers.iter().all(|x| x.serves != Serves::Api));
}

#[test]
fn threads_default_to_the_cpus() {
    let mut misc = settings().misc;
    assert_eq!(misc.worker_threads(Some(8)), Some(8));
    assert_eq!(misc.worker_threads(None), None);
    misc.threads = Some(3);
    assert_eq!(misc.worker_threads(Some(8)), Some(3));
}

#[test]
fn https_needs_a_certificate_provider() {
    let error = setup(&settings()).unwrap_err();
    assert_eq!(error, NoCertificateProviders);
    assert_eq!(
        error.to_text(),
        "No certificate providers specified - HTTPS cannot be used"
    );
}

#[test]
fn providers_come_in_order() {
    let mut cli = settings();
    cli.custom_domains = true;
    cli.cert.cert_provider_dir = vec![path("/certs")];
    cli.cert.cert_provider_file = vec![path("/a.pem"), path("/b.pem")];
    cli.cert.cert_provider_issuer_url = vec!["https://issuer/".into()];

    let plan = setup(&cli).unwrap();
    assert_eq!(
        plan.providers,
        vec![
            Provider::Issuer("https://issuer/".into(), TimeSpan::from_secs(30)),
            Provider::File(path("/a.pem")),
            Provider::File(path("/b.pem")),
            Provider::Dir(path("/certs")),
            Provider::CustomDomains,
        ]
    );
    assert_eq!(plan.poll_interval, TimeSpan::from_secs(5));
    assert_eq!(plan.versions, vec![TlsVersion::Tls13, TlsVersion::Tls12]);
    assert!(plan.acme.is_none());
    assert!(!plan.acme_alpn);
}

#[test]
fn certificates_for_the_api_are_issued() {
    let mut cli = settings();
    cli.cert.cert_provider_file = vec![path("/a.pem")];
    cli.api.api_hostname = Some("api.example.com".into());
    cli.api.api_acme = true;
    cli.api.api_acme_cache = Some(path("/acme"));

    let plan = setup(&cli).unwrap();
    let acme = plan.acme.unwrap();
    assert_eq!(acme.domains, vec!["api.example.com"]);
    assert_eq!(acme.contact, "mailto:boundary-nodes@dfinity.org");
    assert_eq!(acme.cache_path, path("/acme"));
    assert!(plan.acme_alpn);
}

#[test]
fn workers_are_numbered() {
    assert_eq!(custom_domains_worker_task(0), "custom_domains_worker_0");
    assert_eq!(custom_domains_worker_task(12), "custom_domains_worker_12");
}
