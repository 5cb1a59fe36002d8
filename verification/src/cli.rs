//! The settings of the load balancer.

use vstd::prelude::*;

use crate::time::TimeSpan;

verus! {

/// The path of a file or a directory, byte for byte.
#[derive(Debug, PartialEq, Eq)]
pub struct FilePath {
    pub bytes: Vec<u8>,
}

impl View for FilePath {
    type V = Seq<u8>;

    open spec fn view(&self) -> Seq<u8> {
        self.bytes@
    }
}

impl Clone for FilePath {
    fn clone(&self) -> (copy: Self)
        ensures
            copy@ == self@,
    {
        FilePath { bytes: self.bytes.clone() }
    }
}

/// All settings.
#[derive(Debug)]
pub struct Cli {
    pub listen: Listen,
    pub network: Network,
    pub limits: Limits,
    pub retry: Retry,
    pub api: Api,
    pub health: Health,
    /// Whether certificates for custom domains are served.
    pub custom_domains: bool,
    pub cert: Cert,
    pub log: Log,
    /// Whether requests pass the web application firewall.
    pub waf_enable: bool,
    /// Whether the attestation report of the machine is served.
    pub sev_snp_enable: bool,
    pub misc: Misc,
}

#[derive(Debug)]
pub struct Listen {
    /// Where to listen for HTTP requests.
    pub listen_http: String,
    /// Where to listen for HTTPS requests.
    pub listen_https: String,
    /// Where to listen for metrics.
    pub listen_metrics: Option<String>,
    /// Option to only serve HTTP instead for testing.
    pub listen_insecure_serve_http_only: bool,
}

#[derive(Clone, Copy, Debug)]
pub struct Network {
    /// Number of HTTP clients to create to spread the load over.
    pub network_http_client_count: u16,
    /// Bypass verification of TLS certificates for all outgoing requests.
    /// *** Dangerous *** - use only for testing.
    pub network_http_client_insecure_bypass_tls_verification: bool,
    /// Whether to buffer request body from the client before sending it to the backend.
    /// If `retry_attempts` is >1 then this is implicitly enabled.
    /// The body is buffered only if its size is known and smaller than `limits_request_body_size`.
    pub network_request_body_buffer: bool,
    /// Whether to buffer response body from the backend before sending it to the client.
    /// The body is buffered only if its size is known and smaller than `limits_response_body_size`.
    pub network_response_body_buffer: bool,
}

#[derive(Debug)]
pub struct Api {
    /// Where to listen for API requests in addition to the hostname below.
    pub api_listen: Option<String>,
    /// Specify a hostname on which to respond to API requests.
    /// Requires `api_token` to be set.
    /// If not specified - API isn't enabled.
    pub api_hostname: Option<String>,
    /// Set an API authentication token.
    pub api_token: Option<String>,
    /// Whether to try to issue the certificate for the `api_hostname`.
    /// If enabled - `api_acme_cache` needs to be set.
    pub api_acme: bool,
    /// Path to a folder where to store ACME cache (account, certificates etc).
    pub api_acme_cache: Option<FilePath>,
}

#[derive(Clone, Copy, Debug)]
pub struct Health {
    /// How frequently to check health of the backends.
    pub health_check_interval: TimeSpan,
    /// How long to wait for the health check to finish.
    /// This is applied on top of all HTTP timeouts and has precedence.
    pub health_check_timeout: TimeSpan,
}

#[derive(Debug)]
pub struct Cert {
    /// Read certificates from given files.
    /// Each file should be PEM-encoded concatenated certificate chain with a private key.
    pub cert_provider_file: Vec<FilePath>,
    /// Read certificates from given directories.
    /// Each certificate should be a pair .pem + .key files with the same base name.
    pub cert_provider_dir: Vec<FilePath>,
    /// Request certificates from the 'certificate-issuer' instances reachable over given URLs.
    pub cert_provider_issuer_url: Vec<String>,
    /// How frequently to refresh certificate issuers.
    pub cert_provider_issuer_poll_interval: TimeSpan,
    /// How frequently to poll providers for certificates.
    pub cert_provider_poll_interval: TimeSpan,
}

#[derive(Clone, Copy, Debug)]
pub struct Retry {
    /// Number of request attempts to do.
    /// Only network errors are retried, not HTTP codes.
    /// If the number of attempts is 1 then we don't retry.
    pub retry_attempts: u8,
    /// Initial retry interval, with each retry it is doubled.
    /// If there are no healthy nodes then we wait 1/4 of `health_check_interval` instead in
    /// hope that some node would become healthy.
    pub retry_interval: TimeSpan,
}

#[derive(Clone, Copy, Debug)]
pub struct Limits {
    /// Maximum request body size if buffering.
    pub limits_request_body_size: usize,
    /// Maximum time allowed to buffer the request body.
    pub limits_request_body_timeout: TimeSpan,
    /// Maximum response body size if buffering.
    pub limits_response_body_size: usize,
    /// Maximum time allowed to buffer the response body.
    pub limits_response_body_timeout: TimeSpan,
}

#[derive(Debug)]
pub struct Log {
    /// Enables logging of all HTTP requests to stdout at INFO level.
    /// This does not affect Vector logging,
    /// if it's enabled then it will log in any case.
    pub log_requests: bool,
    /// Log requests that take longer than this to complete at WARN level.
    /// This works independently of `log_requests` and raises the log level from INFO to WARN if
    /// the request duration exceeds this.
    pub log_requests_long: Option<TimeSpan>,
    /// Where to send events to.
    pub log_vector_url: Option<String>,
}

#[derive(Debug)]
pub struct Misc {
    /// Environment we run in to specify in the logs.
    pub env: String,
    /// Local hostname to identify in e.g. logs.
    pub hostname: String,
    /// Number of threads to use to serve requests.
    /// Defaults to the number of CPUs.
    pub threads: Option<usize>,
}

impl Retry {
    /// There is at least one attempt.
    pub open spec fn valid(self) -> bool {
        self.retry_attempts >= 1
    }
}

impl Api {
    /// The API is enabled: it has a hostname.
    pub open spec fn enabled(self) -> bool {
        self.api_hostname is Some
    }

    /// What goes with other settings is there if they are: a token if there is a hostname or an
    /// address for the API, and a cache if certificates are to be issued.
    pub open spec fn valid(self) -> bool {
        &&& self.api_hostname is Some || self.api_listen is Some ==> self.api_token is Some
        &&& self.api_acme ==> self.api_acme_cache is Some
    }

    /// Whether the API is enabled.
    pub fn is_enabled(&self) -> (yes: bool)
        ensures
            yes == self.enabled(),
    {
        self.api_hostname.is_some()
    }
}

impl Misc {
    /// How many threads serve requests: as many as were asked for, or else as many as there are
    /// CPUs, if their number is known.
    pub fn worker_threads(&self, cpus: Option<usize>) -> (threads: Option<usize>)
        ensures
            threads == (match self.threads {
                Some(threads) => Some(threads),
                None => cpus,
            }),
    {
        match self.threads {
            Some(threads) => Some(threads),
            None => cpus,
        }
    }
}

} // verus!
