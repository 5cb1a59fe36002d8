//! How the load balancer starts: which clients, servers and routers there are.

use vstd::prelude::*;

use crate::api;
use crate::api::{ApiRouter, NoApiToken};
use crate::cli::Cli;

verus! {

pub const SERVICE_NAME: &'static str = "ic_http_lb";

pub const AUTHOR_NAME: &'static str = "Boundary Node Team <boundary-nodes@dfinity.org>";

/// The HTTP client that talks to the backends.
#[derive(Clone, Copy, Debug, PartialEq, Eq, Structural)]
pub enum ClientKind {
    Single,
    /// A number of clients, of which the least loaded one is used.
    LeastLoaded(u16),
}

/// What a server serves.
#[derive(Clone, Copy, Debug, PartialEq, Eq, Structural)]
pub enum Serves {
    /// It redirects every request to HTTPS.
    HttpsRedirect,
    /// It serves all requests.
    Requests,
    /// It serves the API.
    Api,
    /// It serves the metrics.
    Metrics,
}

/// A server: the name of its task, its address, what it serves, and whether it does so over TLS.
#[derive(Debug, PartialEq, Eq)]
pub struct ServerPlan {
    pub name: &'static str,
    pub listen: String,
    pub serves: Serves,
    pub tls: bool,
}

/// A server.
#[verifier::ext_equal]
pub struct ServerModel {
    pub name: Seq<char>,
    pub listen: Seq<char>,
    pub serves: Serves,
    pub tls: bool,
}

impl View for ServerPlan {
    type V = ServerModel;

    open spec fn view(&self) -> ServerModel {
        ServerModel {
            name: self.name@,
            listen: self.listen@,
            serves: self.serves,
            tls: self.tls,
        }
    }
}

/// A list of servers.
pub open spec fn servers_view(servers: Seq<ServerPlan>) -> Seq<ServerModel> {
    servers.map_values(|server: ServerPlan| server@)
}

/// How the load balancer starts.
#[derive(Debug)]
pub struct StartupPlan {
    pub client: ClientKind,
    /// Whether the certificates of backends are verified.
    pub verify_certificates: bool,
    /// Whether events are sent to a collector.
    pub vector: bool,
    /// Whether requests pass the web application firewall.
    pub waf: bool,
    pub api: Option<ApiRouter>,
    pub servers: Vec<ServerPlan>,
}

impl StartupPlan {
    /// Certificates are verified, events are sent and requests pass the firewall as the settings
    /// say.
    pub open spec fn follows(self, cli: Cli) -> bool {
        &&& self.verify_certificates
            == !cli.network.network_http_client_insecure_bypass_tls_verification
        &&& self.vector == cli.log.log_vector_url is Some
        &&& self.waf == cli.waf_enable
        &&& self.client == client_for(cli.network.network_http_client_count)
        &&& servers_view(self.servers@) == configured_servers(cli)
        &&& self.api is Some == cli.api.enabled()
    }
}

/// The client for a number of clients: one alone needs no choice between them.
pub open spec fn client_for(count: u16) -> ClientKind {
    if count > 1 {
        ClientKind::LeastLoaded(count)
    } else {
        ClientKind::Single
    }
}

/// The server for plain HTTP: it redirects to HTTPS, unless there is none.
pub open spec fn http_server(cli: Cli) -> ServerModel {
    ServerModel {
        name: "server_http"@,
        listen: cli.listen.listen_http@,
        serves: if cli.listen.listen_insecure_serve_http_only {
            Serves::Requests
        } else {
            Serves::HttpsRedirect
        },
        tls: false,
    }
}

/// The server for the API on an address of its own, in addition to its hostname.
pub open spec fn api_server(cli: Cli) -> Seq<ServerModel> {
    match cli.api.api_listen {
        Some(listen) if cli.api.enabled() => seq![
            ServerModel {
                name: "server_api"@,
                listen: listen@,
                serves: Serves::Api,
                tls: false,
            },
        ],
        _ => Seq::empty(),
    }
}

/// The server for the metrics, if they have an address.
pub open spec fn metrics_server(cli: Cli) -> Seq<ServerModel> {
    match cli.listen.listen_metrics {
        Some(listen) => seq![
            ServerModel {
                name: "metrics_server"@,
                listen: listen@,
                serves: Serves::Metrics,
                tls: false,
            },
        ],
        None => Seq::empty(),
    }
}

/// The server for HTTPS, unless only HTTP is served.
pub open spec fn https_server(cli: Cli) -> Seq<ServerModel> {
    if cli.listen.listen_insecure_serve_http_only {
        Seq::empty()
    } else {
        seq![
            ServerModel {
                name: "server_https"@,
                listen: cli.listen.listen_https@,
                serves: Serves::Requests,
                tls: true,
            },
        ]
    }
}

/// The servers that the settings ask for.
pub open spec fn configured_servers(cli: Cli) -> Seq<ServerModel> {
    seq![http_server(cli)] + api_server(cli) + metrics_server(cli) + https_server(cli)
}

/// Lists the servers that the settings ask for.
fn list_servers(cli: &Cli) -> (servers: Vec<ServerPlan>)
    ensures
        servers_view(servers@) == configured_servers(*cli),
{
    let http_only: bool = cli.listen.listen_insecure_serve_http_only;
    let mut servers: Vec<ServerPlan> =
        vec![
        ServerPlan {
            name: "server_http",
            listen: cli.listen.listen_http.clone(),
            serves: if http_only {
                Serves::Requests
            } else {
                Serves::HttpsRedirect
            },
            tls: false,
        },
    ];
    match &cli.api.api_listen {
        Some(listen) => {
            if cli.api.is_enabled() {
                servers.push(
                    ServerPlan {
                        name: "server_api",
                        listen: listen.clone(),
                        serves: Serves::Api,
                        tls: false,
                    },
                );
            }
        },
        None => {},
    }
    match &cli.listen.listen_metrics {
        Some(listen) => {
            servers.push(
                ServerPlan {
                    name: "metrics_server",
                    listen: listen.clone(),
                    serves: Serves::Metrics,
                    tls: false,
                },
            );
        },
        None => {},
    }
    if !http_only {
        servers.push(
            ServerPlan {
                name: "server_https",
                listen: cli.listen.listen_https.clone(),
                serves: Serves::Requests,
                tls: true,
            },
        );
    }
    assert(servers_view(servers@) =~= configured_servers(*cli));
    servers
}

/// Decides how to start. The API, if it is enabled, needs a token.
pub fn plan(cli: &Cli) -> (plan: Result<StartupPlan, NoApiToken>)
    ensures
        match plan {
            Err(NoApiToken) => cli.api.enabled() && cli.api.api_token is None,
            Ok(plan) => {
                &&& plan.client == (if cli.network.network_http_client_count > 1 {
                    ClientKind::LeastLoaded(cli.network.network_http_client_count)
                } else {
                    ClientKind::Single
                })
                &&& plan.follows(*cli)
                &&& plan.api is Some == cli.api.api_hostname is Some
                &&& plan.verify_certificates
                    == !cli.network.network_http_client_insecure_bypass_tls_verification
                &&& plan.vector == cli.log.log_vector_url is Some
                &&& plan.waf == cli.waf_enable
                &&& plan.api is Some == cli.api.enabled()
                &&& plan.api matches Some(router) ==> {
                    &&& cli.api.api_token matches Some(token)
                    &&& router.state.token@ == token@
                    &&& router.routes@.map_values(|route: api::ApiRoute| route@)
                        == api::api_routes(cli.waf_enable, cli.sev_snp_enable)
                }
                &&& servers_view(plan.servers@) == configured_servers(*cli)
            },
        },
{
    let api: Option<ApiRouter> = if cli.api.is_enabled() {
        let token: Option<&str> = match &cli.api.api_token {
            Some(token) => Some(token.as_str()),
            None => None,
        };
        match api::setup_api_axum_router(token, cli.waf_enable, cli.sev_snp_enable) {
            Ok(router) => Some(router),
            Err(e) => {
                return Err(e);
            },
        }
    } else {
        None
    };
    let count: u16 = cli.network.network_http_client_count;
    Ok(
        StartupPlan {
            client: if count > 1 {
                ClientKind::LeastLoaded(count)
            } else {
                ClientKind::Single
            },
            verify_certificates: !cli.network.network_http_client_insecure_bypass_tls_verification,
            vector: cli.log.log_vector_url.is_some(),
            waf: cli.waf_enable,
            api,
            servers: list_servers(cli),
        },
    )
}

/// Settings in which everything that goes with the API is there never fail for want of a token.
pub proof fn valid_settings_have_a_token(cli: Cli)
    requires
        cli.api.valid(),
    ensures
        !(cli.api.enabled() && cli.api.api_token is None),
{
}

/// Unless only HTTP is served, no server without TLS serves requests: plain HTTP is redirected,
/// and there is exactly one server for HTTPS.
pub proof fn requests_are_served_over_tls(cli: Cli)
    requires
        !cli.listen.listen_insecure_serve_http_only,
    ensures
        ({
            let servers = configured_servers(cli);
            &&& servers.first().serves == Serves::HttpsRedirect
            &&& servers.last() == https_server(cli)[0]
            &&& forall|i: int|
                0 <= i < servers.len() ==> ((#[trigger] servers[i]).serves == Serves::Requests <==>
                    servers[i].tls) && (servers[i].tls ==> i == servers.len() - 1)
        }),
{
}

/// Each server that the settings ask for is started exactly once, on its address, whatever the
/// other settings are, and no other server is started. The first one is that for plain HTTP: it
/// serves requests if only HTTP is served, and redirects them otherwise. Metrics are served exactly
/// if they have an address, and the API exactly if it has a hostname and an address, both without
/// TLS. Requests are served over TLS exactly if not only HTTP is served.
pub proof fn servers_are_started_as_asked(cli: Cli)
    ensures
        ({
            let servers = configured_servers(cli);
            let http_only = cli.listen.listen_insecure_serve_http_only;
            let api = cli.api.api_hostname is Some && cli.api.api_listen is Some;
            let metrics = cli.listen.listen_metrics is Some;
            &&& servers.len() == 1 + (if api {
                1int
            } else {
                0int
            }) + (if metrics {
                1int
            } else {
                0int
            }) + (if http_only {
                0int
            } else {
                1int
            })
            &&& servers[0].listen == cli.listen.listen_http@
            &&& !servers[0].tls
            &&& servers[0].serves == (if http_only {
                Serves::Requests
            } else {
                Serves::HttpsRedirect
            })
            &&& metrics <==> exists|i: int|
                0 < i < servers.len() && (#[trigger] servers[i]).serves == Serves::Metrics
            &&& api <==> exists|i: int|
                0 < i < servers.len() && (#[trigger] servers[i]).serves == Serves::Api
            &&& !http_only <==> exists|i: int|
                0 < i < servers.len() && (#[trigger] servers[i]).serves == Serves::Requests
            &&& forall|i: int|
                0 < i < servers.len() ==> match (#[trigger] servers[i]).serves {
                    Serves::HttpsRedirect => false,
                    Serves::Metrics => {
                        metrics && servers[i].listen == cli.listen.listen_metrics->0@
                            && !servers[i].tls
                    },
                    Serves::Api => {
                        api && servers[i].listen == cli.api.api_listen->0@ && !servers[i].tls
                    },
                    Serves::Requests => {
                        !http_only && servers[i].listen == cli.listen.listen_https@
                            && servers[i].tls
                    },
                }
            &&& forall|i: int, j: int|
                0 <= i < j < servers.len() ==> (#[trigger] servers[i]).serves != (
                #[trigger] servers[j]).serves
        }),
{
    let servers = configured_servers(cli);
    let api = cli.api.api_hostname is Some && cli.api.api_listen is Some;
    let metrics = cli.listen.listen_metrics is Some;
    let after_api: int = if api {
        2
    } else {
        1
    };
    if api {
        assert(servers[1].serves == Serves::Api);
    }
    if metrics {
        assert(servers[after_api].serves == Serves::Metrics);
    }
    if !cli.listen.listen_insecure_serve_http_only {
        assert(servers[servers.len() - 1].serves == Serves::Requests);
    }
}

/// The task of a server is named after what it serves, and no two tasks share a name.
pub proof fn servers_are_named_after_what_they_serve(cli: Cli)
    ensures
        ({
            let servers = configured_servers(cli);
            &&& forall|i: int|
                0 <= i < servers.len() ==> (#[trigger] servers[i]).name == (
                match servers[i].serves {
                    Serves::HttpsRedirect => "server_http"@,
                    Serves::Requests => if servers[i].tls {
                        "server_https"@
                    } else {
                        "server_http"@
                    },
                    Serves::Api => "server_api"@,
                    Serves::Metrics => "metrics_server"@,
                })
            &&& forall|i: int, j: int|
                0 <= i < j < servers.len() ==> (#[trigger] servers[i]).name != (
                #[trigger] servers[j]).name
        }),
{
    reveal_strlit("server_http");
    reveal_strlit("server_https");
    reveal_strlit("server_api");
    reveal_strlit("metrics_server");
    let http = "server_http"@;
    let https = "server_https"@;
    let api = "server_api"@;
    let metrics = "metrics_server"@;
    assert(http.len() == 11 && https.len() == 12 && api.len() == 10 && metrics.len() == 14);
    servers_are_started_as_asked(cli);
}

/// Several clients are used, as many as the settings say, exactly if they say more than one.
pub proof fn clients_are_as_many_as_asked(count: u16)
    ensures
        client_for(count) matches ClientKind::LeastLoaded(n) ==> n == count && n >= 2,
        client_for(count) is Single <==> count <= 1,
{
}

/// What is told of a server is all there is to it.
pub proof fn servers_are_told_apart(one: ServerPlan, other: ServerPlan)
    ensures
        one@ == other@ <==> {
            &&& one.name@ == other.name@
            &&& one.listen@ == other.listen@
            &&& one.serves == other.serves
            &&& one.tls == other.tls
        },
        servers_view(seq![one, other]) == seq![one@, other@],
{
    assert(servers_view(seq![one, other]) =~= seq![one@, other@]);
}

/// Each setting decides one thing, whatever the others are: certificates are verified unless that
/// is bypassed, events are sent if there is somewhere to send them, requests pass the firewall if
/// it is enabled, and there is an API if it has a hostname.
pub proof fn plans_follow_the_settings(plan: StartupPlan, cli: Cli)
    requires
        plan.follows(cli),
    ensures
        plan.verify_certificates
            <==> !cli.network.network_http_client_insecure_bypass_tls_verification,
        plan.vector <==> cli.log.log_vector_url is Some,
        plan.waf <==> cli.waf_enable,
        plan.api is Some <==> cli.api.api_hostname is Some,
        plan.client is Single <==> cli.network.network_http_client_count <= 1,
        plan.servers@.len() == configured_servers(cli).len(),
        forall|i: int|
            0 <= i < plan.servers@.len() ==> (#[trigger] plan.servers@[i])@
                == configured_servers(cli)[i],
{
    assert(servers_view(plan.servers@).len() == plan.servers@.len());
    assert forall|i: int| 0 <= i < plan.servers@.len() implies (#[trigger] plan.servers@[i])@
        == configured_servers(cli)[i] by {
        assert(servers_view(plan.servers@)[i] == plan.servers@[i]@);
    }
}

} // verus!
