//! The API: who may use it, what it serves and how it answers.

use vstd::prelude::*;

use crate::backend::{BackendConf, BackendError, BackendManager, Config, RouterStep};
use crate::headers;
use crate::routing::{BAD_REQUEST, SERVICE_UNAVAILABLE};
use crate::text;

verus! {

pub const OK: u16 = 200;

pub const NO_CONTENT: u16 = 204;

pub const UNAUTHORIZED: u16 = 401;

pub const TOO_MANY_REQUESTS: u16 = 429;

pub const INTERNAL_SERVER_ERROR: u16 = 500;

/// The body of a response to a request that was carried out.
pub const OK_BODY: &'static str = "Ok\n";

/// What stands before the token in an authorization.
pub const BEARER: &'static str = "Bearer ";

/// The response to an API request.
#[derive(Debug, PartialEq, Eq)]
pub struct ApiResponse {
    pub status: u16,
    pub body: String,
}

impl ApiResponse {
    /// The response has a status code and a body.
    pub open spec fn says(self, status: u16, body: Seq<char>) -> bool {
        self.status == status && self.body@ == body
    }

    fn new(status: u16, body: &str) -> (response: ApiResponse)
        ensures
            response.says(status, body@),
    {
        ApiResponse { status, body: body.to_owned() }
    }
}

/// What the API needs to answer.
#[derive(Debug)]
pub struct ApiState {
    pub token: String,
}

/// The authorization that goes with a token.
pub open spec fn authorization_for(token: Seq<char>) -> Seq<u8> {
    vstd::utf8::encode_utf8(BEARER@) + vstd::utf8::encode_utf8(token)
}

/// An authorization begins like one with a token, and something follows.
pub open spec fn is_bearer(authorization: Seq<u8>) -> bool {
    &&& authorization.len() >= 8
    &&& authorization.take(7) == vstd::utf8::encode_utf8(BEARER@)
}

/// What a request with an authorization, or with none, is refused with. Nothing means that it is
/// let through.
pub open spec fn refusal(token: Seq<char>, authorization: Option<Seq<u8>>) -> Option<Seq<char>> {
    match authorization {
        None => Some("Authorization header not found"@),
        Some(bytes) => if !is_bearer(bytes) {
            Some("Incorrect header format"@)
        } else if bytes.skip(7) != vstd::utf8::encode_utf8(token) {
            Some("Incorrect bearer token"@)
        } else {
            None
        },
    }
}

/// The word before a token takes seven bytes.
proof fn bearer_bytes()
    ensures
        vstd::utf8::encode_utf8(BEARER@) == seq![66u8, 101, 97, 114, 101, 114, 32],
{
    reveal_strlit("Bearer ");
    assert(vstd::utf8::is_ascii_chars(BEARER@));
    vstd::utf8::is_ascii_chars_encode_utf8(BEARER@);
    assert(vstd::utf8::encode_utf8(BEARER@) =~= seq![66u8, 101, 97, 114, 101, 114, 32]);
}

/// Whether some bytes are what follows in others from a place on.
fn ends_with_from(bytes: &Vec<u8>, from: usize, rest: &[u8]) -> (same: bool)
    requires
        from <= bytes.len(),
    ensures
        same == (bytes@.skip(from as int) == rest@),
{
    if bytes.len() - from != rest.len() {
        return false;
    }
    let mut i: usize = 0;
    while i < rest.len()
        invariant
            from <= bytes.len(),
            bytes.len() - from == rest.len(),
            i <= rest.len(),
            forall|j: int| 0 <= j < i ==> bytes@[from + j] == #[trigger] rest@[j],
        decreases rest.len() - i,
    {
        if bytes[from + i] != rest[i] {
            assert(bytes@.skip(from as int)[i as int] != rest@[i as int]);
            return false;
        }
        i += 1;
    }
    assert(bytes@.skip(from as int) =~= rest@);
    true
}

/// Lets a request through, by returning nothing, if it carries the right token. Otherwise the
/// response that refuses it is returned.
pub fn auth_middleware(
    state: &ApiState,
    request_headers: &http::HeaderMap<http::HeaderValue>,
) -> (response: Option<ApiResponse>)
    ensures
        ({
            let authorization = headers::first_value(
                headers::header_fields(*request_headers),
                headers::AUTHORIZATION@,
            );
            match (refusal(state.token@, authorization), response) {
                (Some(message), Some(response)) => response.says(UNAUTHORIZED, message),
                (None, None) => true,
                _ => false,
            }
        }),
{
    proof {
        headers::known_names();
        bearer_bytes();
    }
    let auth: Vec<u8> = match headers::header_get(request_headers, headers::AUTHORIZATION) {
        Some(auth) => auth,
        None => {
            return Some(ApiResponse::new(UNAUTHORIZED, "Authorization header not found"));
        },
    };
    if auth.len() < 8 {
        return Some(ApiResponse::new(UNAUTHORIZED, "Incorrect header format"));
    }
    let bearer: &[u8] = BEARER.as_bytes();
    let mut i: usize = 0;
    while i < bearer.len()
        invariant
            i <= bearer.len(),
            bearer@ == vstd::utf8::encode_utf8(BEARER@),
            bearer@.len() == 7,
            auth@.len() >= 8,
            Some(auth@) == headers::first_value(
                headers::header_fields(*request_headers),
                headers::AUTHORIZATION@,
            ),
            forall|j: int| 0 <= j < i ==> #[trigger] auth@[j] == bearer@[j],
        decreases bearer.len() - i,
    {
        if auth[i] != bearer[i] {
            assert(auth@.take(7)[i as int] != bearer@[i as int]);
            return Some(ApiResponse::new(UNAUTHORIZED, "Incorrect header format"));
        }
        i += 1;
    }
    assert(auth@.take(7) =~= bearer@);
    if ends_with_from(&auth, 7, state.token.as_str().as_bytes()) {
        None
    } else {
        Some(ApiResponse::new(UNAUTHORIZED, "Incorrect bearer token"))
    }
}

/// A request is let through if and only if its authorization is the one that goes with the token.
/// An empty token lets no request through.
pub proof fn only_the_token_opens(token: Seq<char>, authorization: Option<Seq<u8>>)
    ensures
        refusal(token, authorization) is None <==> (authorization == Some(authorization_for(token))
            && token.len() > 0),
{
    bearer_bytes();
    let bearer = vstd::utf8::encode_utf8(BEARER@);
    let bytes = vstd::utf8::encode_utf8(token);
    assert(bytes.len() == 0 <==> token.len() == 0);
    assert(authorization_for(token).take(7) =~= bearer);
    assert(authorization_for(token).skip(7) =~= bytes);
    match authorization {
        Some(given) => {
            if refusal(token, authorization) is None {
                assert(given =~= given.take(7) + given.skip(7));
            }
        },
        None => {},
    }
}

/// The status code that tells of the health of the load balancer: it is healthy if one of the
/// main backends is.
pub open spec fn health_status(healthy_nodes: usize) -> u16 {
    if healthy_nodes > 0 {
        NO_CONTENT
    } else {
        SERVICE_UNAVAILABLE
    }
}

/// The status code that tells of the health of the load balancer: it is healthy if one of the
/// main backends is.
pub fn health_handler(healthy_nodes: usize) -> (status: u16)
    ensures
        status == (if healthy_nodes > 0 {
            NO_CONTENT
        } else {
            SERVICE_UNAVAILABLE
        }),
        status == health_status(healthy_nodes),
{
    if healthy_nodes > 0 {
        NO_CONTENT
    } else {
        SERVICE_UNAVAILABLE
    }
}

/// What an action does to a backend, if it is an action: it is then enabled or disabled.
pub open spec fn action_state(action: Seq<char>) -> Option<bool> {
    if action == "enable"@ {
        Some(true)
    } else if action == "disable"@ {
        Some(false)
    } else {
        None
    }
}

/// Reads an action: whether a backend is to be enabled or disabled.
pub fn parse_action(action: &str) -> (enabled: Option<bool>)
    ensures
        enabled == action_state(action@),
{
    if text::same_text(action, "enable") {
        Some(true)
    } else if text::same_text(action, "disable") {
        Some(false)
    } else {
        None
    }
}

/// What a request to enable or disable a backend is answered.
pub open spec fn backend_answer(
    backends: Seq<BackendConf>,
    backend: Seq<char>,
    action: Seq<char>,
) -> (u16, Seq<char>) {
    if action_state(action) is None {
        (BAD_REQUEST, "Unknown action: "@ + action)
    } else if crate::backend::find_backend(backends, backend) is None {
        (BAD_REQUEST, "Error: "@ + ("Backend not found: "@ + backend))
    } else {
        (OK, OK_BODY@)
    }
}

/// Enables or disables a backend. The steps are to be performed before the response is sent.
pub fn backend_handler(manager: &mut BackendManager, backend: String, action: &str) -> (result: (
    ApiResponse,
    Vec<RouterStep>,
))
    ensures
        ({
            let before = old(manager)@;
            let after = final(manager)@;
            let (response, steps) = result;
            match action_state(action@) {
                None => {
                    &&& response.says(BAD_REQUEST, "Unknown action: "@ + action@)
                    &&& after == before
                    &&& steps@.len() == 0
                },
                Some(enabled) => match crate::backend::find_backend(
                    before.config.backends,
                    backend@,
                ) {
                    None => {
                        &&& response.says(
                            BAD_REQUEST,
                            "Error: "@ + BackendError::NotFound(backend).message(),
                        )
                        &&& after == before
                        &&& steps@.len() == 0
                    },
                    Some(i) => {
                        let config = before.config.with_backend_state(i, enabled);
                        &&& response.says(OK, OK_BODY@)
                        &&& after == crate::backend::ManagerModel::in_force(config)
                        &&& crate::backend::steps_view(steps@) == before.steps_to(config)
                    },
                },
            }
        }),
        old(manager)@.wf() ==> final(manager)@.wf(),
        result.0.status == backend_answer(
            old(manager)@.config.backends,
            backend@,
            action@,
        ).0,
        result.0.body@ == backend_answer(old(manager)@.config.backends, backend@, action@).1,
        result.0.status != 200 ==> final(manager)@ == old(manager)@,
{
    let enabled: bool = match parse_action(action) {
        Some(enabled) => enabled,
        None => {
            return (
                ApiResponse { status: BAD_REQUEST, body: text::join("Unknown action: ", action) },
                Vec::new(),
            );
        },
    };
    match manager.set_backend_state(backend, enabled) {
        Ok(steps) => (ApiResponse::new(OK, OK_BODY), steps),
        Err(e) => (
            ApiResponse {
                status: BAD_REQUEST,
                body: text::join("Error: ", e.to_text().as_str()),
            },
            Vec::new(),
        ),
    }
}

/// A level of logging.
#[derive(Clone, Copy, Debug, PartialEq, Eq, Structural)]
pub enum LogLevel {
    Error,
    Warn,
    Info,
    Debug,
    Trace,
}

/// A letter of the alphabet in lower case, and any other character as it is.
pub open spec fn lower(c: char) -> char {
    if 'A' <= c && c <= 'Z' {
        ((c as u32) + 32) as char
    } else {
        c
    }
}

/// A text is a word, but for the case of its letters.
pub open spec fn is_word(text: Seq<char>, word: Seq<char>) -> bool {
    text.map_values(|c: char| lower(c)) == word
}

/// A text is a number below ten in decimal notation. A sign and leading zeros may stand before it.
pub open spec fn is_number(text: Seq<char>, n: nat) -> bool {
    let digits = if text.len() > 0 && text[0] == '+' {
        text.skip(1)
    } else {
        text
    };
    &&& digits.len() > 0
    &&& digits.last() == crate::text::digit(n)
    &&& forall|i: int| 0 <= i < digits.len() - 1 ==> #[trigger] digits[i] == '0'
}

/// The level that a text names: by its name, in upper or lower case, or by its number.
pub open spec fn named_level(text: Seq<char>) -> Option<LogLevel> {
    if is_number(text, 1) || is_word(text, "error"@) {
        Some(LogLevel::Error)
    } else if is_number(text, 2) || is_word(text, "warn"@) {
        Some(LogLevel::Warn)
    } else if is_number(text, 3) || is_word(text, "info"@) {
        Some(LogLevel::Info)
    } else if is_number(text, 4) || is_word(text, "debug"@) {
        Some(LogLevel::Debug)
    } else if is_number(text, 5) || is_word(text, "trace"@) {
        Some(LogLevel::Trace)
    } else {
        None
    }
}

/// `tracing::Level::from_str`, which is trusted to take the names of the five levels, without
/// regard to the case of their letters, and the numbers from 1, for errors, to 5, for traces, as
/// an unsigned integer is parsed, and to refuse any other text.
#[verifier::external_body]
fn parse_level(text: &str) -> (level: Option<LogLevel>)
    ensures
        level == named_level(text@),
{
    let level: tracing::Level = text.parse().ok()?;
    Some(match level {
        tracing::Level::ERROR => LogLevel::Error,
        tracing::Level::WARN => LogLevel::Warn,
        tracing::Level::INFO => LogLevel::Info,
        tracing::Level::DEBUG => LogLevel::Debug,
        tracing::Level::TRACE => LogLevel::Trace,
    })
}

/// Reads the level that logging is to be set to.
pub fn log_handler(log_level: &str) -> (result: (ApiResponse, Option<LogLevel>))
    ensures
        result.1 == named_level(log_level@),
        match result.1 {
            Some(_) => result.0.says(OK, OK_BODY@),
            None => result.0.says(
                BAD_REQUEST,
                "Unable to parse '"@ + log_level@ + "' as log level"@,
            ),
        },
{
    match parse_level(log_level) {
        Some(level) => (ApiResponse::new(OK, OK_BODY), Some(level)),
        None => (
            ApiResponse {
                status: BAD_REQUEST,
                body: text::join3("Unable to parse '", log_level, "' as log level"),
            },
            None,
        ),
    }
}

/// Takes over the config that was loaded from the file, unless loading it failed. The steps are to
/// be performed before the response is sent.
pub fn config_reload(manager: &mut BackendManager, loaded: Result<Config, BackendError>) -> (result: (
    ApiResponse,
    Vec<RouterStep>,
))
    ensures
        ({
            let before = old(manager)@;
            let after = final(manager)@;
            let (response, steps) = result;
            let error = match loaded {
                Ok(config) => if config@.names_unique() {
                    None
                } else {
                    Some(BackendError::NonUniqueNames)
                },
                Err(e) => Some(e),
            };
            match error {
                Some(e) => {
                    &&& response.says(
                        INTERNAL_SERVER_ERROR,
                        "Error reloading config: "@ + e.message(),
                    )
                    &&& after == before
                    &&& steps@.len() == 0
                },
                None => {
                    let config = loaded->Ok_0@;
                    &&& response.says(OK, OK_BODY@)
                    &&& after == crate::backend::ManagerModel::in_force(config)
                    &&& crate::backend::steps_view(steps@) == before.steps_to(config)
                },
            }
        }),
        old(manager)@.wf() ==> final(manager)@.wf(),
        result.0.status == 200 <==> loaded is Ok && loaded->Ok_0@.names_unique(),
        result.0.status == 200 || result.0.status == 500,
        loaded matches Err(e) ==> result.0.body@ == "Error reloading config: "@ + e.message(),
{
    match manager.load_config(loaded) {
        Ok(steps) => (ApiResponse::new(OK, OK_BODY), steps),
        Err(e) => (
            ApiResponse {
                status: INTERNAL_SERVER_ERROR,
                body: text::join("Error reloading config: ", e.to_text().as_str()),
            },
            Vec::new(),
        ),
    }
}

/// Hands out the current config, encoded as JSON, unless that failed.
pub fn config_get(encoded: Option<String>) -> (response: ApiResponse)
    ensures
        match encoded {
            Some(json) => response.says(OK, json@),
            None => response.says(INTERNAL_SERVER_ERROR, "Unable to encode to JSON"@),
        },
{
    match encoded {
        Some(json) => ApiResponse { status: OK, body: json },
        None => ApiResponse::new(INTERNAL_SERVER_ERROR, "Unable to encode to JSON"),
    }
}

/// Replaces the current config with the one that was sent, if it could be parsed. The steps are to
/// be performed, and the config is then to be persisted.
pub fn config_put(manager: &mut BackendManager, parsed: Option<Config>) -> (result: Result<
    Vec<RouterStep>,
    ApiResponse,
>)
    ensures
        ({
            let before = old(manager)@;
            let after = final(manager)@;
            match (parsed, result) {
                (None, Err(response)) => {
                    &&& response.says(BAD_REQUEST, "Unable to parse config as JSON or YAML"@)
                    &&& after == before
                },
                (Some(config), Err(response)) => {
                    &&& !config@.names_unique()
                    &&& response.says(
                        BAD_REQUEST,
                        "Unable to apply new config: "@ + BackendError::NonUniqueNames.message(),
                    )
                    &&& after == before
                },
                (Some(config), Ok(steps)) => {
                    &&& config@.names_unique()
                    &&& after == crate::backend::ManagerModel::in_force(config@)
                    &&& crate::backend::steps_view(steps@) == before.steps_to(config@)
                },
                (None, Ok(_)) => false,
            }
        }),
        old(manager)@.wf() ==> final(manager)@.wf(),
{
    match parsed {
        None => Err(ApiResponse::new(BAD_REQUEST, "Unable to parse config as JSON or YAML")),
        Some(config) => match manager.set_config(config) {
            Ok(steps) => Ok(steps),
            Err(e) => Err(
                ApiResponse {
                    status: BAD_REQUEST,
                    body: text::join("Unable to apply new config: ", e.to_text().as_str()),
                },
            ),
        },
    }
}

/// Answers once the new config has been persisted, or once that failed.
pub fn config_persisted(persisted: Result<(), BackendError>) -> (response: ApiResponse)
    ensures
        match persisted {
            Ok(()) => response.says(OK, OK_BODY@),
            Err(e) => response.says(
                INTERNAL_SERVER_ERROR,
                "Unable to persist new config: "@ + e.message(),
            ),
        },
{
    match persisted {
        Ok(()) => ApiResponse::new(OK, OK_BODY),
        Err(e) => ApiResponse {
            status: INTERNAL_SERVER_ERROR,
            body: text::join("Unable to persist new config: ", e.to_text().as_str()),
        },
    }
}

/// What the API serves.
#[derive(Clone, Copy, Debug, PartialEq, Eq, Structural)]
pub enum Endpoint {
    Health,
    Log,
    Backend,
    ConfigReload,
    ConfigGet,
    ConfigPut,
    Waf,
    /// The attestation report of a machine with SEV-SNP.
    SevSnp,
}

/// How an endpoint is asked for.
#[derive(Clone, Copy, Debug, PartialEq, Eq, Structural)]
pub enum ApiMethod {
    Get,
    Put,
    Post,
    /// The endpoint is a router of its own.
    Nested,
}

/// A limit on the requests of all clients together: how many there may be per second, and how many
/// at once.
#[derive(Clone, Copy, Debug, PartialEq, Eq, Structural)]
pub struct RateLimit {
    pub per_second: u32,
    pub burst: u32,
}

/// What a request over the limit is answered.
pub const TOO_MANY_REQUESTS_BODY: &'static str = "Too many requests, try again later";

/// A route of the API. If it is protected, requests need the token.
#[derive(Clone, Copy, Debug, PartialEq, Eq)]
pub struct ApiRoute {
    pub path: &'static str,
    pub method: ApiMethod,
    pub endpoint: Endpoint,
    pub protected: bool,
    pub limit: Option<RateLimit>,
}

/// A route of the API.
pub struct RouteModel {
    pub path: Seq<char>,
    pub method: ApiMethod,
    pub endpoint: Endpoint,
    pub protected: bool,
    pub limit: Option<RateLimit>,
}

impl View for ApiRoute {
    type V = RouteModel;

    open spec fn view(&self) -> RouteModel {
        RouteModel {
            path: self.path@,
            method: self.method,
            endpoint: self.endpoint,
            protected: self.protected,
            limit: self.limit,
        }
    }
}

/// A route on which requests need the token.
pub open spec fn protected_route(
    path: Seq<char>,
    method: ApiMethod,
    endpoint: Endpoint,
) -> RouteModel {
    RouteModel { path, method, endpoint, protected: true, limit: None }
}

/// The routes of the API. Those of a firewall and of an attestation report are served if there is
/// one. The report is open to everyone, within a limit.
pub open spec fn api_routes(waf: bool, sev_snp: bool) -> Seq<RouteModel> {
    let always = seq![
        RouteModel {
            path: "/health"@,
            method: ApiMethod::Get,
            endpoint: Endpoint::Health,
            protected: false,
            limit: None,
        },
        protected_route("/log/{log_level}"@, ApiMethod::Get, Endpoint::Log),
        protected_route("/backend/{backend}/{action}"@, ApiMethod::Get, Endpoint::Backend),
        protected_route("/config/reload"@, ApiMethod::Get, Endpoint::ConfigReload),
        protected_route("/config/get"@, ApiMethod::Get, Endpoint::ConfigGet),
        protected_route("/config/put"@, ApiMethod::Put, Endpoint::ConfigPut),
    ];
    let nested = if waf {
        seq![protected_route("/waf"@, ApiMethod::Nested, Endpoint::Waf)]
    } else {
        Seq::empty()
    };
    let attested = if sev_snp {
        seq![
            RouteModel {
                path: "/sev-snp/report"@,
                method: ApiMethod::Post,
                endpoint: Endpoint::SevSnp,
                protected: false,
                limit: Some(RateLimit { per_second: 50, burst: 100 }),
            },
        ]
    } else {
        Seq::empty()
    };
    always + nested + attested
}

/// What the router of the API is set up with.
#[derive(Debug)]
pub struct ApiRouter {
    pub state: ApiState,
    pub routes: Vec<ApiRoute>,
}

/// There is no token for the API.
#[derive(Clone, Copy, Debug, PartialEq, Eq)]
pub struct NoApiToken;

impl NoApiToken {
    pub fn to_text(&self) -> (text: &'static str)
        ensures
            text@ == "API token not specified"@,
    {
        "API token not specified"
    }
}

fn guarded(path: &'static str, method: ApiMethod, endpoint: Endpoint) -> (route: ApiRoute)
    ensures
        route@ == protected_route(path@, method, endpoint),
{
    ApiRoute { path, method, endpoint, protected: true, limit: None }
}

/// Sets up the router of the API, which needs a token. The routes of a firewall and of an
/// attestation report are served too, if there is one.
pub fn setup_api_axum_router(api_token: Option<&str>, waf: bool, sev_snp: bool) -> (router: Result<
    ApiRouter,
    NoApiToken,
>)
    ensures
        match (api_token, router) {
            (Some(token), Ok(router)) => {
                &&& router.state.token@ == token@
                &&& router.routes@.map_values(|route: ApiRoute| route@) == api_routes(
                    waf,
                    sev_snp,
                )
            },
            (None, Err(_)) => true,
            _ => false,
        },
{
    let token: &str = match api_token {
        Some(token) => token,
        None => {
            return Err(NoApiToken);
        },
    };
    let mut routes: Vec<ApiRoute> =
        vec![
        ApiRoute {
            path: "/health",
            method: ApiMethod::Get,
            endpoint: Endpoint::Health,
            protected: false,
            limit: None,
        },
        guarded("/log/{log_level}", ApiMethod::Get, Endpoint::Log),
        guarded("/backend/{backend}/{action}", ApiMethod::Get, Endpoint::Backend),
        guarded("/config/reload", ApiMethod::Get, Endpoint::ConfigReload),
        guarded("/config/get", ApiMethod::Get, Endpoint::ConfigGet),
        guarded("/config/put", ApiMethod::Put, Endpoint::ConfigPut),
    ];
    if waf {
        routes.push(guarded("/waf", ApiMethod::Nested, Endpoint::Waf));
    }
    if sev_snp {
        routes.push(
            ApiRoute {
                path: "/sev-snp/report",
                method: ApiMethod::Post,
                endpoint: Endpoint::SevSnp,
                protected: false,
                limit: Some(RateLimit { per_second: 50, burst: 100 }),
            },
        );
    }
    assert(routes@.map_values(|route: ApiRoute| route@) =~= api_routes(waf, sev_snp));
    Ok(ApiRouter { state: ApiState { token: token.to_owned() }, routes })
}

/// Requests need the token on every route but those of the health and of the attestation report,
/// and the report is the one route with a limit.
pub proof fn only_health_and_report_are_open(waf: bool, sev_snp: bool)
    ensures
        forall|i: int|
            0 <= i < api_routes(waf, sev_snp).len() ==> {
                let route = #[trigger] api_routes(waf, sev_snp)[i];
                &&& !route.protected == (route.endpoint == Endpoint::Health || route.endpoint
                    == Endpoint::SevSnp)
                &&& route.limit is Some == (route.endpoint == Endpoint::SevSnp)
                &&& route.endpoint == Endpoint::SevSnp ==> sev_snp
                &&& route.endpoint == Endpoint::Waf ==> waf
            },
{
}

/// Why a request is refused. One that carries no authorization is told so. One whose authorization
/// begins with the word for a token and goes on has the wrong token, unless it has the right one.
/// Any other has the wrong format.
pub proof fn refusals_give_the_reason(token: Seq<char>, authorization: Option<Seq<u8>>)
    ensures
        authorization is None ==> refusal(token, authorization) == Some(
            "Authorization header not found"@,
        ),
        authorization matches Some(given) ==> {
            let bearer = vstd::utf8::encode_utf8("Bearer "@);
            let right = bearer + vstd::utf8::encode_utf8(token);
            let begins = given.len() > bearer.len() && given.take(bearer.len() as int) == bearer;
            &&& begins && given == right ==> refusal(token, authorization) is None
            &&& begins && given != right ==> refusal(token, authorization) == Some(
                "Incorrect bearer token"@,
            )
            &&& !begins ==> refusal(token, authorization) == Some("Incorrect header format"@)
        },
{
    bearer_bytes();
    let bearer = vstd::utf8::encode_utf8("Bearer "@);
    let bytes = vstd::utf8::encode_utf8(token);
    assert((bearer + bytes).skip(7) =~= bytes);
    if authorization is Some {
        let given = authorization->0;
        if given.len() >= 7 {
            assert(given =~= given.take(7) + given.skip(7));
        }
    }
}

/// The load balancer is healthy exactly if one backend is.
pub proof fn one_healthy_node_is_enough(healthy_nodes: usize)
    ensures
        health_status(healthy_nodes) == 204 <==> healthy_nodes >= 1,
        health_status(healthy_nodes) == 503 <==> healthy_nodes == 0,
{
}

/// There are two actions, and each does the one thing that it is named after.
pub proof fn actions_do_what_they_say(action: Seq<char>)
    ensures
        action_state(action) == Some(true) <==> action == "enable"@,
        action_state(action) == Some(false) <==> action == "disable"@,
{
    reveal_strlit("enable");
    reveal_strlit("disable");
    assert("enable"@.len() != "disable"@.len());
}

/// A backend is enabled or disabled exactly if that is the action and one of the main backends has
/// the name. Otherwise the answer holds the action or the name that is not known, in full.
pub proof fn known_backends_are_switched(
    backends: Seq<BackendConf>,
    backend: Seq<char>,
    action: Seq<char>,
)
    ensures
        ({
            let (status, body) = backend_answer(backends, backend, action);
            let known_action = action == "enable"@ || action == "disable"@;
            let known_backend = exists|i: int|
                0 <= i < backends.len() && (#[trigger] backends[i]).name@ == backend;
            &&& status == 200 <==> known_action && known_backend
            &&& status == 200 || status == 400
            &&& status == 200 ==> body == "Ok\n"@
            &&& !known_action ==> body == "Unknown action: "@ + action
            &&& known_action && !known_backend ==> body == "Error: "@ + ("Backend not found: "@
                + backend)
        }),
{
    let names = crate::backend::backend_names(backends);
    names.index_of_first_ensures(backend);
    if crate::backend::find_backend(backends, backend) is Some {
        let i = crate::backend::find_backend(backends, backend)->0;
        assert(names[i] == backends[i].name@);
    } else {
        assert forall|i: int| 0 <= i < backends.len() implies (#[trigger] backends[i]).name@
            != backend by {
            assert(names[i] == backends[i].name@);
            assert(!names.contains(backend));
        }
    }
}

/// What a response says is its status code and its whole body.
pub proof fn responses_say_one_thing(response: ApiResponse, status: u16, body: Seq<char>)
    ensures
        response.says(status, body) <==> response.status == status && response.body@ == body,
{
}

/// Every endpoint is served once, under its path and for its method. The firewall and the
/// attestation report are served exactly if they are asked for, and all others always.
pub proof fn endpoints_are_served_once(waf: bool, sev_snp: bool)
    ensures
        ({
            let routes = api_routes(waf, sev_snp);
            &&& routes.len() == 6 + (if waf {
                1int
            } else {
                0int
            }) + (if sev_snp {
                1int
            } else {
                0int
            })
            &&& waf <==> exists|i: int|
                0 <= i < routes.len() && (#[trigger] routes[i]).endpoint == Endpoint::Waf
            &&& sev_snp <==> exists|i: int|
                0 <= i < routes.len() && (#[trigger] routes[i]).endpoint == Endpoint::SevSnp
            &&& forall|i: int, j: int|
                0 <= i < j < routes.len() ==> (#[trigger] routes[i]).endpoint != (
                #[trigger] routes[j]).endpoint
            &&& forall|i: int|
                0 <= i < routes.len() ==> ((#[trigger] routes[i]).path, routes[i].method) == (
                match routes[i].endpoint {
                    Endpoint::Health => ("/health"@, ApiMethod::Get),
                    Endpoint::Log => ("/log/{log_level}"@, ApiMethod::Get),
                    Endpoint::Backend => ("/backend/{backend}/{action}"@, ApiMethod::Get),
                    Endpoint::ConfigReload => ("/config/reload"@, ApiMethod::Get),
                    Endpoint::ConfigGet => ("/config/get"@, ApiMethod::Get),
                    Endpoint::ConfigPut => ("/config/put"@, ApiMethod::Put),
                    Endpoint::Waf => ("/waf"@, ApiMethod::Nested),
                    Endpoint::SevSnp => ("/sev-snp/report"@, ApiMethod::Post),
                })
            &&& forall|i: int|
                0 <= i < routes.len() ==> (#[trigger] routes[i]).protected == (routes[i].path
                    != "/health"@ && routes[i].path != "/sev-snp/report"@)
        }),
{
    let routes = api_routes(waf, sev_snp);
    if waf {
        assert(routes[6].endpoint == Endpoint::Waf);
    }
    if sev_snp {
        assert(routes[routes.len() - 1].endpoint == Endpoint::SevSnp);
    }
    reveal_strlit("/health");
    reveal_strlit("/log/{log_level}");
    reveal_strlit("/backend/{backend}/{action}");
    reveal_strlit("/config/reload");
    reveal_strlit("/config/get");
    reveal_strlit("/config/put");
    reveal_strlit("/waf");
    reveal_strlit("/sev-snp/report");
    assert("/health"@.len() == 7);
    assert("/log/{log_level}"@.len() == 16);
    assert("/backend/{backend}/{action}"@.len() == 27);
    assert("/config/reload"@.len() == 14);
    assert("/config/get"@.len() == 11);
    assert("/config/put"@.len() == 11);
    assert("/waf"@.len() == 4);
    assert("/sev-snp/report"@.len() == 15);
}

/// What is told of a route is all there is to it.
pub proof fn routes_are_told_apart(one: ApiRoute, other: ApiRoute)
    ensures
        one@ == other@ <==> {
            &&& one.path@ == other.path@
            &&& one.method == other.method
            &&& one.endpoint == other.endpoint
            &&& one.protected == other.protected
            &&& one.limit == other.limit
        },
{
}

} // verus!
