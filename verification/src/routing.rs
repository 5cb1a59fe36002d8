//! Handling of requests: buffering, retries, errors and the choice between the API and the
//! backends.

use vstd::prelude::*;

use crate::backend::RequestContext;
use crate::cli::Cli;
use crate::headers;
use crate::headers::HeaderError;
use crate::middleware::metrics::MetricsState;
use crate::text;
use crate::time::TimeSpan;

verus! {

pub const BAD_REQUEST: u16 = 400;

pub const REQUEST_TIMEOUT: u16 = 408;

pub const BAD_GATEWAY: u16 = 502;

pub const SERVICE_UNAVAILABLE: u16 = 503;

pub const GATEWAY_TIMEOUT: u16 = 504;

/// Why a request got no response from a backend.
#[derive(Debug, PartialEq, Eq)]
pub enum ErrorCause {
    BackendRequestError(String),
    BackendBodyError(String),
    BackendTimeout,
    NoAuthority,
    ServiceNotReady,
    NoHealthyBackends,
    RequestBodyBufferTimeout,
}

/// The response to a request that failed.
#[derive(Debug, PartialEq, Eq)]
pub struct ErrorResponse {
    pub status: u16,
    pub body: String,
    pub cause: ErrorCause,
}

impl Clone for ErrorCause {
    fn clone(&self) -> (copy: Self)
        ensures
            copy == *self,
    {
        match self {
            ErrorCause::BackendRequestError(e) => ErrorCause::BackendRequestError(e.clone()),
            ErrorCause::BackendBodyError(e) => ErrorCause::BackendBodyError(e.clone()),
            ErrorCause::BackendTimeout => ErrorCause::BackendTimeout,
            ErrorCause::NoAuthority => ErrorCause::NoAuthority,
            ErrorCause::ServiceNotReady => ErrorCause::ServiceNotReady,
            ErrorCause::NoHealthyBackends => ErrorCause::NoHealthyBackends,
            ErrorCause::RequestBodyBufferTimeout => ErrorCause::RequestBodyBufferTimeout,
        }
    }
}

impl ErrorCause {
    /// The message for the client.
    pub open spec fn message(self) -> Seq<char> {
        match self {
            ErrorCause::BackendRequestError(e) => "Backend request error: "@ + e@,
            ErrorCause::BackendBodyError(e) => "Backend body error: "@ + e@,
            ErrorCause::BackendTimeout => "Backend timeout"@,
            ErrorCause::NoAuthority => "No authority"@,
            ErrorCause::ServiceNotReady => "Service not ready"@,
            ErrorCause::NoHealthyBackends => "No healthy backends available"@,
            ErrorCause::RequestBodyBufferTimeout => "Timed out buffering the request body"@,
        }
    }

    /// The status code for the client.
    pub open spec fn status_code(self) -> u16 {
        match self {
            ErrorCause::BackendRequestError(_) => BAD_GATEWAY,
            ErrorCause::BackendBodyError(_) => BAD_GATEWAY,
            ErrorCause::BackendTimeout => GATEWAY_TIMEOUT,
            ErrorCause::NoAuthority => BAD_REQUEST,
            ErrorCause::ServiceNotReady => SERVICE_UNAVAILABLE,
            ErrorCause::NoHealthyBackends => SERVICE_UNAVAILABLE,
            ErrorCause::RequestBodyBufferTimeout => REQUEST_TIMEOUT,
        }
    }

    /// The name that stands for the cause in logs.
    pub open spec fn short_name(self) -> Seq<char> {
        match self {
            ErrorCause::BackendRequestError(_) => "backend_request_error"@,
            ErrorCause::BackendBodyError(_) => "backend_body_error"@,
            ErrorCause::BackendTimeout => "backend_timeout"@,
            ErrorCause::NoAuthority => "no_authority"@,
            ErrorCause::ServiceNotReady => "service_not_ready"@,
            ErrorCause::NoHealthyBackends => "no_healthy_backends"@,
            ErrorCause::RequestBodyBufferTimeout => "request_body_buffer_timeout"@,
        }
    }

    /// The message for the client.
    pub fn to_text(&self) -> (text: String)
        ensures
            text@ == self.message(),
    {
        match self {
            ErrorCause::BackendRequestError(e) => text::join(
                "Backend request error: ",
                e.as_str(),
            ),
            ErrorCause::BackendBodyError(e) => text::join("Backend body error: ", e.as_str()),
            ErrorCause::BackendTimeout => "Backend timeout".to_owned(),
            ErrorCause::NoAuthority => "No authority".to_owned(),
            ErrorCause::ServiceNotReady => "Service not ready".to_owned(),
            ErrorCause::NoHealthyBackends => "No healthy backends available".to_owned(),
            ErrorCause::RequestBodyBufferTimeout => "Timed out buffering the request body".to_owned(),
        }
    }

    /// The name that stands for the cause in logs.
    pub fn name(&self) -> (name: &'static str)
        ensures
            name@ == self.short_name(),
    {
        match self {
            ErrorCause::BackendRequestError(_) => "backend_request_error",
            ErrorCause::BackendBodyError(_) => "backend_body_error",
            ErrorCause::BackendTimeout => "backend_timeout",
            ErrorCause::NoAuthority => "no_authority",
            ErrorCause::ServiceNotReady => "service_not_ready",
            ErrorCause::NoHealthyBackends => "no_healthy_backends",
            ErrorCause::RequestBodyBufferTimeout => "request_body_buffer_timeout",
        }
    }

    /// The status code for the client.
    pub fn status(&self) -> (status: u16)
        ensures
            status == self.status_code(),
    {
        match self {
            ErrorCause::BackendRequestError(_) | ErrorCause::BackendBodyError(_) => BAD_GATEWAY,
            ErrorCause::BackendTimeout => GATEWAY_TIMEOUT,
            ErrorCause::NoAuthority => BAD_REQUEST,
            ErrorCause::ServiceNotReady | ErrorCause::NoHealthyBackends => SERVICE_UNAVAILABLE,
            ErrorCause::RequestBodyBufferTimeout => REQUEST_TIMEOUT,
        }
    }

    /// The response for the client, with the cause attached.
    pub fn into_response(self) -> (response: ErrorResponse)
        ensures
            response.status == self.status_code(),
            response.body@ == self.message(),
            response.cause == self,
    {
        ErrorResponse { status: self.status(), body: self.to_text(), cause: self }
    }
}

/// How many attempts at a request failed before one succeeded.
#[derive(Clone, Copy, Debug, PartialEq, Eq, Structural)]
pub struct Retries(pub u8);

/// The settings by which requests are handled.
#[derive(Clone, Copy, Debug)]
pub struct HandlerState {
    pub request_body_buffer: bool,
    pub request_body_size_limit: usize,
    pub request_body_timeout: TimeSpan,
    pub response_body_buffer: bool,
    pub response_body_size_limit: usize,
    pub response_body_timeout: TimeSpan,
    pub retry_attempts: u8,
    pub retry_interval: TimeSpan,
    pub retry_interval_no_healthy_nodes: TimeSpan,
}

/// Whether a body can be buffered: its size is known and smaller than a limit.
pub open spec fn bufferable(size: Option<u64>, limit: usize) -> bool {
    match size {
        Some(size) => size < limit,
        None => false,
    }
}

fn is_bufferable(size: Option<u64>, limit: usize) -> (yes: bool)
    ensures
        yes == bufferable(size, limit),
{
    match size {
        Some(size) => size < limit as u64,
        None => false,
    }
}

impl HandlerState {
    /// A request is buffered if it can be and if it may have to be sent again, or if it was asked
    /// for.
    pub open spec fn buffers_request(self, size: Option<u64>) -> bool {
        bufferable(size, self.request_body_size_limit) && (self.retry_attempts > 1
            || self.request_body_buffer)
    }

    /// A response is buffered if it can be and if it was asked for.
    pub open spec fn buffers_response(self, size: Option<u64>) -> bool {
        self.response_body_buffer && bufferable(size, self.response_body_size_limit)
    }
}

/// Why a router could not execute a request.
#[derive(Debug, PartialEq, Eq)]
pub enum RouterError {
    NoHealthyNodes,
    Inner(String),
}

/// Why the body of a response could not be buffered.
#[derive(Debug, PartialEq, Eq)]
pub enum BodyError {
    TimedOut,
    Failed(String),
}

/// What happens in the course of a request.
#[derive(Debug)]
pub enum Event {
    /// The request body is buffered.
    RequestBuffered,
    /// The request body could not be buffered.
    RequestBufferFailed,
    /// The router executed the request. The body of the response has this size, if it is known.
    Executed(Option<u64>),
    /// The router could not execute the request.
    ExecuteFailed(RouterError),
    /// The time to sleep is over.
    Slept,
    /// The response body is buffered.
    ResponseBuffered,
    /// The response body could not be buffered.
    ResponseBufferFailed(BodyError),
}

/// What to do next with a request.
#[derive(Debug)]
pub enum Action {
    /// Buffer the request body, up to a size and within a time.
    BufferRequest(usize, TimeSpan),
    /// Execute the request.
    Execute,
    /// Sleep.
    Sleep(TimeSpan),
    /// Buffer the response body, up to a size and within a time.
    BufferResponse(usize, TimeSpan),
    /// Return the response.
    Respond,
    /// Return an error response.
    Fail(ErrorCause),
}

/// How far the handling of a request has come.
#[derive(Debug)]
pub enum Phase {
    /// The request, which is not buffered, is being executed.
    Forwarding,
    /// The request body is being buffered.
    BufferingRequest,
    /// The buffered request is being executed. This many attempts are left, this one counted in,
    /// and after a failure of a backend this is the time to sleep.
    Attempting(u8, TimeSpan),
    /// An attempt failed, for this cause, and the sleep after it is not over. This many attempts
    /// are left, the failed one counted in, and this is the time to sleep after a failure of a
    /// backend.
    Waiting(u8, TimeSpan, ErrorCause),
    /// The response body is being buffered.
    BufferingResponse,
    /// The request has been handled.
    Finished,
}

/// The cause that a router's error is reported as.
pub open spec fn cause_of(error: RouterError) -> ErrorCause {
    match error {
        RouterError::NoHealthyNodes => ErrorCause::NoHealthyBackends,
        RouterError::Inner(e) => ErrorCause::BackendRequestError(e),
    }
}

/// The cause that a failure to buffer a response is reported as.
pub open spec fn body_cause_of(error: BodyError) -> ErrorCause {
    match error {
        BodyError::TimedOut => ErrorCause::BackendTimeout,
        BodyError::Failed(e) => ErrorCause::BackendBodyError(e),
    }
}

/// What follows once a response is there.
pub open spec fn on_response(state: HandlerState, size: Option<u64>) -> (Phase, Action) {
    if state.buffers_response(size) {
        (
            Phase::BufferingResponse,
            Action::BufferResponse(state.response_body_size_limit, state.response_body_timeout),
        )
    } else {
        (Phase::Finished, Action::Respond)
    }
}

/// Whether an event can occur in a phase. When a sleep is over, an attempt must be left to take
/// off, and after a failure of a backend the time to sleep is doubled, which must be possible.
pub open spec fn can_occur(phase: Phase, event: Event) -> bool {
    match (phase, event) {
        (Phase::Forwarding, Event::Executed(_)) => true,
        (Phase::Forwarding, Event::ExecuteFailed(_)) => true,
        (Phase::BufferingRequest, Event::RequestBuffered) => true,
        (Phase::BufferingRequest, Event::RequestBufferFailed) => true,
        (Phase::Attempting(_, _), Event::Executed(_)) => true,
        (Phase::Attempting(_, _), Event::ExecuteFailed(_)) => true,
        (Phase::Waiting(left, delay, cause), Event::Slept) => {
            &&& left > 0
            &&& cause is BackendRequestError ==> 2 * delay@ <= crate::time::max_span()
        },
        (Phase::BufferingResponse, Event::ResponseBuffered) => true,
        (Phase::BufferingResponse, Event::ResponseBufferFailed(_)) => true,
        _ => false,
    }
}

/// What an event leads to: the next phase and the action to take.
pub open spec fn leads_to(
    state: HandlerState,
    phase: Phase,
    event: Event,
    next: Phase,
    action: Action,
) -> bool {
    match (phase, event) {
        // A request that is not buffered is executed once.
        (Phase::Forwarding, Event::ExecuteFailed(e)) => {
            next == Phase::Finished && action == Action::Fail(cause_of(e))
        },
        (Phase::BufferingRequest, Event::RequestBuffered) => {
            &&& next == Phase::Attempting(state.retry_attempts, state.retry_interval)
            &&& action == Action::Execute
        },
        (Phase::BufferingRequest, Event::RequestBufferFailed) => {
            &&& next == Phase::Finished
            &&& action == Action::Fail(ErrorCause::RequestBodyBufferTimeout)
        },
        // Every failed attempt is followed by a sleep.
        (Phase::Attempting(left, delay), Event::ExecuteFailed(e)) => {
            &&& next == Phase::Waiting(left, delay, cause_of(e))
            &&& action == Action::Sleep(
                match e {
                    RouterError::NoHealthyNodes => state.retry_interval_no_healthy_nodes,
                    RouterError::Inner(_) => delay,
                },
            )
        },
        // After the last attempt its cause is reported, else there is another attempt.
        (Phase::Waiting(left, delay, cause), Event::Slept) => if left == 1 {
            next == Phase::Finished && action == Action::Fail(cause)
        } else {
            &&& action == Action::Execute
            &&& next matches Phase::Attempting(next_left, next_delay)
            &&& next_left == left - 1
            &&& if cause is BackendRequestError {
                next_delay@ == 2 * delay@
            } else {
                next_delay == delay
            }
        },
        (Phase::BufferingResponse, Event::ResponseBuffered) => {
            next == Phase::Finished && action == Action::Respond
        },
        (Phase::BufferingResponse, Event::ResponseBufferFailed(e)) => {
            next == Phase::Finished && action == Action::Fail(body_cause_of(e))
        },
        (_, Event::Executed(size)) => (next, action) == on_response(state, size),
        _ => false,
    }
}

/// What an event does to the request context: it notes which of the bodies were buffered.
pub open spec fn noted(context: RequestContext, event: Event) -> RequestContext {
    match event {
        Event::RequestBuffered => RequestContext { request_body_buffered: true, ..context },
        Event::ResponseBuffered => RequestContext { response_body_buffered: true, ..context },
        _ => context,
    }
}

/// A request in the course of being handled.
#[derive(Debug)]
pub struct Exchange {
    state: HandlerState,
    phase: Phase,
    retries: Option<Retries>,
}

/// A request in the course of being handled: the settings, the phase and, once a buffered request
/// has been executed, the number of attempts that failed before.
pub struct ExchangeModel {
    pub state: HandlerState,
    pub phase: Phase,
    pub retries: Option<Retries>,
}

impl View for Exchange {
    type V = ExchangeModel;

    closed spec fn view(&self) -> ExchangeModel {
        ExchangeModel { state: self.state, phase: self.phase, retries: self.retries }
    }
}

impl ExchangeModel {
    /// What an event does to a request that is being handled.
    pub open spec fn moves(self, event: Event, next: ExchangeModel, action: Action) -> bool {
        &&& next.state == self.state
        &&& leads_to(self.state, self.phase, event, next.phase, action)
        &&& next.retries == (match (self.phase, event) {
            (Phase::Attempting(left, _), Event::Executed(_)) => Some(
                Retries((self.state.retry_attempts - left) as u8),
            ),
            _ => self.retries,
        })
    }

    /// There are not more attempts left than there were at first.
    pub open spec fn attempts_in_bounds(self) -> bool {
        match self.phase {
            Phase::Attempting(left, _) => left <= self.state.retry_attempts,
            Phase::Waiting(left, _, _) => left <= self.state.retry_attempts,
            _ => true,
        }
    }
}

/// How a response goes on its way: buffered first, or as it is.
pub fn buffer_response(state: &HandlerState, size: Option<u64>) -> (step: (Phase, Action))
    ensures
        step == on_response(*state, size),
{
    if state.response_body_buffer && is_bufferable(size, state.response_body_size_limit) {
        (
            Phase::BufferingResponse,
            Action::BufferResponse(state.response_body_size_limit, state.response_body_timeout),
        )
    } else {
        (Phase::Finished, Action::Respond)
    }
}

/// What follows once the request body is buffered, or once that failed.
pub fn buffer_request(state: &HandlerState, buffered: bool) -> (step: (Phase, Action))
    ensures
        step == (if buffered {
            (Phase::Attempting(state.retry_attempts, state.retry_interval), Action::Execute)
        } else {
            (Phase::Finished, Action::Fail(ErrorCause::RequestBodyBufferTimeout))
        }),
{
    if buffered {
        (Phase::Attempting(state.retry_attempts, state.retry_interval), Action::Execute)
    } else {
        (Phase::Finished, Action::Fail(ErrorCause::RequestBodyBufferTimeout))
    }
}

impl Exchange {
    #[verifier::type_invariant]
    spec fn bounded(self) -> bool {
        self@.attempts_in_bounds()
    }

    /// How many attempts failed before the response came, if the request was buffered.
    pub fn retries(&self) -> (retries: Option<Retries>)
        ensures
            retries == self@.retries,
    {
        self.retries
    }

    /// Whether an event can occur.
    pub fn accepts(&self, event: &Event) -> (yes: bool)
        ensures
            yes == can_occur(self@.phase, *event),
    {
        match (&self.phase, event) {
            (Phase::Forwarding, Event::Executed(_)) => true,
            (Phase::Forwarding, Event::ExecuteFailed(_)) => true,
            (Phase::BufferingRequest, Event::RequestBuffered) => true,
            (Phase::BufferingRequest, Event::RequestBufferFailed) => true,
            (Phase::Attempting(_, _), Event::Executed(_)) => true,
            (Phase::Attempting(_, _), Event::ExecuteFailed(_)) => true,
            (Phase::Waiting(left, delay, cause), Event::Slept) => {
                let doubles: bool = match cause {
                    ErrorCause::BackendRequestError(_) => true,
                    _ => false,
                };
                *left > 0 && (!doubles || delay.can_double())
            },
            (Phase::BufferingResponse, Event::ResponseBuffered) => true,
            (Phase::BufferingResponse, Event::ResponseBufferFailed(_)) => true,
            _ => false,
        }
    }

    /// Goes on after an event.
    pub fn next(self, event: Event, context: &mut RequestContext) -> (step: (Exchange, Action))
        requires
            can_occur(self@.phase, event),
        ensures
            self@.moves(event, step.0@, step.1),
            *final(context) == noted(*old(context), event),
    {
        proof {
            use_type_invariant(&self);
        }
        let state: HandlerState = self.state;
        let retries: Option<Retries> = self.retries;
        match event {
            Event::RequestBuffered => {
                context.request_body_buffered = true;
                let (phase, action) = buffer_request(&state, true);
                (Exchange { state, phase, retries }, action)
            },
            Event::RequestBufferFailed => {
                let (phase, action) = buffer_request(&state, false);
                (Exchange { state, phase, retries }, action)
            },
            Event::Executed(size) => {
                let (phase, action) = buffer_response(&state, size);
                let retries: Option<Retries> = match self.phase {
                    Phase::Attempting(left, _) => Some(Retries(state.retry_attempts - left)),
                    _ => retries,
                };
                (Exchange { state, phase, retries }, action)
            },
            Event::ExecuteFailed(error) => {
                let no_healthy_nodes: bool = match &error {
                    RouterError::NoHealthyNodes => true,
                    RouterError::Inner(_) => false,
                };
                let cause: ErrorCause = match error {
                    RouterError::NoHealthyNodes => ErrorCause::NoHealthyBackends,
                    RouterError::Inner(e) => ErrorCause::BackendRequestError(e),
                };
                match self.phase {
                    Phase::Attempting(left, delay) => {
                        let pause: TimeSpan = if no_healthy_nodes {
                            state.retry_interval_no_healthy_nodes
                        } else {
                            delay
                        };
                        let phase: Phase = Phase::Waiting(left, delay, cause);
                        (Exchange { state, phase, retries }, Action::Sleep(pause))
                    },
                    _ => (
                        Exchange { state, phase: Phase::Finished, retries },
                        Action::Fail(cause),
                    ),
                }
            },
            Event::Slept => {
                match self.phase {
                    Phase::Waiting(left, delay, cause) => {
                        let delay: TimeSpan = match &cause {
                            ErrorCause::BackendRequestError(_) => delay.doubled(),
                            _ => delay,
                        };
                        if left == 1 {
                            (
                                Exchange { state, phase: Phase::Finished, retries },
                                Action::Fail(cause),
                            )
                        } else {
                            let phase: Phase = Phase::Attempting(left - 1, delay);
                            (Exchange { state, phase, retries }, Action::Execute)
                        }
                    },
                    phase => (Exchange { state, phase, retries }, Action::Respond),
                }
            },
            Event::ResponseBuffered => {
                context.response_body_buffered = true;
                (Exchange { state, phase: Phase::Finished, retries }, Action::Respond)
            },
            Event::ResponseBufferFailed(error) => {
                let cause: ErrorCause = match error {
                    BodyError::TimedOut => ErrorCause::BackendTimeout,
                    BodyError::Failed(e) => ErrorCause::BackendBodyError(e),
                };
                (Exchange { state, phase: Phase::Finished, retries }, Action::Fail(cause))
            },
        }
    }
}

/// What a request begins with: one without an authority, or one that comes when there is no
/// router, is refused, and any other is buffered or executed.
pub open spec fn first_step(
    state: HandlerState,
    has_authority: bool,
    router_ready: bool,
    body_size: Option<u64>,
) -> (Phase, Action) {
    if !has_authority {
        (Phase::Finished, Action::Fail(ErrorCause::NoAuthority))
    } else if !router_ready {
        (Phase::Finished, Action::Fail(ErrorCause::ServiceNotReady))
    } else if state.buffers_request(body_size) {
        (
            Phase::BufferingRequest,
            Action::BufferRequest(state.request_body_size_limit, state.request_body_timeout),
        )
    } else {
        (Phase::Forwarding, Action::Execute)
    }
}

/// Begins to handle a request. One that goes to a backend carries the authority that the client
/// asked for in a header.
pub fn handler(
    state: &HandlerState,
    authority: Option<&str>,
    router_ready: bool,
    body_size: Option<u64>,
    request_headers: &mut http::HeaderMap<http::HeaderValue>,
) -> (step: Result<(Exchange, Action), HeaderError>)
    ensures
        match step {
            Ok((exchange, action)) => {
                &&& exchange@.state == state
                &&& exchange@.retries is None
                &&& (exchange@.phase, action) == first_step(
                    *state,
                    authority is Some,
                    router_ready,
                    body_size,
                )
            },
            Err(_) => authority is Some && router_ready,
        },
        match authority {
            Some(authority) if router_ready => headers::header_is_set(
                headers::header_fields(*old(request_headers)),
                headers::X_FORWARDED_HOST@,
                authority@,
                match step {
                    Ok(_) => Ok(()),
                    Err(e) => Err(e),
                },
                headers::header_fields(*final(request_headers)),
            ),
            _ => *final(request_headers) == *old(request_headers),
        },
        authority is Some && router_ready && step is Ok ==> headers::first_value(
            headers::header_fields(*final(request_headers)),
            "x-forwarded-host"@,
        ) == Some(vstd::utf8::encode_utf8(authority->0@)),
{
    let state: HandlerState = *state;
    let host: &str = match authority {
        Some(host) => host,
        None => {
            return Ok(
                (
                    Exchange { state, phase: Phase::Finished, retries: None },
                    Action::Fail(ErrorCause::NoAuthority),
                ),
            );
        },
    };
    if !router_ready {
        return Ok(
            (
                Exchange { state, phase: Phase::Finished, retries: None },
                Action::Fail(ErrorCause::ServiceNotReady),
            ),
        );
    }
    proof {
        headers::known_names();
    }
    match headers::set_header(request_headers, headers::X_FORWARDED_HOST, host) {
        Ok(()) => {},
        Err(e) => {
            return Err(e);
        },
    }
    let request_body_bufferable: bool = is_bufferable(body_size, state.request_body_size_limit);
    if request_body_bufferable && (state.retry_attempts > 1 || state.request_body_buffer) {
        Ok(
            (
                Exchange { state, phase: Phase::BufferingRequest, retries: None },
                Action::BufferRequest(state.request_body_size_limit, state.request_body_timeout),
            ),
        )
    } else {
        Ok((Exchange { state, phase: Phase::Forwarding, retries: None }, Action::Execute))
    }
}

/// What every request passes, from the outside in: what is known of the request is gathered, it
/// is recorded, and the web application firewall looks at it.
#[derive(Clone, Copy, Debug, PartialEq, Eq, Structural)]
pub enum Layer {
    RequestMeta,
    Metrics,
    Waf,
}

/// What the top-level router is set up with.
#[derive(Debug)]
pub struct RouterSettings {
    pub state: HandlerState,
    pub api_enabled: bool,
    pub api_hostname: Option<String>,
    pub metrics: MetricsState,
    pub layers: Vec<Layer>,
}

impl RouterSettings {
    /// The router is the one that the settings ask for, with the API, the collector and the
    /// firewall that are there.
    pub open spec fn follows(
        self,
        cli: Cli,
        router_api: bool,
        vector: bool,
        waf_layer: bool,
        retry_interval_no_healthy_nodes: TimeSpan,
    ) -> bool {
        &&& self.state.follows(cli, retry_interval_no_healthy_nodes)
        &&& self.api_enabled == router_api
        &&& self.api_hostname == cli.api.api_hostname
        &&& self.metrics.vector == vector
        &&& self.metrics.log_requests == cli.log.log_requests
        &&& self.metrics.log_requests_long == cli.log.log_requests_long
        &&& self.layers@ == (if waf_layer {
            seq![Layer::RequestMeta, Layer::Metrics, Layer::Waf]
        } else {
            seq![Layer::RequestMeta, Layer::Metrics]
        })
    }
}

/// What is known of requests cannot be gathered, for this cause.
#[derive(Debug, PartialEq, Eq)]
pub struct RequestMetaError(pub String);

impl RequestMetaError {
    /// The message, with its cause.
    pub fn to_text(&self) -> (text: String)
        ensures
            text@ == "unable to build RequestMeta state: "@ + self.0@,
    {
        text::join("unable to build RequestMeta state: ", self.0.as_str())
    }
}

impl HandlerState {
    /// The settings by which requests are handled. The time to wait when no backend is healthy,
    /// which is a fraction of the interval between health checks, is given apart.
    pub fn new(cli: &Cli, retry_interval_no_healthy_nodes: TimeSpan) -> (state: HandlerState)
        ensures
            state.follows(*cli, retry_interval_no_healthy_nodes),
    {
        HandlerState {
            request_body_buffer: cli.network.network_request_body_buffer,
            request_body_size_limit: cli.limits.limits_request_body_size,
            request_body_timeout: cli.limits.limits_request_body_timeout,
            response_body_buffer: cli.network.network_response_body_buffer,
            response_body_size_limit: cli.limits.limits_response_body_size,
            response_body_timeout: cli.limits.limits_response_body_timeout,
            retry_attempts: cli.retry.retry_attempts,
            retry_interval: cli.retry.retry_interval,
            retry_interval_no_healthy_nodes,
        }
    }

    /// The state is the one that the settings ask for.
    pub open spec fn follows(self, cli: Cli, retry_interval_no_healthy_nodes: TimeSpan) -> bool {
        &&& self.request_body_buffer == cli.network.network_request_body_buffer
        &&& self.request_body_size_limit == cli.limits.limits_request_body_size
        &&& self.request_body_timeout == cli.limits.limits_request_body_timeout
        &&& self.response_body_buffer == cli.network.network_response_body_buffer
        &&& self.response_body_size_limit == cli.limits.limits_response_body_size
        &&& self.response_body_timeout == cli.limits.limits_response_body_timeout
        &&& self.retry_attempts == cli.retry.retry_attempts
        &&& self.retry_interval == cli.retry.retry_interval
        &&& self.retry_interval_no_healthy_nodes == retry_interval_no_healthy_nodes
    }
}

/// Sets up the top-level router. Whether there is a router for the API, a collector of events and
/// a firewall is given, and so are the time to wait when no backend is healthy and whether what is
/// known of requests can be gathered.
pub fn setup_axum_router(
    cli: &Cli,
    router_api: bool,
    vector: bool,
    waf_layer: bool,
    retry_interval_no_healthy_nodes: TimeSpan,
    request_meta: Result<(), String>,
) -> (settings: Result<RouterSettings, RequestMetaError>)
    ensures
        match (request_meta, settings) {
            (Err(cause), Err(e)) => e == RequestMetaError(cause),
            (Ok(()), Ok(settings)) => {
                &&& settings.follows(
                    *cli,
                    router_api,
                    vector,
                    waf_layer,
                    retry_interval_no_healthy_nodes,
                )
                &&& settings.state.follows(*cli, retry_interval_no_healthy_nodes)
                &&& settings.api_enabled == router_api
                &&& settings.api_hostname == cli.api.api_hostname
                &&& settings.metrics == (MetricsState {
                    vector,
                    log_requests: cli.log.log_requests,
                    log_requests_long: cli.log.log_requests_long,
                })
                &&& settings.layers@ == (if waf_layer {
                    seq![Layer::RequestMeta, Layer::Metrics, Layer::Waf]
                } else {
                    seq![Layer::RequestMeta, Layer::Metrics]
                })
            },
            _ => false,
        },
{
    match request_meta {
        Ok(()) => {},
        Err(cause) => {
            return Err(RequestMetaError(cause));
        },
    }
    let mut layers: Vec<Layer> = vec![Layer::RequestMeta, Layer::Metrics];
    if waf_layer {
        layers.push(Layer::Waf);
    }
    assert(layers@ =~= (if waf_layer {
        seq![Layer::RequestMeta, Layer::Metrics, Layer::Waf]
    } else {
        seq![Layer::RequestMeta, Layer::Metrics]
    }));
    Ok(
        RouterSettings {
            state: HandlerState::new(cli, retry_interval_no_healthy_nodes),
            api_enabled: router_api,
            api_hostname: match &cli.api.api_hostname {
                Some(hostname) => Some(hostname.clone()),
                None => None,
            },
            metrics: MetricsState::new(vector, cli.log.log_requests, cli.log.log_requests_long),
            layers,
        },
    )
}

/// Where a request goes.
#[derive(Clone, Copy, Debug, PartialEq, Eq, Structural)]
pub enum Route {
    /// It is refused, since it names no authority.
    NoAuthority,
    /// To the API.
    Api,
    /// To the backends.
    Backends,
}

impl RouterSettings {
    /// The API answers on a hostname, if it is enabled and has one.
    pub open spec fn serves_api_on(self, host: Seq<char>) -> bool {
        &&& self.api_enabled
        &&& self.api_hostname is Some
        &&& self.api_hostname->0@ == host
    }

    /// Where a request goes, given whether it names an authority and which host that authority
    /// names, if it does.
    pub open spec fn destination(self, has_authority: bool, host: Option<Seq<char>>) -> Route {
        if !has_authority {
            Route::NoAuthority
        } else if host is Some && self.serves_api_on(host->0) {
            Route::Api
        } else {
            Route::Backends
        }
    }

    /// Where a request goes, given whether it names an authority and which host that authority
    /// names, if it does.
    pub fn route(&self, has_authority: bool, host: Option<&str>) -> (route: Route)
        ensures
            route == (if !has_authority {
                Route::NoAuthority
            } else if host is Some && self.serves_api_on(host->0@) {
                Route::Api
            } else {
                Route::Backends
            }),
            route == self.destination(
                has_authority,
                match host {
                    Some(host) => Some(host@),
                    None => None,
                },
            ),
            route == Route::Api ==> has_authority && self.api_enabled && self.api_hostname is Some
                && host is Some && host->0@ == self.api_hostname->0@,
    {
        if !has_authority {
            return Route::NoAuthority;
        }
        if self.api_enabled {
            match (&self.api_hostname, host) {
                (Some(hostname), Some(host)) => {
                    if text::same_text(hostname.as_str(), host) {
                        return Route::Api;
                    }
                },
                _ => {},
            }
        }
        Route::Backends
    }
}

/// A request goes to the API exactly if it names an authority whose host is the hostname of an
/// enabled API. It is refused exactly if it names no authority. Any other goes to the backends.
pub proof fn requests_go_by_their_host(
    settings: RouterSettings,
    has_authority: bool,
    host: Option<Seq<char>>,
)
    ensures
        ({
            let route = settings.destination(has_authority, host);
            &&& route == Route::NoAuthority <==> !has_authority
            &&& route == Route::Api <==> {
                &&& has_authority
                &&& settings.api_enabled
                &&& settings.api_hostname is Some
                &&& host is Some
                &&& host->0 == settings.api_hostname->0@
            }
        }),
{
}

/// The client is to blame, in the status code, for a request without an authority or with a body
/// that does not come, and for nothing else. What the router could not do is a bad gateway or an
/// unavailable service, and a response that does not come in time a timeout of the gateway.
pub proof fn statuses_tell_whose_fault_it_is(cause: ErrorCause)
    ensures
        cause.status_code() / 100 == 4 <==> cause is NoAuthority
            || cause is RequestBodyBufferTimeout,
        cause.status_code() / 100 == 5 <==> !(cause is NoAuthority
            || cause is RequestBodyBufferTimeout),
        cause.status_code() == 400 <==> cause is NoAuthority,
        cause.status_code() == 408 <==> cause is RequestBodyBufferTimeout,
        cause.status_code() == 502 <==> cause is BackendRequestError || cause is BackendBodyError,
        cause.status_code() == 503 <==> cause is ServiceNotReady || cause is NoHealthyBackends,
        cause.status_code() == 504 <==> cause is BackendTimeout,
{
}

/// The message of a cause that comes with an error ends with that error in full, after the same
/// words whatever the error is. The name does not depend on the error.
pub proof fn messages_hold_the_error(one: String, other: String)
    ensures
        ErrorCause::BackendRequestError(one).message() == "Backend request error: "@ + one@,
        ErrorCause::BackendBodyError(one).message() == "Backend body error: "@ + one@,
        ErrorCause::BackendRequestError(one).message() == ErrorCause::BackendRequestError(
            other,
        ).message() ==> one@ == other@,
        ErrorCause::BackendBodyError(one).message() == ErrorCause::BackendBodyError(
            other,
        ).message() ==> one@ == other@,
        ErrorCause::BackendRequestError(one).short_name() == "backend_request_error"@,
        ErrorCause::BackendBodyError(one).short_name() == "backend_body_error"@,
{
    let request = "Backend request error: "@;
    let body = "Backend body error: "@;
    assert((request + one@).skip(request.len() as int) =~= one@);
    assert((request + other@).skip(request.len() as int) =~= other@);
    assert((body + one@).skip(body.len() as int) =~= one@);
    assert((body + other@).skip(body.len() as int) =~= other@);
}

/// A router answers for the API on the hostname of the settings and on no other, if there is an
/// API. It logs and reports requests as the settings say. Every request is gathered first, is
/// recorded after that, and passes the firewall last, exactly if there is one.
pub proof fn routers_follow_the_settings(
    settings: RouterSettings,
    cli: Cli,
    router_api: bool,
    vector: bool,
    waf_layer: bool,
    retry_interval_no_healthy_nodes: TimeSpan,
    host: Seq<char>,
    duration: nat,
)
    requires
        settings.follows(cli, router_api, vector, waf_layer, retry_interval_no_healthy_nodes),
    ensures
        settings.destination(true, Some(host)) == Route::Api <==> router_api
            && cli.api.api_hostname is Some && cli.api.api_hostname->0@ == host,
        settings.metrics.vector <==> vector,
        settings.metrics.level_for(duration) is Some <==> cli.log.log_requests || (
        cli.log.log_requests_long is Some && duration > cli.log.log_requests_long->0@),
        settings.layers@.len() == (if waf_layer {
            3int
        } else {
            2int
        }),
        settings.layers@[0] == Layer::RequestMeta,
        settings.layers@[1] == Layer::Metrics,
        settings.layers@.contains(Layer::Waf) <==> waf_layer,
        waf_layer ==> settings.layers@[2] == Layer::Waf,
{
    if waf_layer {
        assert(settings.layers@[2] == Layer::Waf);
    }
}

} // verus!
