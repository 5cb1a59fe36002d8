use std::time::Duration;

use axum::body::{Body, HttpBody};
use bytes::Bytes;
use http::{HeaderMap, HeaderName, HeaderValue};
use http_body_util::{BodyExt, Limited};
use ic_http_lb::backend::{BackendManager, RequestContext};
use ic_http_lb::cli::{
    Api, Cert, Cli, Health, Limits, Listen, Log, Misc, Network, Retry,
};
use ic_http_lb::headers::HeaderError;
use ic_http_lb::middleware::metrics::MetricsState;
use ic_http_lb::routing::{
    buffer_request, buffer_response, handler, setup_axum_router, Action, BodyError, ErrorCause,
    Event, HandlerState, Layer, Phase, RequestMetaError, Retries, Route, RouterError,
};
use ic_http_lb::time::TimeSpan;
use tokio_util::io::ReaderStream;

fn new_state(response_body_buffer: bool, response_body_size_limit: usize) -> HandlerState {
    HandlerState {
        request_body_buffer: false,
        request_body_size_limit: 1024,
        request_body_timeout: TimeSpan::from_secs(1),
        response_body_buffer,
        response_body_size_limit,
        response_body_timeout: TimeSpan::from_secs(1),
        retry_attempts: 1,
        retry_interval: TimeSpan::from_millis(1),
        retry_interval_no_healthy_nodes: TimeSpan::from_millis(1),
    }
}

fn block_on<F: std::future::Future>(future: F) -> F::Output {
    tokio::runtime::Builder::new_current_thread()
        .enable_all()
        .build()
        .unwrap()
        .block_on(future)
}

/// Buffers a body, up to a size and within a time.
async fn buffer(body: Body, limit: usize, time: TimeSpan) -> Result<Bytes, BodyError> {
    let time = Duration::new(time.as_secs(), time.subsec_nanos());
    match tokio::time::timeout(time, Limited::new(body, limit).collect()).await {
        Err(_) => Err(BodyError::TimedOut),
        Ok(Err(e)) => Err(BodyError::Failed(e.to_string())),
        Ok(Ok(v)) => Ok(v.to_bytes()),
    }
}

/// How a request ended.
struct Outcome {
    error: Option<ErrorCause>,
    response: Option<Body>,
    retries: Option<Retries>,
    sleeps: Vec<TimeSpan>,
    executions: usize,
    context: RequestContext,
    headers: HeaderMap,
}

impl Outcome {
    fn status(&self) -> u16 {
        self.error
            .as_ref()
            .map_or(200, |cause| cause.clone().into_response().status)
    }
}

/// Handles a request. The answers of the backends are given in their order.
async fn run(
    state: &HandlerState,
    authority: Option<&str>,
    router_ready: bool,
    body: Body,
    answers: Vec<Result<Body, RouterError>>,
) -> Outcome {
    let mut outcome = Outcome {
        error: None,
        response: None,
        retries: None,
        sleeps: vec![],
        executions: 0,
        context: RequestContext::default(),
        headers: HeaderMap::new(),
    };
    let mut answers = answers.into_iter();
    let size = body.size_hint().exact();
    let mut body = Some(body);
    let (mut exchange, mut action) =
        handler(state, authority, router_ready, size, &mut outcome.headers).unwrap();
    loop {
        let event = match action {
            Action::BufferRequest(limit, time) => {
                match buffer(body.take().unwrap(), limit, time).await {
                    Ok(_) => Event::RequestBuffered,
                    Err(_) => Event::RequestBufferFailed,
                }
            }
            Action::Execute => {
                outcome.executions += 1;
                match answers.next().unwrap() {
                    Ok(body) => {
                        let size = body.size_hint().exact();
                        outcome.response = Some(body);
                        Event::Executed(size)
                    }
                    Err(e) => Event::ExecuteFailed(e),
                }
            }
            Action::Sleep(time) => {
                outcome.sleeps.push(time);
                Event::Slept
            }
            Action::BufferResponse(limit, time) => {
                match buffer(outcome.response.take().unwrap(), limit, time).await {
                    Ok(bytes) => {
                        outcome.response = Some(Body::from(bytes));
                        Event::ResponseBuffered
                    }
                    Err(e) => Event::ResponseBufferFailed(e),
                }
            }
            Action::Respond => break,
            Action::Fail(cause) => {
                outcome.error = Some(cause);
                break;
            }
        };
        assert!(exchange.accepts(&event));
        (exchange, action) = exchange.next(event, &mut outcome.context);
    }
    outcome.retries = exchange.retries();
    outcome
}

/// A body that reports a known, tiny exact size but never yields any data.
fn stalled_body(client: tokio::io::DuplexStream) -> Body {
    let stream = ReaderStream::new(client);
    Body::new(Limited::new(Body::from_stream(stream), 0))
}

fn inner(text: &str) -> Result<Body, RouterError> {
    Err(RouterError::Inner(text.into()))
}

#[test]
fn test_error_cause_into_response() {
    let cases: Vec<(ErrorCause, u16, &str, &str)> = vec![
        (
            ErrorCause::BackendRequestError("connection refused".into()),
            502,
            "backend_request_error",
            "Backend request error: connection refused",
        ),
        (
            ErrorCause::BackendBodyError("unexpected eof".into()),
            502,
            "backend_body_error",
            "Backend body error: unexpected eof",
        ),
        (ErrorCause::BackendTimeout, 504, "backend_timeout", "Backend timeout"),
        (ErrorCause::NoAuthority, 400, "no_authority", "No authority"),
        (ErrorCause::ServiceNotReady, 503, "service_not_ready", "Service not ready"),
        (
            ErrorCause::NoHealthyBackends,
            503,
            "no_healthy_backends",
            "No healthy backends available",
        ),
        (
            ErrorCause::RequestBodyBufferTimeout,
            408,
            "request_body_buffer_timeout",
            "Timed out buffering the request body",
        ),
    ];

    for (err, expected_status, name, text) in cases {
        let expected_name = err.name();
        let expected_text = err.to_text();
        assert_eq!(expected_name, name);
        assert_eq!(expected_text, text);

        let response = err.into_response();
        assert_eq!(response.status, expected_status);
        assert_eq!(response.cause.name(), expected_name);
        assert_eq!(response.cause.to_text(), expected_text);
        assert_eq!(response.body, expected_text);
    }
}

#[test]
fn test_buffer_response_disabled_passes_through() {
    let state = new_state(false, 1024);
    let body = Body::from(Bytes::from_static(b"hello"));

    let (phase, action) = buffer_response(&state, body.size_hint().exact());
    assert!(matches!(phase, Phase::Finished));
    assert!(matches!(action, Action::Respond));
    let body = block_on(body.collect()).unwrap().to_bytes();
    assert_eq!(&body[..], b"hello");
}

#[test]
fn test_buffer_response_buffers_small_body() {
    let state = new_state(true, 1024);
    let body = Body::from(Bytes::from_static(b"hello"));

    let outcome = block_on(run(
        &state,
        Some("example.com"),
        true,
        Body::empty(),
        vec![Ok(body)],
    ));
    assert_eq!(outcome.status(), 200);
    assert!(outcome.context.response_body_buffered);
    assert!(!outcome.context.request_body_buffered);
    let body = block_on(outcome.response.unwrap().collect()).unwrap().to_bytes();
    assert_eq!(&body[..], b"hello");
}

#[test]
fn test_buffer_response_skips_body_over_limit() {
    // Body size hint (5 bytes) exceeds the configured limit (2), so it's left untouched
    let state = new_state(true, 2);
    let body = Body::from(Bytes::from_static(b"hello"));

    let (phase, action) = buffer_response(&state, body.size_hint().exact());
    assert!(matches!(phase, Phase::Finished));
    assert!(matches!(action, Action::Respond));
    let body = block_on(body.collect()).unwrap().to_bytes();
    assert_eq!(&body[..], b"hello");
}

#[test]
fn test_buffer_request_ok() {
    let state = new_state(false, 1024);
    let body = Body::from(Bytes::from_static(b"payload"));

    let bytes = block_on(buffer(
        body,
        state.request_body_size_limit,
        state.request_body_timeout,
    ));
    let (phase, action) = buffer_request(&state, bytes.is_ok());
    assert!(matches!(phase, Phase::Attempting(1, _)));
    assert!(matches!(action, Action::Execute));
    assert_eq!(&bytes.unwrap()[..], b"payload");
}

#[test]
fn test_buffer_request_too_big() {
    let mut state = new_state(false, 1024);
    state.request_body_size_limit = 3;
    let body = Body::from(Bytes::from_static(b"payload"));

    let bytes = block_on(buffer(
        body,
        state.request_body_size_limit,
        state.request_body_timeout,
    ));
    assert!(bytes.is_err());
    let (phase, action) = buffer_request(&state, bytes.is_ok());
    assert!(matches!(phase, Phase::Finished));
    assert!(matches!(
        action,
        Action::Fail(ErrorCause::RequestBodyBufferTimeout)
    ));
}

#[test]
fn test_handler_missing_authority_returns_bad_request() {
    let state = new_state(false, 1024);

    let outcome = block_on(run(&state, None, false, Body::empty(), vec![]));
    assert_eq!(outcome.status(), 400);
    assert!(matches!(outcome.error, Some(ErrorCause::NoAuthority)));
    assert!(outcome.headers.is_empty());
}

#[test]
fn test_handler_backend_not_ready_returns_service_unavailable() {
    let state = new_state(false, 1024);
    let router = BackendManager::get_backend_router::<()>(None, 0, None);

    let outcome = block_on(run(
        &state,
        Some("example.com"),
        router.is_some(),
        Body::empty(),
        vec![],
    ));
    assert_eq!(outcome.status(), 503);
    assert!(matches!(outcome.error, Some(ErrorCause::ServiceNotReady)));
    assert!(outcome.headers.is_empty());
}

#[test]
fn test_handler_no_healthy_backends_returns_service_unavailable() {
    let state = new_state(false, 1024);
    let router = BackendManager::get_backend_router(None, 0, Some("fallback"));

    let outcome = block_on(run(
        &state,
        Some("example.com"),
        router.is_some(),
        Body::empty(),
        vec![Err(RouterError::NoHealthyNodes)],
    ));
    assert_eq!(outcome.status(), 503);
    assert!(matches!(outcome.error, Some(ErrorCause::NoHealthyBackends)));
}

#[test]
fn test_handler_backend_request_error_returns_bad_gateway() {
    let state = new_state(false, 1024);

    let outcome = block_on(run(
        &state,
        Some("example.com"),
        true,
        Body::empty(),
        vec![inner("connection closed")],
    ));
    assert_eq!(outcome.status(), 502);
    assert!(matches!(
        outcome.error,
        Some(ErrorCause::BackendRequestError(_))
    ));
}

#[test]
fn test_handler_backend_timeout_returns_gateway_timeout() {
    let mut state = new_state(true, 1024);
    state.response_body_timeout = TimeSpan::from_millis(50);

    let outcome = block_on(async {
        let (client, _server) = tokio::io::duplex(4);
        run(
            &state,
            Some("example.com"),
            true,
            Body::empty(),
            vec![Ok(stalled_body(client))],
        )
        .await
    });
    assert_eq!(outcome.status(), 504);
    assert!(matches!(outcome.error, Some(ErrorCause::BackendTimeout)));
    assert!(!outcome.context.response_body_buffered);
}

#[test]
fn test_handler_backend_body_error_returns_bad_gateway() {
    let state = new_state(true, 1024);

    // A body that reports an exact size of zero and then sends more
    let body = Body::new(Limited::new(
        Body::from_stream(ReaderStream::new(&b"hi"[..])),
        0,
    ));
    let outcome = block_on(run(
        &state,
        Some("example.com"),
        true,
        Body::empty(),
        vec![Ok(body)],
    ));
    assert_eq!(outcome.status(), 502);
    assert!(matches!(
        outcome.error,
        Some(ErrorCause::BackendBodyError(_))
    ));
}

#[test]
fn test_handler_request_body_buffer_timeout_returns_request_timeout() {
    let mut state = new_state(false, 1024);
    state.request_body_buffer = true;
    state.request_body_timeout = TimeSpan::from_millis(50);

    let outcome = block_on(async {
        let (client, _server) = tokio::io::duplex(4);
        run(&state, Some("example.com"), true, stalled_body(client), vec![]).await
    });
    assert_eq!(outcome.status(), 408);
    assert!(matches!(
        outcome.error,
        Some(ErrorCause::RequestBodyBufferTimeout)
    ));
    assert_eq!(outcome.executions, 0);
}

#[test]
fn failed_attempts_are_repeated_with_growing_delays() {
    let mut state = new_state(false, 1024);
    state.retry_attempts = 4;
    state.retry_interval = TimeSpan::from_millis(50);

    let outcome = block_on(run(
        &state,
        Some("example.com"),
        true,
        Body::from("payload"),
        vec![inner("a"), inner("b"), inner("c"), Ok(Body::from("done"))],
    ));
    assert_eq!(outcome.status(), 200);
    assert_eq!(outcome.executions, 4);
    assert_eq!(outcome.retries, Some(Retries(3)));
    assert_eq!(
        outcome.sleeps,
        vec![
            TimeSpan::from_millis(50),
            TimeSpan::from_millis(100),
            TimeSpan::from_millis(200)
        ]
    );
    assert!(outcome.context.request_body_buffered);
}

#[test]
fn the_last_error_is_the_one_reported() {
    let mut state = new_state(false, 1024);
    state.retry_attempts = 3;
    state.retry_interval_no_healthy_nodes = TimeSpan::from_millis(250);

    let outcome = block_on(run(
        &state,
        Some("example.com"),
        true,
        Body::from("payload"),
        vec![inner("a"), Err(RouterError::NoHealthyNodes), inner("c")],
    ));
    assert_eq!(outcome.executions, 3);
    assert_eq!(outcome.error, Some(ErrorCause::BackendRequestError("c".into())));
    assert_eq!(outcome.retries, None);
    // There is a sleep after the last attempt too, and no healthy backend doubles no delay
    assert_eq!(
        outcome.sleeps,
        vec![
            TimeSpan::from_millis(1),
            TimeSpan::from_millis(250),
            TimeSpan::from_millis(2)
        ]
    );
}

#[test]
fn a_single_attempt_is_not_repeated() {
    let mut state = new_state(false, 1024);
    state.request_body_buffer = true;
    let outcome = block_on(run(
        &state,
        Some("example.com"),
        true,
        Body::from("payload"),
        vec![inner("a")],
    ));
    assert_eq!(outcome.executions, 1);
    assert_eq!(outcome.status(), 502);
    assert!(outcome.context.request_body_buffered);
}

#[test]
fn requests_that_cannot_be_buffered_are_tried_once() {
    let mut state = new_state(false, 1024);
    state.retry_attempts = 5;
    state.request_body_size_limit = 6;

    let outcome = block_on(run(
        &state,
        Some("example.com"),
        true,
        Body::from("payload"),
        vec![inner("a")],
    ));
    assert_eq!(outcome.executions, 1);
    assert!(outcome.sleeps.is_empty());
    assert!(!outcome.context.request_body_buffered);

    // A size that is not known
    let outcome = block_on(run(
        &state,
        Some("example.com"),
        true,
        Body::from_stream(ReaderStream::new(&b"hi"[..])),
        vec![Err(RouterError::NoHealthyNodes)],
    ));
    assert_eq!(outcome.executions, 1);
    assert_eq!(outcome.error, Some(ErrorCause::NoHealthyBackends));
}

#[test]
fn bodies_below_the_limits_are_buffered() {
    let mut state = new_state(true, 6);
    state.retry_attempts = 2;
    state.request_body_size_limit = 8;

    let outcome = block_on(run(
        &state,
        Some("example.com"),
        true,
        Body::from("payload"),
        vec![Ok(Body::from("hello"))],
    ));
    assert!(outcome.context.request_body_buffered);
    assert!(outcome.context.response_body_buffered);
    assert_eq!(outcome.retries, Some(Retries(0)));
}

#[test]
fn bodies_of_the_limits_are_not_buffered() {
    let mut state = new_state(true, 5);
    state.retry_attempts = 2;
    state.request_body_size_limit = 7;

    let outcome = block_on(run(
        &state,
        Some("example.com"),
        true,
        Body::from("payload"),
        vec![Ok(Body::from("hello"))],
    ));
    assert!(!outcome.context.request_body_buffered);
    assert!(!outcome.context.response_body_buffered);
    assert_eq!(outcome.retries, None);
    assert_eq!(outcome.executions, 1);
}

#[test]
fn the_authority_is_forwarded() {
    let state = new_state(false, 1024);
    let mut headers = HeaderMap::new();
    headers.append("x-forwarded-host", HeaderValue::from_static("one"));
    headers.append("x-forwarded-host", HeaderValue::from_static("two"));
    headers.append("accept", HeaderValue::from_static("text/html"));

    handler(&state, Some("example.com:8080"), true, None, &mut headers).unwrap();
    let values: Vec<_> = headers.get_all("x-forwarded-host").iter().collect();
    assert_eq!(values, vec!["example.com:8080"]);
    assert_eq!(headers["accept"], "text/html");
}

#[test]
fn authorities_that_fit_no_header_are_refused() {
    let state = new_state(false, 1024);
    let mut headers = HeaderMap::new();
    assert_eq!(
        handler(&state, Some("a\nb"), true, None, &mut headers).unwrap_err(),
        HeaderError::InvalidValue
    );
    assert!(headers.is_empty());
}

#[test]
fn full_header_maps_take_no_more() {
    let state = new_state(false, 1024);
    let mut headers = HeaderMap::new();
    let mut i = 0;
    loop {
        let name = HeaderName::from_bytes(format!("x-{i}").as_bytes()).unwrap();
        if headers.try_insert(name, HeaderValue::from_static("v")).is_err() {
            break;
        }
        i += 1;
    }
    assert_eq!(
        handler(&state, Some("example.com"), true, None, &mut headers).unwrap_err(),
        HeaderError::TooManyNames
    );
    assert_eq!(headers.keys_len(), i);
}

#[test]
fn delays_that_cannot_be_doubled_end_the_waiting() {
    let mut state = new_state(false, 1024);
    state.request_body_buffer = true;
    state.retry_interval = TimeSpan::from_secs(u64::MAX);
    let mut headers = HeaderMap::new();
    let mut context = RequestContext::default();

    let (exchange, _) = handler(&state, Some("a"), true, Some(0), &mut headers).unwrap();
    assert!(!exchange.accepts(&Event::Slept));
    let (exchange, _) = exchange.next(Event::RequestBuffered, &mut context);
    let failure = Event::ExecuteFailed(RouterError::Inner("a".into()));
    assert!(exchange.accepts(&failure));
    let (exchange, action) = exchange.next(failure, &mut context);
    assert!(matches!(action, Action::Sleep(_)));
    assert!(!exchange.accepts(&Event::Slept));
    assert!(!exchange.accepts(&Event::ResponseBuffered));
}

fn settings() -> Cli {
    Cli {
        listen: Listen {
            listen_http: "127.0.0.1:8080".into(),
            listen_https: "127.0.0.1:8443".into(),
            listen_metrics: None,
            listen_insecure_serve_http_only: false,
        },
        network: Network {
            network_http_client_count: 16,
            network_http_client_insecure_bypass_tls_verification: false,
            network_request_body_buffer: true,
            network_response_body_buffer: false,
        },
        limits: Limits {
            limits_request_body_size: 10,
            limits_request_body_timeout: TimeSpan::from_secs(30),
            limits_response_body_size: 20,
            limits_response_body_timeout: TimeSpan::from_secs(60),
        },
        retry: Retry {
            retry_attempts: 2,
            retry_interval: TimeSpan::from_millis(50),
        },
        api: Api {
            api_listen: None,
            api_hostname: Some("api.example.com".into()),
            api_token: Some("token".into()),
            api_acme: false,
            api_acme_cache: None,
        },
        health: Health {
            health_check_interval: TimeSpan::from_secs(1),
            health_check_timeout: TimeSpan::from_secs(10),
        },
        custom_domains: false,
        cert: Cert {
            cert_provider_file: vec![],
            cert_provider_dir: vec![],
            cert_provider_issuer_url: vec![],
            cert_provider_issuer_poll_interval: TimeSpan::from_secs(30),
            cert_provider_poll_interval: TimeSpan::from_secs(5),
        },
        log: Log {
            log_requests: true,
            log_requests_long: Some(TimeSpan::from_secs(2)),
            log_vector_url: None,
        },
        waf_enable: false,
        sev_snp_enable: false,
        misc: Misc {
            env: "dev".into(),
            hostname: "host".into(),
            threads: None,
        },
    }
}

#[test]
fn the_router_follows_the_settings() {
    let cli = settings();
    let router = setup_axum_router(&cli, true, true, true, TimeSpan::from_millis(250), Ok(())).unwrap();
    assert!(router.state.request_body_buffer);
    assert_eq!(router.state.request_body_size_limit, 10);
    assert_eq!(router.state.request_body_timeout, TimeSpan::from_secs(30));
    assert!(!router.state.response_body_buffer);
    assert_eq!(router.state.response_body_size_limit, 20);
    assert_eq!(router.state.response_body_timeout, TimeSpan::from_secs(60));
    assert_eq!(router.state.retry_attempts, 2);
    assert_eq!(router.state.retry_interval, TimeSpan::from_millis(50));
    assert_eq!(
        router.state.retry_interval_no_healthy_nodes,
        TimeSpan::from_millis(250)
    );
    let MetricsState { vector, log_requests, log_requests_long } = router.metrics;
    assert!(vector && log_requests);
    assert_eq!(log_requests_long, Some(TimeSpan::from_secs(2)));
    assert_eq!(router.layers, vec![Layer::RequestMeta, Layer::Metrics, Layer::Waf]);

    let router = setup_axum_router(&cli, true, false, false, TimeSpan::zero(), Ok(())).unwrap();
    assert_eq!(router.layers, vec![Layer::RequestMeta, Layer::Metrics]);
}

#[test]
fn the_router_needs_what_is_known_of_requests() {
    let error = setup_axum_router(
        &settings(),
        true,
        true,
        true,
        TimeSpan::zero(),
        Err("no such file".into()),
    )
    .unwrap_err();
    assert_eq!(error, RequestMetaError("no such file".into()));
    assert_eq!(error.to_text(), "unable to build RequestMeta state: no such file");
}

#[test]
fn api_requests_are_told_by_their_host() {
    let mut cli = settings();
    let router = setup_axum_router(&cli, true, false, false, TimeSpan::zero(), Ok(())).unwrap();
    assert_eq!(router.route(false, Some("api.example.com")), Route::NoAuthority);
    assert_eq!(router.route(true, Some("api.example.com")), Route::Api);
    assert_eq!(router.route(true, Some("www.example.com")), Route::Backends);
    assert_eq!(router.route(true, None), Route::Backends);

    let router = setup_axum_router(&cli, false, false, false, TimeSpan::zero(), Ok(())).unwrap();
    assert_eq!(router.route(true, Some("api.example.com")), Route::Backends);

    cli.api.api_hostname = None;
    let router = setup_axum_router(&cli, true, false, false, TimeSpan::zero(), Ok(())).unwrap();
    assert_eq!(router.route(true, Some("api.example.com")), Route::Backends);
}
