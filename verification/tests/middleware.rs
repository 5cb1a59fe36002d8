use http::{HeaderMap, HeaderName, HeaderValue};
use ic_http_lb::backend::{Backend, BackendConf};
use ic_http_lb::headers::{fits_header_value, HeaderError};
use ic_http_lb::metrics::{handler, MetricsCache, MetricsError, MetricsRunner};
use ic_http_lb::middleware::metrics::{
    label_names, middleware, EventValue, LogLineLevel, MetricsState, RequestInfo, ResponseMeta,
    TlsDetails,
};
use ic_http_lb::middleware::request_id;
use ic_http_lb::middleware::request_id::RequestId;
use ic_http_lb::routing::Retries;
use ic_http_lb::time::TimeSpan;
use ic_http_lb::uri::BackendUrl;

fn request() -> RequestInfo {
    RequestInfo {
        tls: None,
        method: "GET".into(),
        http_version: "2.0".into(),
        authority: None,
        path: "/path".into(),
        query: None,
        conn_id: "conn".into(),
        request_id: None,
        body_size: None,
        remote_addr: "192.0.2.1".into(),
        timestamp: 1_700_000_000,
    }
}

#[test]
fn test_request_id_middleware_sets_matching_header_and_extension() {
    let id = RequestId("0190163d-8694-739b-aea5-966c26f8ad91".into());
    let mut request = HeaderMap::new();
    let mut response = HeaderMap::new();

    request_id::middleware(&id, &mut request).unwrap();
    request_id::middleware(&id, &mut response).unwrap();

    let header_id = response.get("x-request-id").unwrap().to_str().unwrap();
    assert_eq!(header_id, id.as_str());
    assert_eq!(request.get("x-request-id"), response.get("x-request-id"));
}

#[test]
fn request_ids_take_the_place_of_others() {
    let id = RequestId("abc".into());
    let mut headers = HeaderMap::new();
    headers.append("x-request-id", HeaderValue::from_static("one"));
    headers.append("x-request-id", HeaderValue::from_static("two"));
    request_id::middleware(&id, &mut headers).unwrap();
    assert_eq!(headers.get_all("x-request-id").iter().count(), 1);
    assert_eq!(headers["x-request-id"], "abc");

    let broken = RequestId("a\0".into());
    assert_eq!(
        request_id::middleware(&broken, &mut headers),
        Err(HeaderError::InvalidValue)
    );
    assert_eq!(headers["x-request-id"], "abc");
}

#[test]
fn header_values_hold_no_control_characters() {
    assert!(fits_header_value(""));
    assert!(fits_header_value("a\tb c"));
    assert!(fits_header_value("\u{e9}"));
    for bad in ["\n", "a\r", "\0", "\u{1f}", "\u{7f}"] {
        assert!(!fits_header_value(bad));
        assert!(HeaderValue::from_bytes(bad.as_bytes()).is_err());
    }
}

#[test]
fn missing_details_have_defaults() {
    let mut headers = HeaderMap::new();
    let record = middleware(request(), &mut headers).unwrap();
    assert_eq!(record.tls_version, "");
    assert_eq!(record.tls_cipher, "");
    assert_eq!(record.tls_handshake, TimeSpan::zero());
    assert_eq!(record.authority, "");
    assert_eq!(record.query, "");
    assert_eq!(record.request_id, "");
    assert_eq!(record.request_size, -1);
    assert_eq!(record.method, "GET");
    assert_eq!(record.path, "/path");
    assert_eq!(headers["x-real-ip"], "192.0.2.1");
}

#[test]
fn present_details_are_recorded() {
    let mut headers = HeaderMap::new();
    let info = RequestInfo {
        tls: Some(TlsDetails {
            version: "TLSv1_3".into(),
            cipher: "TLS13_AES_256_GCM_SHA384".into(),
            handshake: TimeSpan::from_millis(12),
        }),
        authority: Some("example.com".into()),
        query: Some("a=b".into()),
        request_id: Some("id".into()),
        body_size: Some(42),
        ..request()
    };
    let record = middleware(info, &mut headers).unwrap();
    assert_eq!(record.tls_version, "TLSv1_3");
    assert_eq!(record.tls_cipher, "TLS13_AES_256_GCM_SHA384");
    assert_eq!(record.tls_handshake, TimeSpan::from_millis(12));
    assert_eq!(record.authority, "example.com");
    assert_eq!(record.query, "a=b");
    assert_eq!(record.request_id, "id");
    assert_eq!(record.request_size, 42);
}

#[test]
fn full_headers_are_reported() {
    let mut headers = HeaderMap::new();
    for i in 0..40_000 {
        let name = HeaderName::from_bytes(format!("x-{i}").as_bytes()).unwrap();
        if headers.try_insert(name, HeaderValue::from_static("v")).is_err() {
            break;
        }
    }
    assert_eq!(
        middleware(request(), &mut headers).unwrap_err(),
        HeaderError::TooManyNames
    );
}

#[test]
fn responses_are_recorded() {
    let backend = Backend::from(BackendConf {
        name: "host1".into(),
        url: BackendUrl::parse("http://host1").unwrap(),
        enabled: true,
        weight: 1,
    });
    let meta = ResponseMeta::new(
        200,
        TimeSpan::from_millis(7),
        Some(&backend),
        Some(5),
        Some(Retries(2)),
    );
    assert_eq!(meta.status, 200);
    assert_eq!(meta.duration, TimeSpan::from_millis(7));
    assert_eq!(meta.backend, "host1");
    assert_eq!(meta.size, 5);
    assert_eq!(meta.retries, 2);

    let meta = ResponseMeta::new(404, TimeSpan::zero(), None, None, None);
    assert_eq!(meta.backend, "");
    assert_eq!(meta.size, -1);
    assert_eq!(meta.retries, 0);
}

#[test]
fn reports_hold_labels_and_events() {
    let record = middleware(request(), &mut HeaderMap::new()).unwrap();
    let meta = ResponseMeta::new(200, TimeSpan::from_secs(1), None, Some(5), Some(Retries(1)));
    let state = MetricsState::new(true, false, None);
    let report = state.report("prod", "host", &record, Some(meta));

    assert_eq!(label_names(), vec!["tls", "method", "http", "status", "backend", "retried"]);
    assert_eq!(report.labels, vec!["", "GET", "2.0", "200", "", "yes"]);
    assert_eq!(report.level, None);
    let event = report.event.unwrap();
    let names: Vec<&str> = event.iter().map(|x| x.name).collect();
    assert_eq!(
        names,
        vec![
            "env",
            "hostname",
            "timestamp",
            "conn_id",
            "request_id",
            "tls_version",
            "tls_cipher",
            "tls_handshake",
            "http_version",
            "authority",
            "method",
            "path",
            "query",
            "status",
            "duration",
            "backend",
            "remote_addr",
            "request_size",
            "response_size",
            "retries"
        ]
    );
    assert_eq!(event[0].value, EventValue::Text("prod".into()));
    assert_eq!(event[2].value, EventValue::Integer(1_700_000_000));
    assert_eq!(event[13].value, EventValue::Integer(200));
    assert_eq!(event[14].value, EventValue::Span(TimeSpan::from_secs(1)));
    assert_eq!(event[17].value, EventValue::Integer(-1));
    assert_eq!(event[18].value, EventValue::Integer(5));
    assert_eq!(event[19].value, EventValue::Integer(1));
}

#[test]
fn cancelled_requests_are_reported() {
    let record = middleware(request(), &mut HeaderMap::new()).unwrap();
    let state = MetricsState::new(false, true, None);
    let report = state.report("prod", "host", &record, None);
    assert_eq!(report.labels, vec!["", "GET", "2.0", "408", "unknown", "no"]);
    assert_eq!(report.meta.status, 408);
    assert_eq!(report.meta.size, 0);
    assert_eq!(report.meta.duration, TimeSpan::zero());
    assert_eq!(report.level, Some(LogLineLevel::Info));
    assert!(report.event.is_none());
}

#[test]
fn long_requests_are_logged_as_warnings() {
    let long = TimeSpan::from_secs(2);
    let longer = TimeSpan::new(2, 1);
    let quiet = MetricsState::new(false, false, Some(long));
    assert_eq!(quiet.log_level(long), None);
    assert_eq!(quiet.log_level(longer), Some(LogLineLevel::Warn));
    let verbose = MetricsState::new(false, true, Some(long));
    assert_eq!(verbose.log_level(long), Some(LogLineLevel::Info));
    assert_eq!(verbose.log_level(longer), Some(LogLineLevel::Warn));
    let unlimited = MetricsState::new(false, false, None);
    assert_eq!(unlimited.log_level(longer), None);
}

#[test]
fn snapshots_are_served() {
    let mut cache = MetricsCache::new();
    assert_eq!(handler(&cache).0, "text/plain; version=0.0.4");
    assert!(handler(&cache).1.is_empty());

    let mut runner = MetricsRunner::new();
    let recorded = runner.record_memory(Ok(()), Ok(10), Ok(20));
    assert_eq!(runner, MetricsRunner { mem_allocated: 10, mem_resident: 20 });
    MetricsRunner::update(recorded, Ok(b"metric 1\n".to_vec()), &mut cache).unwrap();
    assert_eq!(handler(&cache).1, b"metric 1\n");
}

#[test]
fn failures_keep_the_snapshot() {
    let mut cache = MetricsCache::new();
    cache.store(b"old".to_vec());
    let mut runner = MetricsRunner::new();

    let error = runner.record_memory(Err("busy".into()), Ok(1), Ok(2)).unwrap_err();
    assert_eq!(error, MetricsError::AdvanceEpoch("busy".into()));
    assert_eq!(error.to_text(), "unable to advance epoch: busy");
    assert_eq!(runner, MetricsRunner::new());

    let error = runner.record_memory(Ok(()), Err("none".into()), Ok(2)).unwrap_err();
    assert_eq!(error.to_text(), "unable to read stats: none");
    assert_eq!(runner, MetricsRunner::new());

    let error = runner.record_memory(Ok(()), Ok(1), Err("none".into())).unwrap_err();
    assert_eq!(error, MetricsError::ReadStats("none".into()));
    assert_eq!(runner, MetricsRunner { mem_allocated: 1, mem_resident: 0 });

    let error =
        MetricsRunner::update(Err(error), Ok(b"new".to_vec()), &mut cache).unwrap_err();
    assert_eq!(error, MetricsError::ReadStats("none".into()));
    let error = MetricsRunner::update(Ok(()), Err("broken".into()), &mut cache).unwrap_err();
    assert_eq!(error.to_text(), "broken");
    assert_eq!(handler(&cache).1, b"old");
}
