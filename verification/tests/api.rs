use http::{HeaderMap, HeaderValue};
use ic_http_lb::api::{
    auth_middleware, backend_handler, config_get, config_persisted, config_put, config_reload,
    health_handler, log_handler, parse_action, setup_api_axum_router, ApiMethod, ApiResponse, ApiRouter,
    Endpoint, LogLevel, NoApiToken, RateLimit,
};
use ic_http_lb::backend::{BackendConf, BackendError, BackendManager, Config, Strategy};
use ic_http_lb::uri::BackendUrl;

fn headers(authorization: &'static str) -> HeaderMap {
    let mut headers = HeaderMap::new();
    headers.insert("authorization", HeaderValue::from_static(authorization));
    headers
}

fn response(status: u16, body: &str) -> ApiResponse {
    ApiResponse { status, body: body.into() }
}

fn router(token: &str) -> ApiRouter {
    setup_api_axum_router(Some(token), false, false).unwrap()
}

fn backend_conf(name: &str, url: &str) -> BackendConf {
    BackendConf {
        name: name.into(),
        url: BackendUrl::parse(url).unwrap(),
        enabled: true,
        weight: 1,
    }
}

/// Reads a configuration out of a YAML or JSON document.
fn parse_config(document: &str) -> Option<Config> {
    let value: serde_yaml_ng::Value = serde_yaml_ng::from_str(document).ok()?;
    let strategy = match value["strategy"].as_str()? {
        "wrr" => Strategy::WeightedRoundRobin,
        "lor" => Strategy::LeastOutstandingRequests,
        _ => return None,
    };
    let mut backends = vec![];
    for backend in value["backends"].as_sequence()? {
        backends.push(BackendConf {
            name: backend["name"].as_str()?.into(),
            url: BackendUrl::parse(backend["url"].as_str()?).ok()?,
            enabled: backend["enabled"].as_bool()?,
            weight: backend["weight"].as_u64()? as usize,
        });
    }
    Some(Config { strategy, backends, fallback: None })
}

#[test]
fn test_api_auth() {
    let router = router("deadbeef");
    let route = router.routes.iter().find(|x| x.path == "/config/get").unwrap();
    assert!(route.protected);

    // Bad header
    let resp = auth_middleware(&router.state, &headers("beef")).unwrap();
    assert_eq!(resp, response(401, "Incorrect header format"));

    let resp = auth_middleware(&router.state, &headers("Bearer ")).unwrap();
    assert_eq!(resp, response(401, "Incorrect header format"));

    // Bad token
    let resp = auth_middleware(&router.state, &headers("Bearer foobar")).unwrap();
    assert_eq!(resp, response(401, "Incorrect bearer token"));

    // Good token
    assert!(auth_middleware(&router.state, &headers("Bearer deadbeef")).is_none());
    let manager = BackendManager::new();
    let config = manager.get_config();
    assert_eq!(config, Config::default());
    assert_eq!(config_get(Some("{}".into())), response(200, "{}"));
}

#[test]
fn test_config() {
    let router = router("deadbeef");
    let mut manager = BackendManager::new();

    // Upload config
    let config = parse_config(
        "strategy: wrr\n\
         backends:\n\
         \x20 - name: host1\n\
         \x20   url: http://host1\n\
         \x20   weight: 1\n\
         \x20   enabled: true\n\
         \x20 - name: host2\n\
         \x20   url: http://host2\n\
         \x20   weight: 2\n\
         \x20   enabled: true\n",
    )
    .unwrap();
    assert!(auth_middleware(&router.state, &headers("Bearer deadbeef")).is_none());
    let steps = config_put(&mut manager, Some(config.clone())).unwrap();
    assert_eq!(steps.len(), 4);
    assert_eq!(config_persisted(Ok(())), response(200, "Ok\n"));
    assert_eq!(manager.get_config(), config);
    assert_eq!(config.backends[1].weight, 2);
}

#[test]
fn requests_need_the_very_token() {
    let state = router("deadbeef").state;
    assert_eq!(
        auth_middleware(&state, &HeaderMap::new()).unwrap(),
        response(401, "Authorization header not found")
    );
    for bad in ["Bearer deadbee", "Bearer deadbeeff", "Bearer  deadbeef", "Bearer DEADBEEF"] {
        assert_eq!(
            auth_middleware(&state, &headers(bad)).unwrap(),
            response(401, "Incorrect bearer token")
        );
    }
    assert_eq!(
        auth_middleware(&state, &headers("bearer deadbeef")).unwrap(),
        response(401, "Incorrect header format")
    );
    // Only the first of several values counts
    let mut several = headers("Bearer wrong");
    several.append("authorization", HeaderValue::from_static("Bearer deadbeef"));
    assert!(auth_middleware(&state, &several).is_some());

    assert!(auth_middleware(&router("").state, &headers("Bearer ")).is_some());
    let mut accents = HeaderMap::new();
    accents.insert(
        "authorization",
        HeaderValue::from_bytes("Bearer cl\u{e9}".as_bytes()).unwrap(),
    );
    assert!(auth_middleware(&router("cl\u{e9}").state, &accents).is_none());
}

#[test]
fn the_api_needs_a_token() {
    let error = setup_api_axum_router(None, true, true).unwrap_err();
    assert_eq!(error, NoApiToken);
    assert_eq!(error.to_text(), "API token not specified");
}

#[test]
fn only_the_health_and_report_routes_are_open() {
    let router = setup_api_axum_router(Some("token"), true, true).unwrap();
    let routes: Vec<_> = router
        .routes
        .iter()
        .map(|x| (x.path, x.method, x.endpoint))
        .collect();
    assert_eq!(
        routes,
        vec![
            ("/health", ApiMethod::Get, Endpoint::Health),
            ("/log/{log_level}", ApiMethod::Get, Endpoint::Log),
            ("/backend/{backend}/{action}", ApiMethod::Get, Endpoint::Backend),
            ("/config/reload", ApiMethod::Get, Endpoint::ConfigReload),
            ("/config/get", ApiMethod::Get, Endpoint::ConfigGet),
            ("/config/put", ApiMethod::Put, Endpoint::ConfigPut),
            ("/waf", ApiMethod::Nested, Endpoint::Waf),
            ("/sev-snp/report", ApiMethod::Post, Endpoint::SevSnp),
        ]
    );
    let open: Vec<_> = router.routes.iter().filter(|x| !x.protected).map(|x| x.path).collect();
    assert_eq!(open, vec!["/health", "/sev-snp/report"]);
    assert_eq!(router.routes[7].limit, Some(RateLimit { per_second: 50, burst: 100 }));
    assert!(router.routes[..7].iter().all(|x| x.limit.is_none()));
    assert_eq!(self::router("token").routes.len(), 6);
}

#[test]
fn health_is_told_by_the_healthy_nodes() {
    assert_eq!(health_handler(0), 503);
    assert_eq!(health_handler(1), 204);
}

#[test]
fn backends_are_enabled_and_disabled() {
    let mut manager = BackendManager::new();
    let config = Config {
        strategy: Strategy::WeightedRoundRobin,
        backends: vec![backend_conf("foo", "http://127.0.0.1:1")],
        fallback: None,
    };
    manager.set_config(config).unwrap();

    let (resp, steps) = backend_handler(&mut manager, "foo".into(), "disable");
    assert_eq!(resp, response(200, "Ok\n"));
    assert_eq!(steps.len(), 3);
    assert!(!manager.get_config().backends[0].enabled);

    let (resp, steps) = backend_handler(&mut manager, "foo".into(), "enable");
    assert_eq!(resp, response(200, "Ok\n"));
    assert_eq!(steps.len(), 4);
    assert!(manager.get_config().backends[0].enabled);

    let (resp, steps) = backend_handler(&mut manager, "bar".into(), "enable");
    assert_eq!(resp, response(400, "Error: Backend not found: bar"));
    assert!(steps.is_empty());

    assert_eq!(parse_action("enable"), Some(true));
    assert_eq!(parse_action("disable"), Some(false));
    assert_eq!(parse_action("Enable"), None);
    let (resp, steps) = backend_handler(&mut manager, "foo".into(), "Enable");
    assert_eq!(resp, response(400, "Unknown action: Enable"));
    assert!(steps.is_empty());
}

#[test]
fn log_levels_go_by_name_and_number() {
    let cases = vec![
        ("error", LogLevel::Error),
        ("WARN", LogLevel::Warn),
        ("Info", LogLevel::Info),
        ("dEbUg", LogLevel::Debug),
        ("trace", LogLevel::Trace),
        ("1", LogLevel::Error),
        ("+2", LogLevel::Warn),
        ("003", LogLevel::Info),
        ("+0004", LogLevel::Debug),
        ("00000000000000000000000000000000005", LogLevel::Trace),
    ];
    for (text, level) in cases {
        let (resp, parsed) = log_handler(text);
        assert_eq!(resp, response(200, "Ok\n"));
        assert_eq!(parsed, Some(level));
    }
    for text in ["", "+", "0", "6", "10", "-1", "1 ", "warning", "off", "\u{212a}", "++1"] {
        let (resp, parsed) = log_handler(text);
        assert_eq!(resp, response(400, &format!("Unable to parse '{text}' as log level")));
        assert_eq!(parsed, None);
    }
}

#[test]
fn reloading_reports_what_went_wrong() {
    let mut manager = BackendManager::new();
    let (resp, steps) = config_reload(&mut manager, Ok(Config::default()));
    assert_eq!(resp, response(200, "Ok\n"));
    assert_eq!(steps.len(), 2);

    let (resp, steps) = config_reload(&mut manager, Err(BackendError::ReadConfig("gone".into())));
    assert_eq!(
        resp,
        response(500, "Error reloading config: unable to read backends config: gone")
    );
    assert!(steps.is_empty());

    let config = Config {
        backends: vec![
            backend_conf("a", "http://127.0.0.1:1"),
            backend_conf("a", "http://127.0.0.1:2"),
        ],
        ..Config::default()
    };
    let (resp, _) = config_reload(&mut manager, Ok(config));
    assert_eq!(resp, response(500, "Error reloading config: Non-unique backend names"));
    assert_eq!(manager.get_config(), Config::default());
}

#[test]
fn configs_that_cannot_be_encoded_are_not_handed_out() {
    assert_eq!(config_get(None), response(500, "Unable to encode to JSON"));
}

#[test]
fn uploads_report_what_went_wrong() {
    let mut manager = BackendManager::new();
    assert_eq!(
        config_put(&mut manager, parse_config("strategy: none")).unwrap_err(),
        response(400, "Unable to parse config as JSON or YAML")
    );
    let config = Config {
        backends: vec![backend_conf("a", "http://127.0.0.1:1")],
        fallback: Some(vec![backend_conf("a", "http://127.0.0.1:2")]),
        ..Config::default()
    };
    assert_eq!(
        config_put(&mut manager, Some(config)).unwrap_err(),
        response(400, "Unable to apply new config: Non-unique backend names")
    );
    assert_eq!(manager.get_config(), Config::default());
    assert_eq!(
        config_persisted(Err(BackendError::SaveConfig("disk full".into()))),
        response(
            500,
            "Unable to persist new config: unable to save config to disk: disk full"
        )
    );
}
