use ic_http_lb::backend::{
    setup_backend_router, try_setup_backend_router, Backend, BackendConf, BackendError,
    BackendHealthChecker, BackendManager, Config, HttpVersion, Outgoing, ProbeOutcome,
    RequestContext, RequestExecutor,
    RouterSlot, RouterSpec, RouterStep, Strategy, TargetState,
};
use ic_http_lb::time::TimeSpan;
use ic_http_lb::uri::{BackendUrl, InvalidUri};

fn backend_conf(name: &str, url: &str) -> BackendConf {
    BackendConf {
        name: name.into(),
        url: BackendUrl::parse(url).unwrap(),
        enabled: true,
        weight: 1,
    }
}

/// A router whose health checks are over.
struct Router {
    backends: Vec<Backend>,
    healthy: Vec<String>,
}

/// The two routers, as the steps leave them.
#[derive(Default)]
struct Routers {
    main: Option<Router>,
    fallback: Option<Router>,
    created: Option<Router>,
    replaced: Option<Router>,
    stopped: usize,
}

/// Only this server answers health checks.
const HEALTHY_URI: &str = "http://127.0.0.1:8080/health";

impl Routers {
    fn create(&mut self, spec: &RouterSpec) {
        let list = try_setup_backend_router(&spec.backends).expect("able to build health URI");
        self.created = Some(Router {
            backends: list.into_iter().map(|x| x.0).collect(),
            healthy: vec![],
        });
    }

    fn await_health(&mut self) {
        let checker = BackendHealthChecker::new(TimeSpan::from_millis(500));
        let router = self.created.as_mut().unwrap();
        let mut states = vec![TargetState::Unknown; router.backends.len()];
        for i in 0..states.len() {
            assert!(!BackendManager::wait_healthchecks(&states));
            let outcome = if router.backends[i].uri_health == HEALTHY_URI {
                ProbeOutcome::Answered(200)
            } else {
                ProbeOutcome::Failed
            };
            states[i] = checker.check(outcome);
            if states[i] == TargetState::Healthy {
                router.healthy.push(router.backends[i].name.clone());
            }
        }
        assert!(BackendManager::wait_healthchecks(&states));
    }

    fn perform(&mut self, steps: Vec<RouterStep>) {
        for step in steps {
            match step {
                RouterStep::Create(spec) => self.create(&spec),
                RouterStep::AwaitHealth => self.await_health(),
                RouterStep::Install(RouterSlot::Main) => {
                    self.replaced = std::mem::replace(&mut self.main, self.created.take());
                }
                RouterStep::Install(RouterSlot::Fallback) => {
                    self.replaced = std::mem::replace(&mut self.fallback, self.created.take());
                }
                RouterStep::StopOld(_) => {
                    assert!(self.replaced.take().is_some());
                    self.stopped += 1;
                }
            }
        }
    }

    fn get_healthy_nodes(&self) -> Vec<String> {
        BackendManager::get_healthy_nodes(self.main.as_ref().map(|x| x.healthy.clone()))
    }

    fn get_backend_router(&self) -> Option<&Router> {
        BackendManager::get_backend_router(
            self.main.as_ref(),
            self.main.as_ref().map_or(0, |x| x.healthy.len()),
            self.fallback.as_ref(),
        )
    }
}

#[test]
fn test_config_default() {
    let cfg = Config::default();
    assert_eq!(cfg.strategy, Strategy::LeastOutstandingRequests);
    assert!(cfg.backends.is_empty());
    assert!(cfg.fallback.is_none());
}

#[test]
fn test_backend_from_conf_builds_health_uri() {
    let conf = backend_conf("foo", "http://example.com:1234/base/path");
    let backend = Backend::from(conf);

    assert_eq!(backend.name, "foo");
    assert_eq!(backend.uri_health, "http://example.com:1234/health");
    assert_eq!(backend.as_str(), "foo");
}

#[test]
fn test_set_config_rejects_duplicate_names() {
    let mut bm = BackendManager::new();

    let config = Config {
        strategy: Strategy::LeastOutstandingRequests,
        backends: vec![backend_conf("dup", "http://127.0.0.1:1")],
        fallback: Some(vec![backend_conf("dup", "http://127.0.0.1:2")]),
    };

    let err = bm.set_config(config).unwrap_err();
    assert!(err.to_text().contains("Non-unique"));
    assert_eq!(err, BackendError::NonUniqueNames);
    assert_eq!(err.to_text(), "Non-unique backend names");
    assert_eq!(bm.get_config(), Config::default());
}

#[test]
fn test_set_config_empty_backends_ok() {
    let mut bm = BackendManager::new();
    let mut routers = Routers::default();

    let config = Config {
        strategy: Strategy::LeastOutstandingRequests,
        backends: vec![],
        fallback: None,
    };

    let steps = bm.set_config(config.clone()).unwrap();
    routers.perform(steps);
    assert_eq!(bm.get_config(), config);
    assert!(routers.get_backend_router().is_none());
    assert!(routers.get_healthy_nodes().is_empty());
}

#[test]
fn test_set_backend_state_not_found() {
    let mut bm = BackendManager::new();
    let err = bm
        .set_backend_state("nonexistent".into(), true)
        .unwrap_err();
    assert!(err.to_text().contains("Backend not found"));
    assert_eq!(err.to_text(), "Backend not found: nonexistent");
}

#[test]
fn test_set_backend_state_toggle() {
    let mut bm = BackendManager::new();
    let mut routers = Routers::default();

    // Backend is disabled initially - no health check happens
    let config = Config {
        strategy: Strategy::LeastOutstandingRequests,
        backends: vec![BackendConf {
            enabled: false,
            ..backend_conf("foo", "http://127.0.0.1:1")
        }],
        fallback: None,
    };
    let steps = bm.set_config(config).unwrap();
    routers.perform(steps);
    assert!(routers.get_backend_router().is_none());

    // Enabling it triggers a health check against a closed port -> stays unhealthy
    let steps = bm.set_backend_state("foo".into(), true).unwrap();
    routers.perform(steps);
    assert!(routers.get_healthy_nodes().is_empty());
    assert!(routers.get_backend_router().is_none());

    // Disabling it again removes the router entirely
    let steps = bm.set_backend_state("foo".into(), false).unwrap();
    routers.perform(steps);
    assert!(routers.get_backend_router().is_none());
    assert!(routers.main.is_none());
    assert_eq!(routers.stopped, 1);
}

#[test]
fn test_get_backend_router_falls_back_when_main_unhealthy() {
    let mut bm = BackendManager::new();
    let mut routers = Routers::default();

    let config = Config {
        strategy: Strategy::LeastOutstandingRequests,
        backends: vec![backend_conf("main", "http://127.0.0.1:1")],
        fallback: Some(vec![backend_conf("fb", "http://127.0.0.1:8080")]),
    };

    let steps = bm.set_config(config).unwrap();
    routers.perform(steps);

    // Main backend is unreachable, so it has no healthy nodes
    assert!(routers.get_healthy_nodes().is_empty());

    // But the router falls back to the healthy fallback backend
    let router = routers.get_backend_router().expect("should fall back");
    let healthy = &router.healthy;
    assert_eq!(healthy.len(), 1);
    assert_eq!(healthy[0], "fb");
}

#[test]
fn main_router_is_used_while_it_has_healthy_backends() {
    assert_eq!(
        BackendManager::get_backend_router(Some("main"), 1, Some("fallback")),
        Some("main")
    );
    assert_eq!(
        BackendManager::get_backend_router(Some("main"), 0, Some("fallback")),
        Some("fallback")
    );
    assert_eq!(BackendManager::get_backend_router(Some("main"), 0, None), None);
    assert_eq!(
        BackendManager::get_backend_router(None, 0, Some("fallback")),
        Some("fallback")
    );
}

#[test]
fn disabled_backends_are_left_out_of_the_routers() {
    let mut bm = BackendManager::new();
    let mut off = backend_conf("b", "http://127.0.0.1:2");
    off.enabled = false;
    let config = Config {
        strategy: Strategy::WeightedRoundRobin,
        backends: vec![
            backend_conf("a", "http://127.0.0.1:1"),
            off,
            backend_conf("c", "http://127.0.0.1:3"),
        ],
        fallback: Some(vec![backend_conf("d", "http://127.0.0.1:4")]),
    };
    let steps = bm.set_config(config).unwrap();

    let created: Vec<Vec<String>> = steps
        .iter()
        .filter_map(|step| match step {
            RouterStep::Create(spec) => {
                assert_eq!(spec.strategy, Strategy::WeightedRoundRobin);
                Some(spec.backends.iter().map(|x| x.name.clone()).collect())
            }
            _ => None,
        })
        .collect();
    assert_eq!(created, vec![vec!["a".to_string(), "c".to_string()], vec!["d".to_string()]]);
}

#[test]
fn routers_are_exchanged_one_after_the_other() {
    let mut bm = BackendManager::new();
    let config = Config {
        strategy: Strategy::LeastOutstandingRequests,
        backends: vec![backend_conf("a", "http://127.0.0.1:1")],
        fallback: Some(vec![backend_conf("b", "http://127.0.0.1:2")]),
    };
    bm.set_config(config).unwrap();

    let steps = bm.apply();
    let kinds: Vec<&str> = steps
        .iter()
        .map(|step| match step {
            RouterStep::Create(_) => "create",
            RouterStep::AwaitHealth => "await",
            RouterStep::Install(RouterSlot::Main) => "install main",
            RouterStep::Install(RouterSlot::Fallback) => "install fallback",
            RouterStep::StopOld(RouterSlot::Main) => "stop main",
            RouterStep::StopOld(RouterSlot::Fallback) => "stop fallback",
        })
        .collect();
    assert_eq!(
        kinds,
        vec![
            "create",
            "await",
            "install main",
            "stop main",
            "create",
            "await",
            "install fallback",
            "stop fallback"
        ]
    );
}

#[test]
fn toggling_back_restores_the_config() {
    let mut bm = BackendManager::new();
    let config = Config {
        strategy: Strategy::WeightedRoundRobin,
        backends: vec![
            backend_conf("a", "http://127.0.0.1:1"),
            backend_conf("b", "http://127.0.0.1:2"),
        ],
        fallback: None,
    };
    bm.set_config(config.clone()).unwrap();

    bm.set_backend_state("b".into(), false).unwrap();
    let changed = bm.get_config();
    assert!(changed.backends[0].enabled);
    assert!(!changed.backends[1].enabled);

    bm.set_backend_state("b".into(), false).unwrap();
    assert_eq!(bm.get_config(), changed);

    bm.set_backend_state("b".into(), true).unwrap();
    assert_eq!(bm.get_config(), config);
}

#[test]
fn fallback_backends_cannot_be_toggled() {
    let mut bm = BackendManager::new();
    let config = Config {
        strategy: Strategy::WeightedRoundRobin,
        backends: vec![],
        fallback: Some(vec![backend_conf("fb", "http://127.0.0.1:2")]),
    };
    bm.set_config(config).unwrap();
    assert_eq!(
        bm.set_backend_state("fb".into(), false).unwrap_err(),
        BackendError::NotFound("fb".into())
    );
}

#[test]
fn former_configs_can_be_loaded_again() {
    let mut bm = BackendManager::new();
    let config = Config {
        strategy: Strategy::WeightedRoundRobin,
        backends: vec![backend_conf("a", "http://127.0.0.1:1")],
        fallback: Some(vec![backend_conf("b", "http://127.0.0.1:2")]),
    };
    bm.set_config(config.clone()).unwrap();
    let saved = bm.get_config();

    bm.set_backend_state("a".into(), false).unwrap();
    bm.set_config(Config::default()).unwrap();
    bm.load_config(Ok(saved)).unwrap();
    assert_eq!(bm.get_config(), config);
}

#[test]
fn unique_names_are_told_from_others() {
    let mut config = Config {
        strategy: Strategy::WeightedRoundRobin,
        backends: vec![
            backend_conf("a", "http://127.0.0.1:1"),
            backend_conf("b", "http://127.0.0.1:1"),
        ],
        fallback: Some(vec![backend_conf("c", "http://127.0.0.1:1")]),
    };
    assert!(config.has_unique_names());
    config.backends[0].name = "b".into();
    assert!(!config.has_unique_names());
}

#[test]
fn failed_loads_keep_the_config() {
    let mut bm = BackendManager::new();
    let cases = vec![
        (
            BackendError::ReadConfig("no such file".into()),
            "unable to read backends config: no such file",
        ),
        (
            BackendError::ParseConfig("bad indentation".into()),
            "unable to parse backends config: bad indentation",
        ),
    ];
    for (error, text) in cases {
        let err = bm.load_config(Err(error)).unwrap_err();
        assert_eq!(err.to_text(), text);
        assert_eq!(bm.get_config(), Config::default());
    }

    let config = Config {
        strategy: Strategy::WeightedRoundRobin,
        backends: vec![backend_conf("a", "http://127.0.0.1:1")],
        fallback: None,
    };
    assert_eq!(bm.load_config(Ok(config.clone())).unwrap().len(), 4);
    assert_eq!(bm.get_config(), config);
    let doubled = Config {
        fallback: Some(vec![backend_conf("a", "http://127.0.0.1:1")]),
        ..config.clone()
    };
    assert_eq!(bm.load_config(Ok(doubled)).unwrap_err(), BackendError::NonUniqueNames);
    assert_eq!(bm.get_config(), config);
}

#[test]
fn errors_of_saving_name_their_cause() {
    assert_eq!(
        BackendError::EncodeConfig("x".into()).to_text(),
        "unable to serialize config to YAML: x"
    );
    assert_eq!(
        BackendError::SaveConfig("disk full".into()).to_text(),
        "unable to save config to disk: disk full"
    );
}

#[test]
fn routers_weigh_their_backends() {
    let mut heavy = backend_conf("heavy", "https://example.org");
    heavy.weight = 7;
    let list = setup_backend_router(&vec![backend_conf("light", "http://example.com"), heavy]);
    assert_eq!(list.len(), 2);
    assert_eq!(list[0].0.name, "light");
    assert_eq!(list[0].1, 1);
    assert_eq!(list[1].0.uri_health, "https://example.org/health");
    assert_eq!(list[1].1, 7);
}

#[test]
fn urls_without_a_health_uri_are_refused() {
    // The percent sign is part of this URL's authority, but not of any that goes into a URI.
    let odd = backend_conf("odd", "foo://a%20b");
    assert!(Backend::try_from_conf(odd.clone()).is_none());
    assert!(try_setup_backend_router(&vec![odd]).is_none());

    let good = backend_conf("good", "http://example.com");
    assert_eq!(
        Backend::try_from_conf(good).unwrap().uri_health,
        "http://example.com/health"
    );
}

#[test]
fn health_depends_on_the_answer() {
    let checker = BackendHealthChecker::new(TimeSpan::from_secs(3));
    assert_eq!(checker.timeout(), TimeSpan::from_secs(3));
    let cases = vec![
        (ProbeOutcome::Answered(200), TargetState::Healthy),
        (ProbeOutcome::Answered(204), TargetState::Healthy),
        (ProbeOutcome::Answered(299), TargetState::Healthy),
        (ProbeOutcome::Answered(199), TargetState::Degraded),
        (ProbeOutcome::Answered(300), TargetState::Degraded),
        (ProbeOutcome::Answered(503), TargetState::Degraded),
        (ProbeOutcome::Failed, TargetState::Degraded),
        (ProbeOutcome::TimedOut, TargetState::Degraded),
    ];
    for (outcome, state) in cases {
        assert_eq!(checker.check(outcome), state);
    }
}

#[test]
fn requests_are_directed_to_the_backend() {
    let backend = Backend::from(backend_conf("a", "http://user@example.com:81/ignored?x=1"));
    let executor = RequestExecutor;
    let mut context = RequestContext::default();
    assert!(context.backend.is_none());

    assert_eq!(
        executor
            .execute(&backend, Some("/path?q=2"), &mut context)
            .unwrap(),
        Outgoing {
            uri: "http://user@example.com:81/path?q=2".into(),
            path_and_query: "/path?q=2".into(),
            version: HttpVersion::Http11,
        }
    );
    assert_eq!(context.backend.as_ref().unwrap().name, "a");
    assert!(!context.request_body_buffered);
    assert_eq!(
        executor.execute(&backend, None, &mut context).unwrap(),
        Outgoing {
            uri: "http://user@example.com:81/".into(),
            path_and_query: "/".into(),
            version: HttpVersion::Http11,
        }
    );
    let InvalidUri(cause) = executor
        .execute(&backend, Some("/a b"), &mut context)
        .unwrap_err();
    assert_eq!(cause.to_string(), "invalid uri character");
}
