//! Backends: their configuration, the routers over them and the state of both.

use vstd::prelude::*;

use itertools::Itertools;

use crate::text;
use crate::time::TimeSpan;
use crate::uri;
use crate::uri::{BackendUrl, InvalidUri};

verus! {

/// How requests are spread over the backends.
#[derive(Clone, Copy, Debug, PartialEq, Eq, Structural)]
pub enum Strategy {
    LeastOutstandingRequests,
    WeightedRoundRobin,
}

/// The health of a backend.
#[derive(Clone, Copy, Debug, PartialEq, Eq, Structural)]
pub enum TargetState {
    Unknown,
    Degraded,
    Healthy,
}

/// Single backend as represented in the config file.
#[derive(Debug, PartialEq, Eq)]
pub struct BackendConf {
    pub name: String,
    pub url: BackendUrl,
    pub enabled: bool,
    pub weight: usize,
}

impl Clone for BackendConf {
    fn clone(&self) -> (copy: Self)
        ensures
            copy == *self,
    {
        BackendConf {
            name: self.name.clone(),
            url: self.url.clone(),
            enabled: self.enabled,
            weight: self.weight,
        }
    }
}

/// Copies a list of backends.
fn copy_backends(backends: &Vec<BackendConf>) -> (copy: Vec<BackendConf>)
    ensures
        copy@ == backends@,
{
    let mut copy: Vec<BackendConf> = Vec::new();
    let mut i: usize = 0;
    while i < backends.len()
        invariant
            i <= backends.len(),
            copy@ == backends@.take(i as int),
        decreases backends.len() - i,
    {
        copy.push(backends[i].clone());
        i += 1;
    }
    copy
}

/// Backend configuration.
#[derive(Debug, PartialEq, Eq)]
pub struct Config {
    pub strategy: Strategy,
    pub backends: Vec<BackendConf>,
    pub fallback: Option<Vec<BackendConf>>,
}

/// What a configuration says.
#[verifier::ext_equal]
pub struct ConfigModel {
    pub strategy: Strategy,
    pub backends: Seq<BackendConf>,
    pub fallback: Option<Seq<BackendConf>>,
}

impl View for Config {
    type V = ConfigModel;

    open spec fn view(&self) -> ConfigModel {
        ConfigModel {
            strategy: self.strategy,
            backends: self.backends@,
            fallback: match self.fallback {
                Some(fallback) => Some(fallback@),
                None => None,
            },
        }
    }
}

impl ConfigModel {
    /// The fallback backends, of which there may be none.
    pub open spec fn fallback_backends(self) -> Seq<BackendConf> {
        match self.fallback {
            Some(fallback) => fallback,
            None => Seq::empty(),
        }
    }

    /// The names of all backends, the fallback ones last.
    pub open spec fn names(self) -> Seq<Seq<char>> {
        (self.backends + self.fallback_backends()).map_values(|b: BackendConf| b.name@)
    }

    /// No two backends share a name.
    pub open spec fn names_unique(self) -> bool {
        self.names().no_duplicates()
    }
}

impl Clone for Config {
    fn clone(&self) -> (copy: Self)
        ensures
            copy@ == self@,
    {
        Config {
            strategy: self.strategy,
            backends: copy_backends(&self.backends),
            fallback: match &self.fallback {
                Some(fallback) => Some(copy_backends(fallback)),
                None => None,
            },
        }
    }
}

impl Default for Config {
    fn default() -> (config: Self)
        ensures
            config.strategy == Strategy::LeastOutstandingRequests,
            config.backends@ == Seq::<BackendConf>::empty(),
            config.fallback is None,
    {
        Config {
            strategy: Strategy::LeastOutstandingRequests,
            backends: Vec::new(),
            fallback: None,
        }
    }
}

/// `itertools::Itertools::all_unique`, which is trusted to tell whether no two of the texts are
/// equal.
#[verifier::external_body]
fn all_unique(names: &Vec<String>) -> (unique: bool)
    ensures
        unique == names@.map_values(|name: String| name@).no_duplicates(),
{
    names.iter().all_unique()
}

/// Appends the names of backends to a list of names.
fn collect_names(backends: &Vec<BackendConf>, names: &mut Vec<String>)
    ensures
        final(names)@.map_values(|name: String| name@) == old(names)@.map_values(
            |name: String| name@,
        ) + backends@.map_values(|b: BackendConf| b.name@),
{
    let ghost before = names@.map_values(|name: String| name@);
    let mut i: usize = 0;
    while i < backends.len()
        invariant
            i <= backends.len(),
            names@.map_values(|name: String| name@) == before + backends@.take(
                i as int,
            ).map_values(|b: BackendConf| b.name@),
        decreases backends.len() - i,
    {
        let ghost had = names@;
        names.push(backends[i].name.clone());
        proof {
            assert(names@.map_values(|name: String| name@) =~= had.map_values(
                |name: String| name@,
            ).push(backends@[i as int].name@));
            assert(backends@.take(i + 1).map_values(|b: BackendConf| b.name@) =~= backends@.take(
                i as int,
            ).map_values(|b: BackendConf| b.name@).push(backends@[i as int].name@));
        }
        i += 1;
    }
    assert(backends@.take(i as int) =~= backends@);
}

impl Config {
    /// Whether no two backends share a name, the fallback ones counted in.
    pub fn has_unique_names(&self) -> (unique: bool)
        ensures
            unique == self@.names_unique(),
    {
        let mut names: Vec<String> = Vec::new();
        collect_names(&self.backends, &mut names);
        match &self.fallback {
            Some(fallback) => {
                collect_names(fallback, &mut names);
            },
            None => {},
        }
        assert(names@.map_values(|name: String| name@) =~= self@.names());
        all_unique(&names)
    }
}

/// The path that a backend answers on when it is asked for its health.
pub const HEALTH_PATH: &'static str = "/health";

/// The path of a request that names none.
pub const DEFAULT_PATH: &'static str = "/";

/// Single backend after preprocessing.
#[derive(Debug)]
pub struct Backend {
    pub name: String,
    pub url: BackendUrl,
    pub uri_health: String,
}

impl Clone for Backend {
    fn clone(&self) -> (copy: Self)
        ensures
            copy == *self,
    {
        Backend {
            name: self.name.clone(),
            url: self.url.clone(),
            uri_health: self.uri_health.clone(),
        }
    }
}

impl BackendConf {
    /// Whether the URL can be completed to the URI of a health check.
    pub open spec fn is_usable(self) -> bool {
        uri::uri_builds(self.url@.scheme, self.url@.authority, HEALTH_PATH@)
    }
}

impl Backend {
    /// The backend that a configured one becomes: its health is asked for on its own server.
    pub open spec fn stands_for(self, conf: BackendConf) -> bool {
        &&& self.name == conf.name
        &&& self.url == conf.url
        &&& self.uri_health@ == conf.url@.scheme + "://"@ + conf.url@.authority + HEALTH_PATH@
    }

    /// Prepares a configured backend whose URL can be completed to that of a health check.
    pub fn from(v: BackendConf) -> (backend: Backend)
        requires
            v.is_usable(),
        ensures
            backend.stands_for(v),
    {
        let built: Result<String, InvalidUri> = v.url.with_path(HEALTH_PATH);
        proof {
            health_path_is_kept();
        }
        let uri_health: String = built.unwrap();
        Backend { name: v.name, url: v.url, uri_health }
    }

    /// Prepares a configured backend, or returns nothing where its URL cannot be completed to
    /// that of a health check.
    pub fn try_from_conf(v: BackendConf) -> (backend: Option<Backend>)
        ensures
            match backend {
                Some(backend) => v.is_usable() && backend.stands_for(v),
                None => !v.is_usable(),
            },
    {
        match v.url.with_path(HEALTH_PATH) {
            Ok(_) => Some(Backend::from(v)),
            Err(_) => None,
        }
    }

    /// The name, by which a backend goes in logs.
    pub fn as_str(&self) -> (name: &str)
        ensures
            name@ == self.name@,
    {
        self.name.as_str()
    }
}

/// The path of a health check stands in a URI as it is.
proof fn health_path_is_kept()
    ensures
        uri::target_text(HEALTH_PATH@) == HEALTH_PATH@,
{
    reveal_strlit("/health");
    let path = HEALTH_PATH@;
    assert(!path.contains('#'));
    path.index_of_first_ensures('#');
}

/// The list that a router is made of: each backend with its weight, in the order of the
/// configuration.
pub open spec fn weighs_backends(list: Seq<(Backend, usize)>, backends: Seq<BackendConf>) -> bool {
    &&& list.len() == backends.len()
    &&& forall|i: int|
        0 <= i < list.len() ==> (#[trigger] list[i]).0.stands_for(backends[i]) && list[i].1
            == backends[i].weight
}

/// Every backend's URL can be completed to that of a health check.
pub open spec fn all_usable(backends: Seq<BackendConf>) -> bool {
    forall|i: int| 0 <= i < backends.len() ==> (#[trigger] backends[i]).is_usable()
}

/// The backends and weights that a router is set up with.
pub fn setup_backend_router(backends: &Vec<BackendConf>) -> (list: Vec<(Backend, usize)>)
    requires
        all_usable(backends@),
    ensures
        weighs_backends(list@, backends@),
        list@.len() == backends@.len(),
        forall|i: int|
            0 <= i < list@.len() ==> (#[trigger] list@[i]).0.name == backends@[i].name
                && list@[i].0.url == backends@[i].url && list@[i].1 == backends@[i].weight,
{
    let mut list: Vec<(Backend, usize)> = Vec::new();
    let mut i: usize = 0;
    while i < backends.len()
        invariant
            i <= backends.len(),
            all_usable(backends@),
            weighs_backends(list@, backends@.take(i as int)),
        decreases backends.len() - i,
    {
        let conf: BackendConf = backends[i].clone();
        let weight: usize = conf.weight;
        list.push((Backend::from(conf), weight));
        i += 1;
    }
    assert(backends@.take(i as int) =~= backends@);
    list
}

/// The backends and weights that a router is set up with, or nothing where the URL of one of the
/// backends cannot be completed to that of a health check.
pub fn try_setup_backend_router(backends: &Vec<BackendConf>) -> (list: Option<
    Vec<(Backend, usize)>,
>)
    ensures
        match list {
            Some(list) => all_usable(backends@) && weighs_backends(list@, backends@),
            None => !all_usable(backends@),
        },
{
    let mut i: usize = 0;
    while i < backends.len()
        invariant
            i <= backends.len(),
            all_usable(backends@.take(i as int)),
        decreases backends.len() - i,
    {
        match backends[i].url.with_path(HEALTH_PATH) {
            Ok(_) => {},
            Err(_) => {
                assert(!backends@[i as int].is_usable());
                return None;
            },
        }
        i += 1;
        assert(all_usable(backends@.take(i as int)));
    }
    assert(backends@.take(i as int) =~= backends@);
    Some(setup_backend_router(backends))
}

/// Request context information.
#[derive(Debug)]
pub struct RequestContext {
    pub backend: Option<Backend>,
    pub request_body_buffered: bool,
    pub response_body_buffered: bool,
}

impl Clone for RequestContext {
    fn clone(&self) -> (copy: Self)
        ensures
            copy == *self,
    {
        RequestContext {
            backend: match &self.backend {
                Some(backend) => Some(backend.clone()),
                None => None,
            },
            request_body_buffered: self.request_body_buffered,
            response_body_buffered: self.response_body_buffered,
        }
    }
}

impl Default for RequestContext {
    fn default() -> (context: Self)
        ensures
            context.backend is None,
            !context.request_body_buffered,
            !context.response_body_buffered,
    {
        RequestContext {
            backend: None,
            request_body_buffered: false,
            response_body_buffered: false,
        }
    }
}

/// Why an operation on the backends failed.
#[derive(Debug, PartialEq, Eq)]
pub enum BackendError {
    /// Two backends of a configuration share a name.
    NonUniqueNames,
    /// No backend has this name.
    NotFound(String),
    /// The config file could not be read.
    ReadConfig(String),
    /// The config file holds no configuration.
    ParseConfig(String),
    /// The configuration could not be encoded.
    EncodeConfig(String),
    /// The config file could not be written.
    SaveConfig(String),
}

impl BackendError {
    /// The message, with its cause if it has one.
    pub open spec fn message(self) -> Seq<char> {
        match self {
            BackendError::NonUniqueNames => "Non-unique backend names"@,
            BackendError::NotFound(name) => "Backend not found: "@ + name@,
            BackendError::ReadConfig(e) => "unable to read backends config: "@ + e@,
            BackendError::ParseConfig(e) => "unable to parse backends config: "@ + e@,
            BackendError::EncodeConfig(e) => "unable to serialize config to YAML: "@ + e@,
            BackendError::SaveConfig(e) => "unable to save config to disk: "@ + e@,
        }
    }

    /// The message, with its cause if it has one.
    pub fn to_text(&self) -> (text: String)
        ensures
            text@ == self.message(),
    {
        match self {
            BackendError::NonUniqueNames => "Non-unique backend names".to_owned(),
            BackendError::NotFound(name) => text::join("Backend not found: ", name.as_str()),
            BackendError::ReadConfig(e) => text::join(
                "unable to read backends config: ",
                e.as_str(),
            ),
            BackendError::ParseConfig(e) => text::join(
                "unable to parse backends config: ",
                e.as_str(),
            ),
            BackendError::EncodeConfig(e) => text::join(
                "unable to serialize config to YAML: ",
                e.as_str(),
            ),
            BackendError::SaveConfig(e) => text::join(
                "unable to save config to disk: ",
                e.as_str(),
            ),
        }
    }
}

/// The two places that hold a router.
#[derive(Clone, Copy, Debug, PartialEq, Eq, Structural)]
pub enum RouterSlot {
    Main,
    Fallback,
}

/// What a router is made of: at least one backend, all of them enabled.
#[derive(Debug)]
pub struct RouterSpec {
    pub backends: Vec<BackendConf>,
    pub strategy: Strategy,
}

/// What a router is made of.
#[verifier::ext_equal]
pub struct RouterModel {
    pub backends: Seq<BackendConf>,
    pub strategy: Strategy,
}

impl View for RouterSpec {
    type V = RouterModel;

    open spec fn view(&self) -> RouterModel {
        RouterModel { backends: self.backends@, strategy: self.strategy }
    }
}

impl Clone for RouterSpec {
    fn clone(&self) -> (copy: Self)
        ensures
            copy@ == self@,
    {
        RouterSpec { backends: copy_backends(&self.backends), strategy: self.strategy }
    }
}

/// One step in the exchange of a router.
#[derive(Debug)]
pub enum RouterStep {
    /// Create a router.
    Create(RouterSpec),
    /// Wait until no backend of the router that was created is in an unknown state of health.
    AwaitHealth,
    /// Put the router that was created, if one was, in the place of the one in the slot.
    Install(RouterSlot),
    /// Stop the router that was taken out of the slot.
    StopOld(RouterSlot),
}

/// One step in the exchange of a router.
#[verifier::ext_equal]
pub enum StepModel {
    Create(RouterModel),
    AwaitHealth,
    Install(RouterSlot),
    StopOld(RouterSlot),
}

impl View for RouterStep {
    type V = StepModel;

    open spec fn view(&self) -> StepModel {
        match self {
            RouterStep::Create(spec) => StepModel::Create(spec@),
            RouterStep::AwaitHealth => StepModel::AwaitHealth,
            RouterStep::Install(slot) => StepModel::Install(*slot),
            RouterStep::StopOld(slot) => StepModel::StopOld(*slot),
        }
    }
}

/// A list of steps.
pub open spec fn steps_view(steps: Seq<RouterStep>) -> Seq<StepModel> {
    steps.map_values(|step: RouterStep| step@)
}

/// The router, if any, that a slot holds.
pub open spec fn slot_view(slot: Option<RouterSpec>) -> Option<RouterModel> {
    match slot {
        Some(spec) => Some(spec@),
        None => None,
    }
}

/// The enabled ones among some backends.
pub open spec fn enabled_ones(backends: Seq<BackendConf>) -> Seq<BackendConf> {
    backends.filter(|b: BackendConf| b.enabled)
}

/// The router over the enabled ones among some backends: there is none if none is enabled.
pub open spec fn router_over(backends: Seq<BackendConf>, strategy: Strategy) -> Option<
    RouterModel,
> {
    if enabled_ones(backends).len() == 0 {
        None
    } else {
        Some(RouterModel { backends: enabled_ones(backends), strategy })
    }
}

/// The steps that exchange the router in a slot. A new router takes the place of the old one once
/// the health of its backends is known, and the old one is stopped after that.
pub open spec fn exchange_steps(
    slot: RouterSlot,
    before: Option<RouterModel>,
    after: Option<RouterModel>,
) -> Seq<StepModel> {
    let create = match after {
        Some(spec) => seq![StepModel::Create(spec), StepModel::AwaitHealth],
        None => Seq::empty(),
    };
    let stop = match before {
        Some(_) => seq![StepModel::StopOld(slot)],
        None => Seq::empty(),
    };
    create + seq![StepModel::Install(slot)] + stop
}

/// Filters out disabled backends.
fn keep_enabled(backends: &Vec<BackendConf>) -> (enabled: Vec<BackendConf>)
    ensures
        enabled@ == enabled_ones(backends@),
{
    let mut enabled: Vec<BackendConf> = Vec::new();
    let mut i: usize = 0;
    proof {
        reveal(Seq::filter);
    }
    while i < backends.len()
        invariant
            i <= backends.len(),
            enabled@ == enabled_ones(backends@.take(i as int)),
        decreases backends.len() - i,
    {
        proof {
            reveal(Seq::filter);
            assert(backends@.take(i + 1).drop_last() =~= backends@.take(i as int));
        }
        if backends[i].enabled {
            enabled.push(backends[i].clone());
        }
        i += 1;
    }
    assert(backends@.take(i as int) =~= backends@);
    enabled
}

/// Manages backends configuration.
#[derive(Debug)]
pub struct BackendManager {
    config: Config,
    router: Option<RouterSpec>,
    router_fallback: Option<RouterSpec>,
}

/// The configuration and the two routers.
#[verifier::ext_equal]
pub struct ManagerModel {
    pub config: ConfigModel,
    pub router: Option<RouterModel>,
    pub router_fallback: Option<RouterModel>,
}

impl View for BackendManager {
    type V = ManagerModel;

    closed spec fn view(&self) -> ManagerModel {
        ManagerModel {
            config: self.config@,
            router: slot_view(self.router),
            router_fallback: slot_view(self.router_fallback),
        }
    }
}

impl ManagerModel {
    /// The state in which a configuration is in force.
    pub open spec fn in_force(config: ConfigModel) -> ManagerModel {
        ManagerModel {
            config,
            router: router_over(config.backends, config.strategy),
            router_fallback: router_over(config.fallback_backends(), config.strategy),
        }
    }

    /// No two backends share a name, and the routers are those over the enabled backends.
    pub open spec fn wf(self) -> bool {
        &&& self.config.names_unique()
        &&& self == ManagerModel::in_force(self.config)
    }

    /// The steps that bring another configuration into force: first the main router is exchanged,
    /// then the fallback one.
    pub open spec fn steps_to(self, config: ConfigModel) -> Seq<StepModel> {
        let after = ManagerModel::in_force(config);
        exchange_steps(RouterSlot::Main, self.router, after.router) + exchange_steps(
            RouterSlot::Fallback,
            self.router_fallback,
            after.router_fallback,
        )
    }
}

/// Exchanges the router in a slot for the one over some backends.
fn update_router(
    slot: RouterSlot,
    router: &mut Option<RouterSpec>,
    backends: Vec<BackendConf>,
    strategy: Strategy,
    steps: &mut Vec<RouterStep>,
)
    ensures
        slot_view(*final(router)) == (if backends@.len() == 0 {
            None::<RouterModel>
        } else {
            Some(RouterModel { backends: backends@, strategy })
        }),
        steps_view(final(steps)@) == steps_view(old(steps)@) + exchange_steps(
            slot,
            slot_view(*old(router)),
            slot_view(*final(router)),
        ),
{
    let had_router: bool = router.is_some();
    let ghost before = steps_view(steps@);
    let ghost old_router = slot_view(*router);
    let router_new: Option<RouterSpec> = if backends.len() == 0 {
        None
    } else {
        Some(RouterSpec { backends, strategy })
    };
    match &router_new {
        Some(spec) => {
            steps.push(RouterStep::Create(spec.clone()));
            steps.push(RouterStep::AwaitHealth);
        },
        None => {},
    }
    steps.push(RouterStep::Install(slot));
    if had_router {
        steps.push(RouterStep::StopOld(slot));
    }
    *router = router_new;
    assert(steps_view(steps@) =~= before + exchange_steps(slot, old_router, slot_view(*router)));
}

impl BackendManager {
    /// A manager of no backends.
    pub fn new() -> (manager: BackendManager)
        ensures
            manager@.wf(),
            manager@.config == (ConfigModel {
                strategy: Strategy::LeastOutstandingRequests,
                backends: Seq::empty(),
                fallback: None,
            }),
            manager@.router is None,
            manager@.router_fallback is None,
    {
        proof {
            reveal(Seq::filter);
        }
        BackendManager { config: Config::default(), router: None, router_fallback: None }
    }

    /// Brings the current configuration into force.
    pub fn apply(&mut self) -> (steps: Vec<RouterStep>)
        ensures
            final(self)@ == ManagerModel::in_force(old(self)@.config),
            steps_view(steps@) == old(self)@.steps_to(old(self)@.config),
            final(self)@.config == old(self)@.config,
            final(self)@.router matches Some(router) ==> router.strategy
                == old(self)@.config.strategy && router.backends
                == old(self)@.config.backends.filter(|b: BackendConf| b.enabled),
            final(self)@.router_fallback matches Some(router) ==> router.strategy
                == old(self)@.config.strategy && old(self)@.config.fallback is Some
                && router.backends == old(self)@.config.fallback->0.filter(
                |b: BackendConf| b.enabled,
            ),
    {
        let ghost before = self@;
        let backends_enabled: Vec<BackendConf> = keep_enabled(&self.config.backends);
        let backends_fallback_enabled: Vec<BackendConf> = match &self.config.fallback {
            Some(fallback) => keep_enabled(fallback),
            None => Vec::new(),
        };
        proof {
            reveal(Seq::filter);
            assert(backends_fallback_enabled@ =~= enabled_ones(before.config.fallback_backends()));
        }
        let strategy: Strategy = self.config.strategy;
        let mut steps: Vec<RouterStep> = Vec::new();
        assert(steps_view(steps@) =~= Seq::empty());
        update_router(RouterSlot::Main, &mut self.router, backends_enabled, strategy, &mut steps);
        update_router(
            RouterSlot::Fallback,
            &mut self.router_fallback,
            backends_fallback_enabled,
            strategy,
            &mut steps,
        );
        assert(steps_view(steps@) =~= before.steps_to(before.config));
        steps
    }

    /// Replaces the current config with the provided one.
    pub fn set_config(&mut self, config_new: Config) -> (result: Result<
        Vec<RouterStep>,
        BackendError,
    >)
        ensures
            match result {
                Ok(steps) => {
                    &&& config_new@.names_unique()
                    &&& final(self)@ == ManagerModel::in_force(config_new@)
                    &&& steps_view(steps@) == old(self)@.steps_to(config_new@)
                },
                Err(e) => {
                    &&& !config_new@.names_unique()
                    &&& e == BackendError::NonUniqueNames
                    &&& final(self)@ == old(self)@
                },
            },
            old(self)@.wf() ==> final(self)@.wf(),
            result is Ok ==> final(self)@.config == config_new@,
            result is Ok && final(self)@.router is Some ==> final(self)@.router->0.strategy
                == config_new.strategy && final(self)@.router->0.backends
                == config_new.backends@.filter(|b: BackendConf| b.enabled),
            result is Ok && final(self)@.router_fallback is Some
                ==> final(self)@.router_fallback->0.strategy == config_new.strategy,
    {
        if !config_new.has_unique_names() {
            return Err(BackendError::NonUniqueNames);
        }
        self.config = config_new;
        Ok(self.apply())
    }

    /// Takes over the config that was loaded from the file, unless loading it failed.
    pub fn load_config(&mut self, loaded: Result<Config, BackendError>) -> (result: Result<
        Vec<RouterStep>,
        BackendError,
    >)
        ensures
            match (loaded, result) {
                (Ok(config), Ok(steps)) => {
                    &&& config@.names_unique()
                    &&& final(self)@ == ManagerModel::in_force(config@)
                    &&& steps_view(steps@) == old(self)@.steps_to(config@)
                },
                (Ok(config), Err(e)) => {
                    &&& !config@.names_unique()
                    &&& e == BackendError::NonUniqueNames
                    &&& final(self)@ == old(self)@
                },
                (Err(cause), Err(e)) => e == cause && final(self)@ == old(self)@,
                (Err(_), Ok(_)) => false,
            },
            old(self)@.wf() ==> final(self)@.wf(),
    {
        match loaded {
            Ok(config) => self.set_config(config),
            Err(e) => Err(e),
        }
    }

    /// Returns the current config.
    pub fn get_config(&self) -> (config: Config)
        ensures
            config@ == self@.config,
    {
        self.config.clone()
    }

    /// Enables or disables the given backend.
    pub fn set_backend_state(&mut self, name: String, enabled: bool) -> (result: Result<
        Vec<RouterStep>,
        BackendError,
    >)
        ensures
            match (find_backend(old(self)@.config.backends, name@), result) {
                (Some(i), Ok(steps)) => {
                    let config = old(self)@.config.with_backend_state(i, enabled);
                    &&& final(self)@ == ManagerModel::in_force(config)
                    &&& steps_view(steps@) == old(self)@.steps_to(config)
                },
                (None, Err(e)) => e == BackendError::NotFound(name) && final(self)@ == old(self)@,
                _ => false,
            },
            old(self)@.wf() ==> final(self)@.wf(),
    {
        let ghost before = self@.config;
        let ghost names = backend_names(before.backends);
        let mut i: usize = 0;
        while i < self.config.backends.len()
            invariant
                i <= self.config.backends.len(),
                before == self.config@,
                before == old(self)@.config,
                self@ == old(self)@,
                names == backend_names(before.backends),
                forall|j: int| 0 <= j < i ==> #[trigger] names[j] != name@,
            decreases self.config.backends.len() - i,
        {
            if text::same_text(self.config.backends[i].name.as_str(), name.as_str()) {
                proof {
                    first_is_found(before.backends, name@, i as int);
                    if old(self)@.wf() {
                        states_keep_names(before, i as int, enabled);
                    }
                }
                let mut backend: BackendConf = self.config.backends[i].clone();
                backend.enabled = enabled;
                self.config.backends.set(i, backend);
                assert(self.config@ =~= before.with_backend_state(i as int, enabled));
                return Ok(self.apply());
            }
            i += 1;
        }
        proof {
            names.index_of_first_ensures(name@);
        }
        Err(BackendError::NotFound(name))
    }

    /// Get the main or the fallback router: the main one only if it has healthy backends,
    /// otherwise the fallback one, if there is one.
    pub fn get_backend_router<R>(main: Option<R>, main_healthy: usize, fallback: Option<R>) -> (router:
        Option<R>)
        ensures
            router == (if main is Some && main_healthy > 0 {
                main
            } else {
                fallback
            }),
            router == chosen_router(main, main_healthy, fallback),
    {
        if main.is_some() && main_healthy > 0 {
            main
        } else {
            fallback
        }
    }

    /// Get a list of healthy nodes: those of the main router, if there is one.
    pub fn get_healthy_nodes<N>(main_healthy: Option<Vec<N>>) -> (nodes: Vec<N>)
        ensures
            nodes@ == (match main_healthy {
                Some(nodes) => nodes@,
                None => Seq::empty(),
            }),
    {
        match main_healthy {
            Some(nodes) => nodes,
            None => Vec::new(),
        }
    }

    /// Whether all nodes have left the state of unknown health.
    pub fn wait_healthchecks(states: &Vec<TargetState>) -> (done: bool)
        ensures
            done == !states@.contains(TargetState::Unknown),
            done == all_known(states@),
    {
        let mut i: usize = 0;
        while i < states.len()
            invariant
                i <= states.len(),
                forall|j: int| 0 <= j < i ==> #[trigger] states@[j] != TargetState::Unknown,
            decreases states.len() - i,
        {
            if states[i] == TargetState::Unknown {
                return false;
            }
            i += 1;
        }
        true
    }
}

/// The router that requests go to: the main one only if it has healthy backends, otherwise the
/// fallback one, if there is one.
pub open spec fn chosen_router<R>(main: Option<R>, main_healthy: usize, fallback: Option<R>) -> Option<
    R,
> {
    if main is Some && main_healthy > 0 {
        main
    } else {
        fallback
    }
}

/// No backend is in an unknown state of health.
pub open spec fn all_known(states: Seq<TargetState>) -> bool {
    !states.contains(TargetState::Unknown)
}

/// The names of some backends.
pub open spec fn backend_names(backends: Seq<BackendConf>) -> Seq<Seq<char>> {
    backends.map_values(|b: BackendConf| b.name@)
}

/// The place of the first backend with a name.
pub open spec fn find_backend(backends: Seq<BackendConf>, name: Seq<char>) -> Option<int> {
    backend_names(backends).index_of_first(name)
}

impl ConfigModel {
    /// The configuration in which one of the main backends is enabled or disabled.
    pub open spec fn with_backend_state(self, i: int, enabled: bool) -> ConfigModel {
        ConfigModel {
            strategy: self.strategy,
            backends: self.backends.update(i, BackendConf { enabled, ..self.backends[i] }),
            fallback: self.fallback,
        }
    }
}

/// The first backend with a name is the one that is found.
proof fn first_is_found(backends: Seq<BackendConf>, name: Seq<char>, i: int)
    requires
        0 <= i < backends.len(),
        backends[i].name@ == name,
        forall|j: int| 0 <= j < i ==> #[trigger] backend_names(backends)[j] != name,
    ensures
        find_backend(backends, name) == Some(i),
{
    let names = backend_names(backends);
    assert(names[i] == name);
    names.index_of_first_ensures(name);
}

/// Enabling or disabling a backend keeps all names.
proof fn states_keep_names(config: ConfigModel, i: int, enabled: bool)
    requires
        0 <= i < config.backends.len(),
    ensures
        config.with_backend_state(i, enabled).names() == config.names(),
{
    assert(config.with_backend_state(i, enabled).names() =~= config.names());
}

/// How a health check went.
#[derive(Clone, Copy, Debug, PartialEq, Eq)]
pub enum ProbeOutcome {
    /// No answer came in time.
    TimedOut,
    /// The request failed.
    Failed,
    /// The backend answered with a status code.
    Answered(u16),
}

/// Decides on the health of backends.
#[derive(Clone, Copy, Debug)]
pub struct BackendHealthChecker {
    timeout: TimeSpan,
}

impl BackendHealthChecker {
    pub closed spec fn timeout_view(self) -> TimeSpan {
        self.timeout
    }

    pub fn new(timeout: TimeSpan) -> (checker: BackendHealthChecker)
        ensures
            checker.timeout_view() == timeout,
    {
        BackendHealthChecker { timeout }
    }

    /// How long to wait for the answer to a health check.
    pub fn timeout(&self) -> (timeout: TimeSpan)
        ensures
            timeout == self.timeout_view(),
    {
        self.timeout
    }

    /// The health of a backend after a health check: it is healthy if and only if it answered in
    /// time with a status code that means success.
    pub open spec fn state_after(outcome: ProbeOutcome) -> TargetState {
        match outcome {
            ProbeOutcome::Answered(status) if 200 <= status < 300 => TargetState::Healthy,
            _ => TargetState::Degraded,
        }
    }

    /// The health of a backend after a health check: it is healthy if and only if it answered in
    /// time with a status code that means success.
    pub fn check(&self, outcome: ProbeOutcome) -> (state: TargetState)
        ensures
            state == (match outcome {
                ProbeOutcome::Answered(status) if 200 <= status < 300 => TargetState::Healthy,
                _ => TargetState::Degraded,
            }),
            state == BackendHealthChecker::state_after(outcome),
    {
        match outcome {
            ProbeOutcome::Answered(status) => {
                if 200 <= status && status < 300 {
                    TargetState::Healthy
                } else {
                    TargetState::Degraded
                }
            },
            _ => TargetState::Degraded,
        }
    }
}

/// The version of HTTP in which a request is sent.
#[derive(Clone, Copy, Debug, PartialEq, Eq, Structural)]
pub enum HttpVersion {
    Http11,
}

/// How a request is sent to a backend: under a URI, which ends with a path and its query, and in
/// a version of HTTP.
#[derive(Debug, PartialEq, Eq)]
pub struct Outgoing {
    pub uri: String,
    pub path_and_query: String,
    pub version: HttpVersion,
}

/// The path and the query that a request asks for, or the default path if it names none.
pub open spec fn requested_path(path_and_query: Option<&str>) -> Seq<char> {
    match path_and_query {
        Some(path) => path@,
        None => DEFAULT_PATH@,
    }
}

/// A path that begins with a slash, and its query, stand in a URI as they are, unless there is a
/// fragment to cut off.
proof fn paths_are_kept(path: Seq<char>)
    ensures
        path.len() > 0 && path[0] == '/' && !path.contains('#') ==> uri::target_text(path) == path,
{
    path.index_of_first_ensures('#');
}

/// Directs requests to backends.
#[derive(Clone, Copy, Debug)]
pub struct RequestExecutor;

impl RequestExecutor {
    /// How a backend gets a request: on its own server, with the path and the query that the
    /// request asks for. The version is HTTP/1.1, since a request in HTTP/2 could not be sent over
    /// a link in HTTP/1.1. The backend is stored in the request context.
    pub fn execute(
        &self,
        backend: &Backend,
        path_and_query: Option<&str>,
        context: &mut RequestContext,
    ) -> (outgoing: Result<Outgoing, InvalidUri>)
        ensures
            outgoing is Ok == uri::uri_builds(
                backend.url@.scheme,
                backend.url@.authority,
                requested_path(path_and_query),
            ),
            outgoing matches Ok(out) ==> {
                &&& out.uri@ == uri::uri_text(
                    backend.url@.scheme,
                    backend.url@.authority,
                    requested_path(path_and_query),
                )
                &&& out.path_and_query@ == requested_path(path_and_query)
                &&& out.version == HttpVersion::Http11
            },
            path_and_query is Some && outgoing is Ok ==> {
                let path = path_and_query->0@;
                let out = outgoing->Ok_0;
                &&& out.path_and_query@ == path
                &&& path.len() > 0 && path[0] == '/' && !path.contains('#') ==> out.uri@
                    == backend.url@.scheme + "://"@ + backend.url@.authority + path
            },
            path_and_query is None && outgoing is Ok ==> {
                let out = outgoing->Ok_0;
                &&& out.path_and_query@ == "/"@
                &&& out.uri@ == backend.url@.scheme + "://"@ + backend.url@.authority + "/"@
            },
            *final(context) == (RequestContext { backend: Some(*backend), ..*old(context) }),
    {
        context.backend = Some(backend.clone());
        let path: &str = match path_and_query {
            Some(path) => path,
            None => DEFAULT_PATH,
        };
        proof {
            reveal_strlit("/");
            paths_are_kept(path@);
            assert(!DEFAULT_PATH@.contains('#'));
        }
        match backend.url.with_path(path) {
            Ok(uri) => Ok(
                Outgoing { uri, path_and_query: path.to_owned(), version: HttpVersion::Http11 },
            ),
            Err(e) => Err(e),
        }
    }
}

/// A request keeps the path and the query that it asks for, character for character, and asks for
/// a slash if it names none. The URI under which it is sent is the scheme and the authority of the
/// backend followed by that path and query, where they begin with a slash and hold no fragment.
pub proof fn requests_keep_their_path(
    scheme: Seq<char>,
    authority: Seq<char>,
    path_and_query: Option<&str>,
)
    ensures
        path_and_query matches Some(path) ==> requested_path(path_and_query) == path@,
        path_and_query is None ==> requested_path(path_and_query) == seq!['/'],
        ({
            let path = requested_path(path_and_query);
            path.len() > 0 && path[0] == '/' && !path.contains('#') ==> uri::uri_text(
                scheme,
                authority,
                path,
            ) == scheme + "://"@ + authority + path
        }),
{
    reveal_strlit("/");
    paths_are_kept(requested_path(path_and_query));
    assert("/"@ =~= seq!['/']);
}

/// A backend keeps the name and the URL that it is configured with, and its health is asked for on
/// the server of that URL, under `/health`, whatever the path of the URL is.
pub proof fn backends_stand_for_their_config(backend: Backend, conf: BackendConf)
    requires
        backend.stands_for(conf),
    ensures
        backend.name@ == conf.name@,
        backend.url@ == conf.url@,
        backend.uri_health@ == conf.url@.scheme + "://"@ + conf.url@.authority + "/health"@,
        conf.is_usable() == uri::uri_builds(conf.url@.scheme, conf.url@.authority, "/health"@),
{
}

/// A router is made of as many backends as are configured, each in its place with its own name, URL
/// and weight.
pub proof fn routers_weigh_each_backend(
    list: Seq<(Backend, usize)>,
    backends: Seq<BackendConf>,
    i: int,
)
    requires
        weighs_backends(list, backends),
    ensures
        list.len() == backends.len(),
        0 <= i < list.len() ==> {
            &&& list[i].0.name@ == backends[i].name@
            &&& list[i].0.url@ == backends[i].url@
            &&& list[i].1 == backends[i].weight
        },
{
}

/// A backend is healthy exactly if it answered with a status code of the two hundreds.
pub proof fn only_success_is_healthy(outcome: ProbeOutcome)
    ensures
        BackendHealthChecker::state_after(outcome) == TargetState::Healthy <==> (outcome matches
            ProbeOutcome::Answered(status) && status / 100 == 2),
        BackendHealthChecker::state_after(outcome) != TargetState::Unknown,
{
}

/// Requests go to the main router exactly if it is there and has a healthy backend. Otherwise they
/// go to the fallback router, and to none exactly if there is none.
pub proof fn unhealthy_routers_are_passed_over<R>(
    main: Option<R>,
    main_healthy: usize,
    fallback: Option<R>,
)
    ensures
        main is Some && main_healthy >= 1 ==> chosen_router(main, main_healthy, fallback) == main,
        main is None || main_healthy == 0 ==> chosen_router(main, main_healthy, fallback)
            == fallback,
        chosen_router(main, main_healthy, fallback) is None <==> fallback is None && (main is None
            || main_healthy == 0),
{
}

/// The message of an error holds the name or the cause that the error comes with in full, after
/// the same words whatever it is.
pub proof fn backend_errors_hold_their_cause(one: String)
    ensures
        BackendError::NotFound(one).message() == "Backend not found: "@ + one@,
        BackendError::ReadConfig(one).message() == "unable to read backends config: "@ + one@,
        BackendError::ParseConfig(one).message() == "unable to parse backends config: "@ + one@,
        BackendError::EncodeConfig(one).message() == "unable to serialize config to YAML: "@ + one@,
        BackendError::SaveConfig(one).message() == "unable to save config to disk: "@ + one@,
        BackendError::NonUniqueNames.message() == "Non-unique backend names"@,
{
}

/// The wait for health checks is over exactly if every single backend is healthy or degraded.
pub proof fn every_health_check_is_awaited(states: Seq<TargetState>)
    ensures
        all_known(states) <==> forall|i: int|
            0 <= i < states.len() ==> #[trigger] states[i] == TargetState::Healthy || states[i]
                == TargetState::Degraded,
{
    if !all_known(states) {
        let i = choose|i: int| 0 <= i < states.len() && states[i] == TargetState::Unknown;
        assert(states[i] == TargetState::Unknown);
    }
}

/// A router can be set up exactly if the URI of a health check can be built for each backend.
pub proof fn routers_need_usable_backends(backends: Seq<BackendConf>)
    ensures
        all_usable(backends) <==> forall|i: int|
            0 <= i < backends.len() ==> uri::uri_builds(
                (#[trigger] backends[i]).url@.scheme,
                backends[i].url@.authority,
                "/health"@,
            ),
{
}

/// A list of steps is told step by step.
pub proof fn steps_are_told_one_by_one(steps: Seq<RouterStep>, i: int)
    ensures
        steps_view(steps).len() == steps.len(),
        0 <= i < steps.len() ==> steps_view(steps)[i] == steps[i]@,
{
}

} // verus!
