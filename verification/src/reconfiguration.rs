//! Laws of changing the configuration.

use vstd::prelude::*;

use crate::backend::{BackendConf, ConfigModel, ManagerModel, RouterModel, RouterSlot, StepModel};

verus! {

/// The routers in the course of a change: those in the two slots, the one that was created and is
/// not yet installed, whether the health of its backends is known, the one that was taken out of
/// a slot and still runs, and those that were stopped.
#[verifier::ext_equal]
pub struct Live {
    pub main: Option<RouterModel>,
    pub fallback: Option<RouterModel>,
    pub fresh: Option<RouterModel>,
    pub health_known: bool,
    pub retired: Option<RouterModel>,
    pub stopped: Seq<RouterModel>,
}

impl Live {
    /// The routers before a change.
    pub open spec fn resting(manager: ManagerModel) -> Live {
        Live {
            main: manager.router,
            fallback: manager.router_fallback,
            fresh: None,
            health_known: false,
            retired: None,
            stopped: Seq::empty(),
        }
    }

    /// The router in a slot.
    pub open spec fn slot(self, slot: RouterSlot) -> Option<RouterModel> {
        match slot {
            RouterSlot::Main => self.main,
            RouterSlot::Fallback => self.fallback,
        }
    }

    /// What a step does.
    pub open spec fn after(self, step: StepModel) -> Live {
        match step {
            StepModel::Create(spec) => Live { fresh: Some(spec), health_known: false, ..self },
            StepModel::AwaitHealth => Live { health_known: true, ..self },
            StepModel::Install(RouterSlot::Main) => Live {
                main: self.fresh,
                fresh: None,
                health_known: false,
                retired: self.main,
                ..self
            },
            StepModel::Install(RouterSlot::Fallback) => Live {
                fallback: self.fresh,
                fresh: None,
                health_known: false,
                retired: self.fallback,
                ..self
            },
            StepModel::StopOld(_) => Live {
                retired: None,
                stopped: match self.retired {
                    Some(router) => self.stopped.push(router),
                    None => self.stopped,
                },
                ..self
            },
        }
    }

    /// A step that is in order: no router is created while another one waits for its place, none
    /// is installed before the health of its backends is known or while another one has yet to be
    /// stopped, and only a router that is out of its slot is stopped.
    pub open spec fn permits(self, step: StepModel) -> bool {
        match step {
            StepModel::Create(_) => self.fresh is None && self.retired is None,
            StepModel::AwaitHealth => self.fresh is Some,
            StepModel::Install(_) => {
                &&& self.fresh is Some ==> self.health_known
                &&& self.retired is None
            },
            StepModel::StopOld(_) => self.retired is Some,
        }
    }

    /// What a number of steps do.
    pub open spec fn after_all(self, steps: Seq<StepModel>) -> Live
        decreases steps.len(),
    {
        if steps.len() == 0 {
            self
        } else {
            self.after(steps.first()).after_all(steps.drop_first())
        }
    }

    /// All of a number of steps are in order.
    pub open spec fn permits_all(self, steps: Seq<StepModel>) -> bool
        decreases steps.len(),
    {
        steps.len() == 0 || (self.permits(steps.first()) && self.after(steps.first()).permits_all(
            steps.drop_first(),
        ))
    }

    /// In the course of a number of steps a slot holds either of two routers and nothing else.
    pub open spec fn holds_throughout(
        self,
        steps: Seq<StepModel>,
        slot: RouterSlot,
        one: Option<RouterModel>,
        other: Option<RouterModel>,
    ) -> bool
        decreases steps.len(),
    {
        &&& self.slot(slot) == one || self.slot(slot) == other
        &&& steps.len() == 0 || self.after(steps.first()).holds_throughout(
            steps.drop_first(),
            slot,
            one,
            other,
        )
    }
}

/// The list of a router, or of none.
pub open spec fn listed(router: Option<RouterModel>) -> Seq<RouterModel> {
    match router {
        Some(router) => seq![router],
        None => Seq::empty(),
    }
}

/// A list of steps can be taken in two parts.
proof fn steps_in_parts(live: Live, a: Seq<StepModel>, b: Seq<StepModel>)
    ensures
        live.after_all(a + b) == live.after_all(a).after_all(b),
        live.permits_all(a + b) == (live.permits_all(a) && live.after_all(a).permits_all(b)),
    decreases a.len(),
{
    if a.len() == 0 {
        assert(a + b =~= b);
    } else {
        assert((a + b).drop_first() =~= a.drop_first() + b);
        assert((a + b).first() == a.first());
        steps_in_parts(live.after(a.first()), a.drop_first(), b);
    }
}

/// What a slot holds throughout both parts of a list of steps it holds throughout the list.
proof fn held_in_parts(
    live: Live,
    a: Seq<StepModel>,
    b: Seq<StepModel>,
    slot: RouterSlot,
    one: Option<RouterModel>,
    other: Option<RouterModel>,
)
    requires
        live.holds_throughout(a, slot, one, other),
        live.after_all(a).holds_throughout(b, slot, one, other),
    ensures
        live.holds_throughout(a + b, slot, one, other),
    decreases a.len(),
{
    if a.len() == 0 {
        assert(a + b =~= b);
    } else {
        assert((a + b).drop_first() =~= a.drop_first() + b);
        assert((a + b).first() == a.first());
        held_in_parts(live.after(a.first()), a.drop_first(), b, slot, one, other);
    }
}

/// The exchange of one router does what it should.
proof fn exchange_works(
    live: Live,
    slot: RouterSlot,
    before: Option<RouterModel>,
    after: Option<RouterModel>,
)
    requires
        live.slot(slot) == before,
        live.fresh is None,
        live.retired is None,
    ensures
        ({
            let steps = crate::backend::exchange_steps(slot, before, after);
            let end = live.after_all(steps);
            let other = match slot {
                RouterSlot::Main => RouterSlot::Fallback,
                RouterSlot::Fallback => RouterSlot::Main,
            };
            &&& live.permits_all(steps)
            &&& end.slot(slot) == after
            &&& end.slot(other) == live.slot(other)
            &&& end.fresh is None
            &&& end.retired is None
            &&& end.stopped == live.stopped + listed(before)
            &&& live.holds_throughout(steps, slot, before, after)
            &&& live.holds_throughout(steps, other, live.slot(other), live.slot(other))
        }),
{
    reveal_with_fuel(Live::after_all, 5);
    reveal_with_fuel(Live::permits_all, 5);
    reveal_with_fuel(Live::holds_throughout, 5);
    let steps = crate::backend::exchange_steps(slot, before, after);
    match (before, after) {
        (Some(b), Some(a)) => {
            assert(steps =~= seq![
                StepModel::Create(a),
                StepModel::AwaitHealth,
                StepModel::Install(slot),
                StepModel::StopOld(slot),
            ]);
        },
        (None, Some(a)) => {
            assert(steps =~= seq![
                StepModel::Create(a),
                StepModel::AwaitHealth,
                StepModel::Install(slot),
            ]);
        },
        (Some(b), None) => {
            assert(steps =~= seq![StepModel::Install(slot), StepModel::StopOld(slot)]);
        },
        (None, None) => {
            assert(steps =~= seq![StepModel::Install(slot)]);
        },
    }
    assert(live.after_all(steps).stopped =~= live.stopped + listed(before));
}

/// A change of the configuration ends with its routers in the slots. Every step of it is in
/// order: a new router is installed only once the health of its backends is known, and an old one
/// is stopped only once it is out of its slot. All old routers are stopped, and no others. In the
/// meantime each slot holds its old router or its new one.
pub proof fn changes_are_orderly(manager: ManagerModel, config: ConfigModel)
    ensures
        ({
            let live = Live::resting(manager);
            let steps = manager.steps_to(config);
            let end = live.after_all(steps);
            let target = ManagerModel::in_force(config);
            &&& live.permits_all(steps)
            &&& end.main == target.router
            &&& end.fallback == target.router_fallback
            &&& end.fresh is None
            &&& end.retired is None
            &&& end.stopped == listed(manager.router) + listed(manager.router_fallback)
            &&& live.holds_throughout(steps, RouterSlot::Main, manager.router, target.router)
            &&& live.holds_throughout(
                steps,
                RouterSlot::Fallback,
                manager.router_fallback,
                target.router_fallback,
            )
        }),
{
    let live = Live::resting(manager);
    let target = ManagerModel::in_force(config);
    let first = crate::backend::exchange_steps(RouterSlot::Main, manager.router, target.router);
    let second = crate::backend::exchange_steps(
        RouterSlot::Fallback,
        manager.router_fallback,
        target.router_fallback,
    );
    steps_in_parts(live, first, second);
    exchange_works(live, RouterSlot::Main, manager.router, target.router);
    let middle = live.after_all(first);
    exchange_works(
        middle,
        RouterSlot::Fallback,
        manager.router_fallback,
        target.router_fallback,
    );
    assert(middle.stopped =~= listed(manager.router));
    holds_either(
        live,
        first,
        RouterSlot::Fallback,
        manager.router_fallback,
        target.router_fallback,
    );
    holds_either_last(middle, second, RouterSlot::Main, manager.router, target.router);
    held_in_parts(live, first, second, RouterSlot::Main, manager.router, target.router);
    held_in_parts(
        live,
        first,
        second,
        RouterSlot::Fallback,
        manager.router_fallback,
        target.router_fallback,
    );
}

/// A slot that holds one router throughout holds it or another one throughout.
proof fn holds_either(
    live: Live,
    steps: Seq<StepModel>,
    slot: RouterSlot,
    one: Option<RouterModel>,
    other: Option<RouterModel>,
)
    requires
        live.holds_throughout(steps, slot, one, one),
    ensures
        live.holds_throughout(steps, slot, one, other),
    decreases steps.len(),
{
    if steps.len() > 0 {
        holds_either(live.after(steps.first()), steps.drop_first(), slot, one, other);
    }
}

/// A slot that holds one router throughout holds another one or it throughout.
proof fn holds_either_last(
    live: Live,
    steps: Seq<StepModel>,
    slot: RouterSlot,
    one: Option<RouterModel>,
    other: Option<RouterModel>,
)
    requires
        live.holds_throughout(steps, slot, other, other),
    ensures
        live.holds_throughout(steps, slot, one, other),
    decreases steps.len(),
{
    if steps.len() > 0 {
        holds_either_last(live.after(steps.first()), steps.drop_first(), slot, one, other);
    }
}

/// A configuration in which no two backends share a name is well formed once it is in force, and
/// it is the one that is then read back.
pub proof fn unique_configs_take_force(config: ConfigModel)
    requires
        config.names_unique(),
    ensures
        ManagerModel::in_force(config).wf(),
        ManagerModel::in_force(config).config == config,
{
}

/// A configuration that was in force can be loaded again, whatever was in force since: no two of
/// its backends share a name, and it brings back the configuration and the routers of then.
pub proof fn former_configs_load_again(former: ManagerModel, loaded: ConfigModel)
    requires
        former.wf(),
        loaded == former.config,
    ensures
        loaded.names_unique(),
        ManagerModel::in_force(loaded).config == former.config,
        ManagerModel::in_force(loaded) == former,
{
}

/// Filtering keeps exactly the backends that are enabled.
proof fn enabled_ones_are_enabled(backends: Seq<BackendConf>)
    ensures
        forall|b: BackendConf| #[trigger]
            crate::backend::enabled_ones(backends).contains(b) == (backends.contains(b)
                && b.enabled),
    decreases backends.len(),
{
    reveal(Seq::filter);
    if backends.len() > 0 {
        enabled_ones_are_enabled(backends.drop_last());
        let rest = backends.drop_last();
        let last = backends.last();
        let kept = crate::backend::enabled_ones(rest);
        assert(backends =~= rest.push(last));
        assert forall|b: BackendConf| #[trigger]
            crate::backend::enabled_ones(backends).contains(b) == (backends.contains(b)
                && b.enabled) by {
            vstd::seq_lib::lemma_seq_contains_after_push(rest, last, b);
            vstd::seq_lib::lemma_seq_contains_after_push(kept, last, b);
        }
    }
}

/// A router sends requests to the enabled backends of its part of the configuration and to no
/// others, and there is one if and only if one of them is enabled.
pub proof fn routers_use_enabled_backends(backends: Seq<BackendConf>, strategy: crate::backend::Strategy)
    ensures
        match crate::backend::router_over(backends, strategy) {
            Some(router) => {
                &&& router.strategy == strategy
                &&& router.backends.len() > 0
                &&& forall|b: BackendConf| #[trigger]
                    router.backends.contains(b) == (backends.contains(b) && b.enabled)
            },
            None => forall|b: BackendConf| #[trigger] backends.contains(b) ==> !b.enabled,
        },
{
    enabled_ones_are_enabled(backends);
    let kept = crate::backend::enabled_ones(backends);
    if kept.len() == 0 {
        assert forall|b: BackendConf| #[trigger] backends.contains(b) implies !b.enabled by {
            assert(!kept.contains(b));
        }
    }
}

/// Enabling or disabling a backend keeps every name, every other backend, the fallback backends
/// and their router. Doing so twice is doing so once, and going back restores the configuration.
pub proof fn states_change_one_backend(config: ConfigModel, name: Seq<char>, enabled: bool)
    requires
        crate::backend::find_backend(config.backends, name) is Some,
    ensures
        ({
            let i = crate::backend::find_backend(config.backends, name)->0;
            let changed = config.with_backend_state(i, enabled);
            &&& 0 <= i < config.backends.len()
            &&& config.backends[i].name@ == name
            &&& changed.backends[i].enabled == enabled
            &&& changed.backends[i].name == config.backends[i].name
            &&& changed.backends[i].url == config.backends[i].url
            &&& changed.backends[i].weight == config.backends[i].weight
            &&& forall|j: int| 0 <= j < i ==> (#[trigger] config.backends[j]).name@ != name
            &&& changed.names() == config.names()
            &&& crate::backend::find_backend(changed.backends, name) == Some(i)
            &&& changed.backends.len() == config.backends.len()
            &&& forall|j: int|
                0 <= j < config.backends.len() && j != i ==> #[trigger] changed.backends[j]
                    == config.backends[j]
            &&& changed.strategy == config.strategy
            &&& changed.fallback == config.fallback
            &&& ManagerModel::in_force(changed).router_fallback == ManagerModel::in_force(
                config,
            ).router_fallback
            &&& changed.with_backend_state(i, enabled) == changed
            &&& changed.with_backend_state(i, config.backends[i].enabled) == config
        }),
{
    let names = crate::backend::backend_names(config.backends);
    names.index_of_first_ensures(name);
    let i = crate::backend::find_backend(config.backends, name)->0;
    let changed = config.with_backend_state(i, enabled);
    assert forall|j: int| 0 <= j < i implies (#[trigger] config.backends[j]).name@ != name by {
        assert(names[j] != name);
    }
    assert(crate::backend::backend_names(changed.backends) =~= names);
    assert(changed.names() =~= config.names());
    assert(changed.with_backend_state(i, enabled) =~= changed);
    assert(changed.with_backend_state(i, config.backends[i].enabled) =~= config);
}

/// The routers that a configuration brings into force. Both spread requests by the strategy that
/// it names. The main one is over the enabled ones among its backends, in their order, and is there
/// exactly if one is enabled. The fallback one is over the enabled ones among its fallback
/// backends in the same way.
pub proof fn routers_follow_the_config(config: ConfigModel)
    ensures
        ({
            let manager = ManagerModel::in_force(config);
            let enabled = |b: BackendConf| b.enabled;
            &&& manager.config == config
            &&& manager.router is Some <==> exists|i: int|
                0 <= i < config.backends.len() && (#[trigger] config.backends[i]).enabled
            &&& manager.router matches Some(router) ==> {
                &&& router.strategy == config.strategy
                &&& router.backends == config.backends.filter(enabled)
            }
            &&& manager.router_fallback is Some <==> config.fallback is Some && exists|i: int|
                0 <= i < config.fallback->0.len() && (#[trigger] config.fallback->0[i]).enabled
            &&& manager.router_fallback matches Some(router) ==> {
                &&& router.strategy == config.strategy
                &&& config.fallback is Some
                &&& router.backends == config.fallback->0.filter(enabled)
            }
        }),
{
    let enabled = |b: BackendConf| b.enabled;
    some_are_kept(config.backends);
    some_are_kept(config.fallback_backends());
    assert(crate::backend::enabled_ones(config.backends) =~= config.backends.filter(enabled));
    if config.fallback is Some {
        assert(crate::backend::enabled_ones(config.fallback->0) =~= config.fallback->0.filter(
            enabled,
        ));
    }
}

/// Filtering leaves something exactly if a backend is enabled.
proof fn some_are_kept(backends: Seq<BackendConf>)
    ensures
        crate::backend::enabled_ones(backends).len() > 0 <==> exists|i: int|
            0 <= i < backends.len() && (#[trigger] backends[i]).enabled,
{
    enabled_ones_are_enabled(backends);
    let kept = crate::backend::enabled_ones(backends);
    if kept.len() > 0 {
        assert(kept.contains(kept[0]));
        assert(backends.contains(kept[0]));
    }
    if exists|i: int| 0 <= i < backends.len() && (#[trigger] backends[i]).enabled {
        let i = choose|i: int| 0 <= i < backends.len() && (#[trigger] backends[i]).enabled;
        assert(backends.contains(backends[i]));
        assert(kept.contains(backends[i]));
    }
}

/// The enabled ones among some backends keep their order and their number: those of two lists
/// together are those of the one followed by those of the other, and a single backend is kept
/// exactly if it is enabled.
pub proof fn enabled_backends_keep_their_order(
    one: Seq<BackendConf>,
    other: Seq<BackendConf>,
    backend: BackendConf,
)
    ensures
        crate::backend::enabled_ones(one + other) == crate::backend::enabled_ones(one)
            + crate::backend::enabled_ones(other),
        crate::backend::enabled_ones(seq![backend]) == (if backend.enabled {
            seq![backend]
        } else {
            Seq::empty()
        }),
        crate::backend::enabled_ones(Seq::empty()) == Seq::<BackendConf>::empty(),
{
    Seq::filter_distributes_over_add(one, other, |b: BackendConf| b.enabled);
    reveal(Seq::filter);
    reveal_with_fuel(Seq::filter, 2);
    assert(seq![backend].drop_last() =~= Seq::empty());
    assert(crate::backend::enabled_ones(seq![backend]) =~= (if backend.enabled {
        seq![backend]
    } else {
        Seq::empty()
    }));
}

/// A configuration is accepted exactly if no two of its backends share a name: neither two of the
/// main ones, nor two of the fallback ones, nor a main one and a fallback one.
pub proof fn names_are_shared_by_no_two(config: ConfigModel)
    ensures
        config.names_unique() <==> {
            &&& forall|i: int, j: int|
                0 <= i < j < config.backends.len() ==> (#[trigger] config.backends[i]).name@ != (
                #[trigger] config.backends[j]).name@
            &&& config.fallback is Some ==> forall|i: int, j: int|
                0 <= i < j < config.fallback->0.len() ==> (#[trigger] config.fallback->0[i]).name@
                    != (#[trigger] config.fallback->0[j]).name@
            &&& config.fallback is Some ==> forall|i: int, j: int|
                0 <= i < config.backends.len() && 0 <= j < config.fallback->0.len() ==> (
                #[trigger] config.backends[i]).name@ != (#[trigger] config.fallback->0[j]).name@
        },
{
    let names = config.names();
    let main = config.backends;
    let rest = config.fallback_backends();
    let n = main.len() as int;
    assert forall|i: int| 0 <= i < n implies names[i] == (#[trigger] main[i]).name@ by {}
    assert forall|j: int| 0 <= j < rest.len() implies names[n + j] == (#[trigger] rest[j]).name@ by {}
    if config.names_unique() {
        assert forall|i: int, j: int| 0 <= i < j < main.len() implies (#[trigger] main[i]).name@
            != (#[trigger] main[j]).name@ by {
            assert(names[i] != names[j]);
        }
        assert forall|i: int, j: int| 0 <= i < j < rest.len() implies (#[trigger] rest[i]).name@
            != (#[trigger] rest[j]).name@ by {
            assert(names[n + i] != names[n + j]);
        }
        assert forall|i: int, j: int| 0 <= i < main.len() && 0 <= j < rest.len() implies (
        #[trigger] main[i]).name@ != (#[trigger] rest[j]).name@ by {
            assert(names[i] != names[n + j]);
        }
    } else {
        let (i, j) = choose|i: int, j: int|
            0 <= i < names.len() && 0 <= j < names.len() && i != j && names[i] == names[j];
        let (low, high) = if i < j {
            (i, j)
        } else {
            (j, i)
        };
        assert(names[low] == names[high]);
        if high < n {
            assert(main[low].name@ == main[high].name@);
        } else if low >= n {
            assert(rest[low - n].name@ == rest[high - n].name@);
        } else {
            assert(main[low].name@ == rest[high - n].name@);
        }
    }
}

/// A backend is not found exactly if no main backend has the name.
pub proof fn unknown_names_are_not_found(backends: Seq<BackendConf>, name: Seq<char>)
    ensures
        crate::backend::find_backend(backends, name) is None <==> forall|i: int|
            0 <= i < backends.len() ==> (#[trigger] backends[i]).name@ != name,
{
    let names = crate::backend::backend_names(backends);
    names.index_of_first_ensures(name);
    if crate::backend::find_backend(backends, name) is None {
        assert forall|i: int| 0 <= i < backends.len() implies (#[trigger] backends[i]).name@
            != name by {
            assert(names[i] == backends[i].name@);
            assert(!names.contains(name));
        }
    } else {
        let i = crate::backend::find_backend(backends, name)->0;
        assert(names[i] == backends[i].name@);
    }
}

/// A change takes no more steps than it needs: in each slot two to create a router and to wait for
/// its health, if there is a new one, one to install it or to clear the slot, and one to stop the
/// old router, if there was one.
pub proof fn changes_take_no_needless_steps(manager: ManagerModel, config: ConfigModel)
    ensures
        ({
            let target = ManagerModel::in_force(config);
            let created = |router: Option<RouterModel>| if router is Some {
                2int
            } else {
                0int
            };
            let stopped = |router: Option<RouterModel>| if router is Some {
                1int
            } else {
                0int
            };
            manager.steps_to(config).len() == 2 + created(target.router) + created(
                target.router_fallback,
            ) + stopped(manager.router) + stopped(manager.router_fallback)
        }),
{
}

/// What is told of a configuration and of a router is all there is to them.
pub proof fn configs_and_routers_are_told_in_full(
    config: crate::backend::Config,
    router: crate::backend::RouterSpec,
    slot: RouterSlot,
)
    ensures
        config@.strategy == config.strategy,
        config@.backends == config.backends@,
        config@.fallback is Some <==> config.fallback is Some,
        config@.fallback matches Some(fallback) ==> fallback == config.fallback->0@,
        router@.backends == router.backends@,
        router@.strategy == router.strategy,
        crate::backend::slot_view(Some(router)) == Some(router@),
        crate::backend::slot_view(None) is None,
        crate::backend::RouterStep::Create(router)@ == StepModel::Create(router@),
        crate::backend::RouterStep::AwaitHealth@ == StepModel::AwaitHealth,
        crate::backend::RouterStep::Install(slot)@ == StepModel::Install(slot),
        crate::backend::RouterStep::StopOld(slot)@ == StepModel::StopOld(slot),
{
}

} // verus!
