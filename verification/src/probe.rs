//! Concrete scenes and systems with fully specified effects.
//!
//! A [`ProbeScene`] records every lifecycle call it receives in an append-only
//! call log inside the shared store, so an embedding can observe which hooks
//! ran and in what order; its `update` and `handle_event` outcomes follow
//! plans configured up front. A [`ProbeSystem`] performs one small store
//! action whose declared access set is exactly the keys it touches. Both
//! discharge every obligation of their traits, so all the stack and scheduler
//! contracts compose on them.

use vstd::prelude::*;

use crate::ecs::System;
use crate::event::Event;
use crate::scene::{Context, Scene, Transition};
use crate::store::Store;

verus! {

/// Store key holding the call log's length.
pub const LOG_COUNT_KEY: u64 = 0x8000_0000_0000_0000;

/// Store key of the first call log slot; entry `n` lives at `LOG_SLOT_BASE + n`.
pub const LOG_SLOT_BASE: u64 = 0x8000_0000_0000_0001;

/// Calls beyond this many are no longer recorded.
pub const LOG_CAPACITY: u64 = 0x1000_0000;

/// Scene identifiers at or above this bound cannot be encoded in a log entry.
pub const MAX_SCENE_ID: u64 = 0x0100_0000_0000_0000;

/// Log code for a `start` call.
pub const HOOK_START: u64 = 1;

/// Log code for a `stop` call.
pub const HOOK_STOP: u64 = 2;

/// Log code for a `pause` call.
pub const HOOK_PAUSE: u64 = 3;

/// Log code for a `resume` call.
pub const HOOK_RESUME: u64 = 4;

/// Log code for an `update` call.
pub const HOOK_UPDATE: u64 = 5;

/// Log code for a `handle_event` call.
pub const HOOK_EVENT: u64 = 6;

/// The store after a hook call on scene `id` is recorded: while the log has
/// capacity and the id is encodable, the entry `id * 16 + hook` is appended
/// and the length advances; otherwise the store is left unchanged.
pub open spec fn logged(store: Map<u64, u64>, id: u64, hook: u64) -> Map<u64, u64> {
    let n = if store.dom().contains(LOG_COUNT_KEY) {
        store[LOG_COUNT_KEY]
    } else {
        0
    };
    if n < LOG_CAPACITY && id < MAX_SCENE_ID {
        store.insert((LOG_SLOT_BASE + n) as u64, (id * 16 + hook) as u64).insert(
            LOG_COUNT_KEY,
            (n + 1) as u64,
        )
    } else {
        store
    }
}

fn log_hook(context: &mut Context, id: u64, hook: u64)
    requires
        hook <= 15,
    ensures
        final(context).store@ == logged(old(context).store@, id, hook),
{
    let n = match context.store.get_resource(LOG_COUNT_KEY) {
        Option::Some(v) => v,
        Option::None => 0,
    };
    if n < LOG_CAPACITY && id < MAX_SCENE_ID {
        context.store.insert_resource(LOG_SLOT_BASE + n, id * 16 + hook);
        context.store.insert_resource(LOG_COUNT_KEY, n + 1);
    }
}

/// What a probe scene's next `update` or `handle_event` reports; the carried
/// identifier names the scene a `Push` or `Switch` would hand over.
#[derive(Clone, Copy, Debug, PartialEq, Eq, Structural)]
pub enum ScenePlan {
    Stay,
    Push(u64),
    Switch(u64),
    Pop,
    Quit,
}

/// A scene that records every hook call it receives in the store's call log
/// and reports the configured transitions. Each plan is consumed by the first
/// call that uses it, so a push happens once, not every frame.
#[derive(Clone, Copy, Debug, PartialEq, Eq, Structural)]
pub struct ProbeScene {
    pub id: u64,
    pub on_update: ScenePlan,
    pub on_event: ScenePlan,
}

impl ProbeScene {
    /// A scene with both plans `Stay`.
    pub fn new(id: u64) -> (scene: ProbeScene)
        ensures
            scene == (ProbeScene { id, on_update: ScenePlan::Stay, on_event: ScenePlan::Stay }),
    {
        ProbeScene { id, on_update: ScenePlan::Stay, on_event: ScenePlan::Stay }
    }

    /// A scene that reports the given transition from its first `update`.
    pub fn with_update_plan(id: u64, on_update: ScenePlan) -> (scene: ProbeScene)
        ensures
            scene == (ProbeScene { id, on_update, on_event: ScenePlan::Stay }),
    {
        ProbeScene { id, on_update, on_event: ScenePlan::Stay }
    }

    /// A scene that reports the given transition from its first `handle_event`.
    pub fn with_event_plan(id: u64, on_event: ScenePlan) -> (scene: ProbeScene)
        ensures
            scene == (ProbeScene { id, on_update: ScenePlan::Stay, on_event }),
    {
        ProbeScene { id, on_update: ScenePlan::Stay, on_event }
    }

    /// The transition a plan produces; a scene handed over by `Push` or
    /// `Switch` starts with both plans `Stay`.
    pub open spec fn plan_transition(plan: ScenePlan) -> Transition<ProbeScene> {
        match plan {
            ScenePlan::Stay => Transition::Stay,
            ScenePlan::Push(id) => Transition::Push(
                ProbeScene { id, on_update: ScenePlan::Stay, on_event: ScenePlan::Stay },
            ),
            ScenePlan::Switch(id) => Transition::Switch(
                ProbeScene { id, on_update: ScenePlan::Stay, on_event: ScenePlan::Stay },
            ),
            ScenePlan::Pop => Transition::Pop,
            ScenePlan::Quit => Transition::Quit,
        }
    }

    fn make_transition(plan: ScenePlan) -> (transition: Transition<ProbeScene>)
        ensures
            transition == Self::plan_transition(plan),
    {
        match plan {
            ScenePlan::Stay => Transition::Stay,
            ScenePlan::Push(id) => Transition::Push(ProbeScene::new(id)),
            ScenePlan::Switch(id) => Transition::Switch(ProbeScene::new(id)),
            ScenePlan::Pop => Transition::Pop,
            ScenePlan::Quit => Transition::Quit,
        }
    }
}

impl Scene for ProbeScene {
    open spec fn start_effect(self, store: Map<u64, u64>) -> (Self, Map<u64, u64>) {
        (self, logged(store, self.id, HOOK_START))
    }

    open spec fn stop_effect(self, store: Map<u64, u64>) -> (Self, Map<u64, u64>) {
        (self, logged(store, self.id, HOOK_STOP))
    }

    open spec fn pause_effect(self, store: Map<u64, u64>) -> (Self, Map<u64, u64>) {
        (self, logged(store, self.id, HOOK_PAUSE))
    }

    open spec fn resume_effect(self, store: Map<u64, u64>) -> (Self, Map<u64, u64>) {
        (self, logged(store, self.id, HOOK_RESUME))
    }

    open spec fn update_effect(self, store: Map<u64, u64>) -> (
        Self,
        Map<u64, u64>,
        Transition<Self>,
    ) {
        (
            ProbeScene { id: self.id, on_update: ScenePlan::Stay, on_event: self.on_event },
            logged(store, self.id, HOOK_UPDATE),
            Self::plan_transition(self.on_update),
        )
    }

    open spec fn event_effect(self, store: Map<u64, u64>, event: Event) -> (
        Self,
        Map<u64, u64>,
        Transition<Self>,
    ) {
        (
            ProbeScene { id: self.id, on_update: self.on_update, on_event: ScenePlan::Stay },
            logged(store, self.id, HOOK_EVENT),
            Self::plan_transition(self.on_event),
        )
    }

    fn start(&mut self, context: &mut Context) {
        log_hook(context, self.id, HOOK_START);
    }

    fn stop(&mut self, context: &mut Context) {
        log_hook(context, self.id, HOOK_STOP);
    }

    fn pause(&mut self, context: &mut Context) {
        log_hook(context, self.id, HOOK_PAUSE);
    }

    fn resume(&mut self, context: &mut Context) {
        log_hook(context, self.id, HOOK_RESUME);
    }

    fn update(&mut self, context: &mut Context) -> (transition: Transition<Self>) {
        log_hook(context, self.id, HOOK_UPDATE);
        let plan = self.on_update;
        self.on_update = ScenePlan::Stay;
        Self::make_transition(plan)
    }

    fn handle_event(&mut self, context: &mut Context, event: Event) -> (transition: Transition<
        Self,
    >) {
        log_hook(context, self.id, HOOK_EVENT);
        let plan = self.on_event;
        self.on_event = ScenePlan::Stay;
        Self::make_transition(plan)
    }
}

/// The store action a probe system performs.
#[derive(Clone, Copy, Debug, PartialEq, Eq, Structural)]
pub enum SystemAction {
    /// Writes `value` under `key`; writes `{key}`.
    Put { key: u64, value: u64 },
    /// Copies the resource under `from`, if any, to `to`; reads `{from}`,
    /// writes `{to}`.
    Copy { from: u64, to: u64 },
    /// Adds `amount` (wrapping) to the resource under `key`, a missing
    /// resource counting as zero; reads and writes `{key}`.
    Add { key: u64, amount: u64 },
}

/// A system performing one [`SystemAction`]; its declared access sets are
/// exactly the keys the action touches, which discharges the [`System`]
/// obligations.
#[derive(Clone, Copy, Debug, PartialEq, Eq, Structural)]
pub struct ProbeSystem {
    pub action: SystemAction,
}

impl ProbeSystem {
    pub fn new(action: SystemAction) -> (system: ProbeSystem)
        ensures
            system == (ProbeSystem { action }),
    {
        ProbeSystem { action }
    }
}

impl System for ProbeSystem {
    open spec fn reads(&self) -> Set<u64> {
        match self.action {
            SystemAction::Put { .. } => Set::empty(),
            SystemAction::Copy { from, .. } => set![from],
            SystemAction::Add { key, .. } => set![key],
        }
    }

    open spec fn writes(&self) -> Set<u64> {
        match self.action {
            SystemAction::Put { key, .. } => set![key],
            SystemAction::Copy { to, .. } => set![to],
            SystemAction::Add { key, .. } => set![key],
        }
    }

    open spec fn apply(&self, store: Map<u64, u64>) -> Map<u64, u64> {
        match self.action {
            SystemAction::Put { key, value } => store.insert(key, value),
            SystemAction::Copy { from, to } => if store.dom().contains(from) {
                store.insert(to, store[from])
            } else {
                store
            },
            SystemAction::Add { key, amount } => {
                let cur = if store.dom().contains(key) {
                    store[key]
                } else {
                    0
                };
                store.insert(key, cur.wrapping_add(amount))
            },
        }
    }

    proof fn apply_respects_writes(&self, store: Map<u64, u64>) {
    }

    proof fn apply_depends_on_reads(&self, store1: Map<u64, u64>, store2: Map<u64, u64>) {
        match self.action {
            SystemAction::Put { key, value } => {},
            SystemAction::Copy { from, to } => {
                assert(crate::ecs::resource_at(store1, from) == crate::ecs::resource_at(
                    store2,
                    from,
                ));
                assert(crate::ecs::resource_at(store1, to) == crate::ecs::resource_at(
                    store2,
                    to,
                ));
            },
            SystemAction::Add { key, amount } => {
                assert(crate::ecs::resource_at(store1, key) == crate::ecs::resource_at(
                    store2,
                    key,
                ));
            },
        }
    }

    fn run(&self, store: &mut Store) {
        match self.action {
            SystemAction::Put { key, value } => {
                store.insert_resource(key, value);
            },
            SystemAction::Copy { from, to } => {
                match store.get_resource(from) {
                    Option::Some(value) => store.insert_resource(to, value),
                    Option::None => {},
                }
            },
            SystemAction::Add { key, amount } => {
                let cur = match store.get_resource(key) {
                    Option::Some(value) => value,
                    Option::None => 0,
                };
                store.insert_resource(key, cur.wrapping_add(amount));
            },
        }
    }

    fn read_ids(&self) -> (keys: Vec<u64>) {
        let mut keys: Vec<u64> = Vec::new();
        match self.action {
            SystemAction::Put { .. } => {},
            SystemAction::Copy { from, .. } => keys.push(from),
            SystemAction::Add { key, .. } => keys.push(key),
        }
        proof {
            assert forall|k: u64| #[trigger] keys@.contains(k) implies self.reads().contains(
                k,
            ) by {
                let t = choose|t: int| 0 <= t < keys@.len() && keys@[t] == k;
            }
            assert forall|k: u64| self.reads().contains(k) implies #[trigger] keys@.contains(
                k,
            ) by {
                assert(keys@[0] == k);
            }
        }
        keys
    }

    fn write_ids(&self) -> (keys: Vec<u64>) {
        let mut keys: Vec<u64> = Vec::new();
        match self.action {
            SystemAction::Put { key, .. } => keys.push(key),
            SystemAction::Copy { to, .. } => keys.push(to),
            SystemAction::Add { key, .. } => keys.push(key),
        }
        proof {
            assert forall|k: u64| #[trigger] keys@.contains(k) implies self.writes().contains(
                k,
            ) by {
                let t = choose|t: int| 0 <= t < keys@.len() && keys@[t] == k;
            }
            assert forall|k: u64| self.writes().contains(k) implies #[trigger] keys@.contains(
                k,
            ) by {
                assert(keys@[0] == k);
            }
        }
        keys
    }
}

} // verus!
