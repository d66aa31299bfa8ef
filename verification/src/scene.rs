//! The scene stack: a lifecycle state machine over an ordered list of owned
//! scenes, with the transition semantics a scene's `update` and `handle_event`
//! results are given.
//!
//! Each scene states, through the spec functions of the [`Scene`] trait, what
//! its hooks do to itself and to the shared store; the contracts of
//! [`SceneManager`] then pin down exactly which hooks run, in which order, by
//! composing those effects.

use vstd::prelude::*;

use crate::event::Event;
use crate::store::Store;

verus! {

/// The short-lived bundle handed to every scene and system callback, exposing
/// the shared store. The runtime owns it and lends it out per callback.
pub struct Context {
    pub store: Store,
}

impl Context {
    pub fn new(store: Store) -> (context: Context)
        ensures
            context.store == store,
    {
        Context { store }
    }
}

/// The outcome a scene reports after handling an event or updating; consumed
/// exactly once by the scene stack immediately after the call that produced
/// it. `Push` and `Switch` carry ownership of the new scene.
pub enum Transition<S> {
    Push(S),
    Switch(S),
    Pop,
    Stay,
    Quit,
}

/// The variant of a [`Transition`], reported back to the caller once the
/// transition itself, scene and all, has been consumed.
#[derive(Clone, Copy, Debug, PartialEq, Eq, Structural)]
pub enum TransitionKind {
    Push,
    Switch,
    Pop,
    Stay,
    Quit,
}

impl<S> Transition<S> {
    pub open spec fn kind(&self) -> TransitionKind {
        match self {
            Transition::Push(_) => TransitionKind::Push,
            Transition::Switch(_) => TransitionKind::Switch,
            Transition::Pop => TransitionKind::Pop,
            Transition::Stay => TransitionKind::Stay,
            Transition::Quit => TransitionKind::Quit,
        }
    }
}

/// A unit of application behavior with lifecycle hooks, exclusively owned by
/// the scene stack once pushed.
///
/// Every hook both performs its work and, through the paired spec function,
/// states what that work is: the scene afterwards, the store afterwards and,
/// for `update` and `handle_event`, the transition reported. The drawing hooks
/// carry no contract and default to no-ops.
pub trait Scene: Sized {
    /// What `start` does: the scene and the store after the hook.
    spec fn start_effect(self, store: Map<u64, u64>) -> (Self, Map<u64, u64>);

    /// What `stop` does: the scene and the store after the hook.
    spec fn stop_effect(self, store: Map<u64, u64>) -> (Self, Map<u64, u64>);

    /// What `pause` does: the scene and the store after the hook.
    spec fn pause_effect(self, store: Map<u64, u64>) -> (Self, Map<u64, u64>);

    /// What `resume` does: the scene and the store after the hook.
    spec fn resume_effect(self, store: Map<u64, u64>) -> (Self, Map<u64, u64>);

    /// What `update` does: the scene, the store and the transition reported.
    spec fn update_effect(self, store: Map<u64, u64>) -> (Self, Map<u64, u64>, Transition<Self>);

    /// What `handle_event` does for a given event.
    spec fn event_effect(self, store: Map<u64, u64>, event: Event) -> (
        Self,
        Map<u64, u64>,
        Transition<Self>,
    );

    /// Called once when the scene becomes the active top of the stack.
    fn start(&mut self, context: &mut Context)
        ensures
            (*final(self), final(context).store@) == old(self).start_effect(old(context).store@),
    ;

    /// Called once when the scene is removed from the stack for good.
    fn stop(&mut self, context: &mut Context)
        ensures
            (*final(self), final(context).store@) == old(self).stop_effect(old(context).store@),
    ;

    /// Called when another scene is pushed on top of this one.
    fn pause(&mut self, context: &mut Context)
        ensures
            (*final(self), final(context).store@) == old(self).pause_effect(old(context).store@),
    ;

    /// Called when this scene becomes the top again.
    fn resume(&mut self, context: &mut Context)
        ensures
            (*final(self), final(context).store@) == old(self).resume_effect(old(context).store@),
    ;

    /// Called once per frame while this scene is the top.
    fn update(&mut self, context: &mut Context) -> (transition: Transition<Self>)
        ensures
            (*final(self), final(context).store@, transition) == old(self).update_effect(
                old(context).store@,
            ),
    ;

    /// Called for every event routed to the stack while this scene is the top.
    fn handle_event(&mut self, context: &mut Context, event: Event) -> (transition: Transition<
        Self,
    >)
        ensures
            (*final(self), final(context).store@, transition) == old(self).event_effect(
                old(context).store@,
                event,
            ),
    ;

    /// Drawing hook, run before `draw`; no contract, defaults to a no-op.
    fn pre_draw(&mut self, context: &mut Context) {
    }

    /// Drawing hook; no contract, defaults to a no-op.
    fn draw(&mut self, context: &mut Context) {
    }

    /// Drawing hook, run after `draw`; no contract, defaults to a no-op.
    fn post_draw(&mut self, context: &mut Context) {
    }
}

/// The effect of pushing `scene`: the prior top, if one exists, is paused
/// first, then the new scene starts on a store that already holds the pause
/// effect. The prior scenes all remain beneath the new top.
pub open spec fn push_effect<S: Scene>(stack: Seq<S>, store: Map<u64, u64>, scene: S) -> (
    Seq<S>,
    Map<u64, u64>,
) {
    if stack.len() == 0 {
        let (started, store1) = scene.start_effect(store);
        (stack.push(started), store1)
    } else {
        let (paused, store1) = stack.last().pause_effect(store);
        let (started, store2) = scene.start_effect(store1);
        (stack.update(stack.len() - 1, paused).push(started), store2)
    }
}

/// The effect of stopping every scene on the stack, strictly top to bottom.
pub open spec fn stop_all_effect<S: Scene>(stack: Seq<S>, store: Map<u64, u64>) -> Map<u64, u64>
    decreases stack.len(),
{
    if stack.len() == 0 {
        store
    } else {
        let (_, store1) = stack.last().stop_effect(store);
        stop_all_effect(stack.drop_last(), store1)
    }
}

/// The effect of stopping the stack: idempotent, a no-op once not running.
pub open spec fn stop_step<S: Scene>(stack: Seq<S>, running: bool, store: Map<u64, u64>) -> (
    Seq<S>,
    bool,
    Map<u64, u64>,
) {
    if running {
        (Seq::<S>::empty(), false, stop_all_effect(stack, store))
    } else {
        (stack, false, store)
    }
}

/// How the stack applies a transition: `Push` pauses the prior top and starts
/// the new scene, `Quit` stops the whole stack, and `Switch` and `Pop` are
/// accepted but deliberately applied as no-ops.
pub open spec fn apply_transition_effect<S: Scene>(
    stack: Seq<S>,
    running: bool,
    store: Map<u64, u64>,
    transition: Transition<S>,
) -> (Seq<S>, bool, Map<u64, u64>) {
    match transition {
        Transition::Push(scene) => {
            let (stack1, store1) = push_effect(stack, store, scene);
            (stack1, running, store1)
        },
        Transition::Switch(_) => (stack, running, store),
        Transition::Pop => (stack, running, store),
        Transition::Stay => (stack, running, store),
        Transition::Quit => stop_step(stack, running, store),
    }
}

/// The effect of a frame update: a no-op when not running or empty; otherwise
/// the top scene updates and the transition it reports is applied at once.
pub open spec fn update_step<S: Scene>(stack: Seq<S>, running: bool, store: Map<u64, u64>) -> (
    Seq<S>,
    bool,
    Map<u64, u64>,
    TransitionKind,
) {
    if !running || stack.len() == 0 {
        (stack, running, store, TransitionKind::Stay)
    } else {
        let (top, store1, transition) = stack.last().update_effect(store);
        let stack1 = stack.update(stack.len() - 1, top);
        let (stack2, running2, store2) = apply_transition_effect(
            stack1,
            running,
            store1,
            transition,
        );
        (stack2, running2, store2, transition.kind())
    }
}

/// The effect of routing an event: as [`update_step`], through `handle_event`.
pub open spec fn dispatch_step<S: Scene>(
    stack: Seq<S>,
    running: bool,
    store: Map<u64, u64>,
    event: Event,
) -> (Seq<S>, bool, Map<u64, u64>, TransitionKind) {
    if !running || stack.len() == 0 {
        (stack, running, store, TransitionKind::Stay)
    } else {
        let (top, store1, transition) = stack.last().event_effect(store, event);
        let stack1 = stack.update(stack.len() - 1, top);
        let (stack2, running2, store2) = apply_transition_effect(
            stack1,
            running,
            store1,
            transition,
        );
        (stack2, running2, store2, transition.kind())
    }
}

/// The effect of pausing the top scene, if one exists.
pub open spec fn pause_step<S: Scene>(stack: Seq<S>, store: Map<u64, u64>) -> (
    Seq<S>,
    Map<u64, u64>,
) {
    if stack.len() == 0 {
        (stack, store)
    } else {
        let (top, store1) = stack.last().pause_effect(store);
        (stack.update(stack.len() - 1, top), store1)
    }
}

/// The effect of resuming the top scene, if one exists.
pub open spec fn resume_step<S: Scene>(stack: Seq<S>, store: Map<u64, u64>) -> (
    Seq<S>,
    Map<u64, u64>,
) {
    if stack.len() == 0 {
        (stack, store)
    } else {
        let (top, store1) = stack.last().resume_effect(store);
        (stack.update(stack.len() - 1, top), store1)
    }
}

/// Owns the ordered list of active scenes (last element = active top) and the
/// running flag, and executes the lifecycle state machine.
pub struct SceneManager<S: Scene> {
    scenes: Vec<S>,
    is_running: bool,
}

impl<S: Scene> SceneManager<S> {
    /// The scenes on the stack, bottom first; the last element is the top.
    pub closed spec fn stack(&self) -> Seq<S> {
        self.scenes@
    }

    /// Whether the stack has been initialized and not yet stopped.
    pub closed spec fn running(&self) -> bool {
        self.is_running
    }

    /// A running stack is never empty.
    pub open spec fn wf(&self) -> bool {
        self.running() ==> self.stack().len() >= 1
    }

    /// Constructs a stack holding exactly the initial scene, not yet running.
    /// Has no effect on the shared store.
    pub fn new(initial_scene: S) -> (manager: SceneManager<S>)
        ensures
            manager.stack() == seq![initial_scene],
            !manager.running(),
    {
        let mut scenes: Vec<S> = Vec::new();
        scenes.push(initial_scene);
        proof {
            assert(scenes@ =~= seq![initial_scene]);
        }
        SceneManager { scenes, is_running: false }
    }

    /// Starts the top scene and marks the stack running. To be called exactly
    /// once, before any `update` or `handle_event`.
    pub fn initialize(&mut self, context: &mut Context)
        requires
            !old(self).running(),
            old(self).stack().len() >= 1,
        ensures
            ({
                let (top, store1) = old(self).stack().last().start_effect(old(context).store@);
                final(self).stack() == old(self).stack().update(old(self).stack().len() - 1, top)
                    && final(context).store@ == store1
            }),
            final(self).running(),
    {
        match self.scenes.pop() {
            Option::Some(mut top) => {
                top.start(context);
                self.scenes.push(top);
            },
            Option::None => {},
        }
        self.is_running = true;
        proof {
            assert(self.scenes@ =~= old(self).scenes@.update(
                old(self).scenes@.len() - 1,
                self.scenes@.last(),
            ));
        }
    }

    /// Whether the stack is running.
    pub fn is_running(&self) -> (running: bool)
        ensures
            running == self.running(),
    {
        self.is_running
    }

    /// How many scenes the stack holds.
    pub fn depth(&self) -> (n: usize)
        ensures
            n == self.stack().len(),
    {
        self.scenes.len()
    }

    /// The active top scene, if the stack is nonempty.
    pub fn top(&self) -> (top: Option<&S>)
        ensures
            match top {
                Some(scene) => self.stack().len() > 0 && *scene == self.stack().last(),
                None => self.stack().len() == 0,
            },
    {
        if self.scenes.len() == 0 {
            None
        } else {
            Some(&self.scenes[self.scenes.len() - 1])
        }
    }

    /// Updates the top scene and immediately applies the transition it
    /// reports, returning the transition's kind for observability. A no-op
    /// reporting `Stay` when not running or empty.
    pub fn update(&mut self, context: &mut Context) -> (kind: TransitionKind)
        ensures
            ({
                let (stack2, running2, store2, kind2) = update_step(
                    old(self).stack(),
                    old(self).running(),
                    old(context).store@,
                );
                final(self).stack() == stack2 && final(self).running() == running2
                    && final(context).store@ == store2 && kind == kind2
            }),
            old(self).wf() ==> final(self).wf(),
    {
        if !self.is_running || self.scenes.len() == 0 {
            return TransitionKind::Stay;
        }
        let transition = match self.scenes.pop() {
            Option::Some(mut top) => {
                let transition = top.update(context);
                self.scenes.push(top);
                transition
            },
            Option::None => Transition::Stay,
        };
        proof {
            assert(self.scenes@ =~= old(self).scenes@.update(
                old(self).scenes@.len() - 1,
                self.scenes@.last(),
            ));
        }
        self.apply_transition(transition, context)
    }

    /// Routes an event to the top scene and immediately applies the reported
    /// transition; otherwise as [`SceneManager::update`].
    pub fn handle_event(&mut self, context: &mut Context, event: Event) -> (kind: TransitionKind)
        ensures
            ({
                let (stack2, running2, store2, kind2) = dispatch_step(
                    old(self).stack(),
                    old(self).running(),
                    old(context).store@,
                    event,
                );
                final(self).stack() == stack2 && final(self).running() == running2
                    && final(context).store@ == store2 && kind == kind2
            }),
            old(self).wf() ==> final(self).wf(),
    {
        if !self.is_running || self.scenes.len() == 0 {
            return TransitionKind::Stay;
        }
        let transition = match self.scenes.pop() {
            Option::Some(mut top) => {
                let transition = top.handle_event(context, event);
                self.scenes.push(top);
                transition
            },
            Option::None => Transition::Stay,
        };
        proof {
            assert(self.scenes@ =~= old(self).scenes@.update(
                old(self).scenes@.len() - 1,
                self.scenes@.last(),
            ));
        }
        self.apply_transition(transition, context)
    }

    /// Pauses the top scene, if one exists, bypassing transition handling.
    pub fn pause(&mut self, context: &mut Context)
        ensures
            ({
                let (stack2, store2) = pause_step(old(self).stack(), old(context).store@);
                final(self).stack() == stack2 && final(context).store@ == store2
            }),
            final(self).running() == old(self).running(),
    {
        if self.scenes.len() > 0 {
            match self.scenes.pop() {
                Option::Some(mut top) => {
                    top.pause(context);
                    self.scenes.push(top);
                },
                Option::None => {},
            }
            proof {
                assert(self.scenes@ =~= old(self).scenes@.update(
                    old(self).scenes@.len() - 1,
                    self.scenes@.last(),
                ));
            }
        }
    }

    /// Resumes the top scene, if one exists, bypassing transition handling.
    pub fn resume(&mut self, context: &mut Context)
        ensures
            ({
                let (stack2, store2) = resume_step(old(self).stack(), old(context).store@);
                final(self).stack() == stack2 && final(context).store@ == store2
            }),
            final(self).running() == old(self).running(),
    {
        if self.scenes.len() > 0 {
            match self.scenes.pop() {
                Option::Some(mut top) => {
                    top.resume(context);
                    self.scenes.push(top);
                },
                Option::None => {},
            }
            proof {
                assert(self.scenes@ =~= old(self).scenes@.update(
                    old(self).scenes@.len() - 1,
                    self.scenes@.last(),
                ));
            }
        }
    }

    /// Pauses the prior top (if one exists), appends `scene`, and starts it.
    pub fn push(&mut self, scene: S, context: &mut Context)
        ensures
            ({
                let (stack2, store2) = push_effect(old(self).stack(), old(context).store@, scene);
                final(self).stack() == stack2 && final(context).store@ == store2
            }),
            final(self).running() == old(self).running(),
            old(self).wf() ==> final(self).wf(),
    {
        if self.scenes.len() > 0 {
            match self.scenes.pop() {
                Option::Some(mut top) => {
                    top.pause(context);
                    self.scenes.push(top);
                },
                Option::None => {},
            }
            proof {
                assert(self.scenes@ =~= old(self).scenes@.update(
                    old(self).scenes@.len() - 1,
                    self.scenes@.last(),
                ));
            }
        }
        let mut scene = scene;
        scene.start(context);
        self.scenes.push(scene);
    }

    /// Consumes a transition: `Push` pushes the carried scene, `Quit` stops
    /// the stack, `Switch` and `Pop` are deliberately no-ops (their intended
    /// semantics is an open product decision and must not be guessed), and
    /// `Stay` does nothing.
    pub fn apply_transition(&mut self, transition: Transition<S>, context: &mut Context) -> (kind:
        TransitionKind)
        ensures
            ({
                let (stack2, running2, store2) = apply_transition_effect(
                    old(self).stack(),
                    old(self).running(),
                    old(context).store@,
                    transition,
                );
                final(self).stack() == stack2 && final(self).running() == running2
                    && final(context).store@ == store2
            }),
            kind == transition.kind(),
            old(self).wf() ==> final(self).wf(),
    {
        match transition {
            Transition::Push(scene) => {
                self.push(scene, context);
                TransitionKind::Push
            },
            Transition::Switch(_) => TransitionKind::Switch,
            Transition::Pop => TransitionKind::Pop,
            Transition::Stay => TransitionKind::Stay,
            Transition::Quit => {
                self.stop(context);
                TransitionKind::Quit
            },
        }
    }

    /// Stops the stack: pops every scene, stopping each from top to bottom,
    /// then clears the running flag. Idempotent: a no-op once not running.
    pub fn stop(&mut self, context: &mut Context)
        ensures
            ({
                let (stack2, running2, store2) = stop_step(
                    old(self).stack(),
                    old(self).running(),
                    old(context).store@,
                );
                final(self).stack() == stack2 && final(self).running() == running2
                    && final(context).store@ == store2
            }),
            !final(self).running(),
    {
        if self.is_running {
            while self.scenes.len() > 0
                invariant
                    stop_all_effect(self.scenes@, context.store@) == stop_all_effect(
                        old(self).scenes@,
                        old(context).store@,
                    ),
                decreases self.scenes.len(),
            {
                match self.scenes.pop() {
                    Option::Some(mut top) => {
                        top.stop(context);
                    },
                    Option::None => {},
                }
            }
            self.is_running = false;
            proof {
                assert(self.scenes@ =~= Seq::<S>::empty());
            }
        }
    }
}

/// Applying any transition to a running, nonempty stack leaves the stack
/// nonempty whenever it is still running afterwards: a running stack is never
/// observed empty.
pub proof fn lemma_apply_transition_preserves_nonempty<S: Scene>(
    stack: Seq<S>,
    running: bool,
    store: Map<u64, u64>,
    transition: Transition<S>,
)
    requires
        running ==> stack.len() >= 1,
    ensures
        ({
            let (stack2, running2, store2) = apply_transition_effect(
                stack,
                running,
                store,
                transition,
            );
            running2 ==> stack2.len() >= 1
        }),
{
}

/// `Switch` and `Pop` leave the stack depth, every scene on it (the top
/// included), the running flag and the store unchanged: the documented no-op
/// behavior, preserved deliberately.
pub proof fn lemma_switch_pop_no_effect<S: Scene>(
    stack: Seq<S>,
    running: bool,
    store: Map<u64, u64>,
    transition: Transition<S>,
)
    requires
        transition is Switch || transition is Pop,
    ensures
        apply_transition_effect(stack, running, store, transition) == (stack, running, store),
{
}

/// A `Quit` transition on a running stack stops every scene, strictly top to
/// bottom, empties the stack and clears the running flag.
pub proof fn lemma_quit_stops_all<S: Scene>(stack: Seq<S>, store: Map<u64, u64>)
    ensures
        apply_transition_effect(stack, true, store, Transition::<S>::Quit) == (
            Seq::<S>::empty(),
            false,
            stop_all_effect(stack, store),
        ),
{
}

/// Pushing pauses the prior top before the new scene starts — the new scene's
/// start effect applies to a store already holding the pause effect — and the
/// prior scenes all remain, in order, beneath the new top.
pub proof fn lemma_push_shape<S: Scene>(stack: Seq<S>, store: Map<u64, u64>, scene: S)
    ensures
        ({
            let (stack2, store2) = push_effect(stack, store, scene);
            stack2.len() == stack.len() + 1 && (forall|i: int|
                0 <= i < stack.len() - 1 ==> stack2[i] == stack[i]) && (stack.len() > 0 ==> {
                let (paused, store1) = stack.last().pause_effect(store);
                stack2[stack.len() - 1] == paused && (stack2.last(), store2)
                    == scene.start_effect(store1)
            }) && (stack.len() == 0 ==> (stack2.last(), store2) == scene.start_effect(store))
        }),
{
}

} // verus!
