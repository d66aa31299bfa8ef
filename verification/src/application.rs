//! The application runtime: it composes the scene stack, the frame schedule
//! and the shared store, and decides, one delivered platform event at a time,
//! what happens and what the driving loop should do next.
//!
//! The platform loop itself — window creation, event polling, redraw
//! requests — lives in the embedding shell. The shell translates each native
//! event into a [`RuntimeEvent`], calls
//! [`Application::handle_runtime_event`], and acts on the returned
//! [`Directive`]: adopt the control flow, request a redraw when asked, exit
//! when told.

use vstd::prelude::*;

use crate::ecs::{
    apply_stages,
    ExecutionSchedule,
    ExecutionScheduleBuilder,
    ScheduledSystem,
    System,
};
use crate::event::{ApplicationEvent, Event, RuntimeEvent, WindowEvent};
use crate::scene::{
    dispatch_step,
    pause_step,
    resume_step,
    stop_step,
    update_step,
    Context,
    Scene,
    SceneManager,
    TransitionKind,
};
use crate::settings::Settings;
use crate::store::Store;

verus! {

/// The control flow the driving loop should adopt after an event.
#[derive(Clone, Copy, Debug, PartialEq, Eq, Structural)]
pub enum Flow {
    Poll,
    Wait,
    Exit,
}

/// The runtime's answer to one delivered event: the control flow to adopt
/// and whether a redraw should be requested.
#[derive(Clone, Copy, Debug, PartialEq, Eq, Structural)]
pub struct Directive {
    pub flow: Flow,
    pub redraw: bool,
}

/// The composed runtime: scene stack, frozen schedule, shared store and the
/// settings loaded at startup.
pub struct Application<S: Scene, Y: System> {
    scene_manager: SceneManager<S>,
    schedule: ExecutionSchedule<Y>,
    context: Context,
    settings: Settings,
}

/// Assembles an [`Application`]: the initial scene, resources for the store
/// and systems for the schedule. Value semantics: every operation returns the
/// updated builder.
pub struct ApplicationBuilder<S: Scene, Y: System> {
    scene_manager: SceneManager<S>,
    schedule_builder: ExecutionScheduleBuilder<Y>,
    context: Context,
}

impl<S: Scene, Y: System> ApplicationBuilder<S, Y> {
    /// The scene stack accumulated so far.
    pub closed spec fn stack(&self) -> Seq<S> {
        self.scene_manager.stack()
    }

    /// Whether the stack is running (never, before `build` and `initialize`).
    pub closed spec fn running(&self) -> bool {
        self.scene_manager.running()
    }

    /// The schedule stages already closed by a barrier.
    pub closed spec fn closed_stages(&self) -> Seq<Seq<ScheduledSystem<Y>>> {
        self.schedule_builder.closed_stages()
    }

    /// The schedule stage still open for registration.
    pub closed spec fn open_stage(&self) -> Seq<ScheduledSystem<Y>> {
        self.schedule_builder.open_stage()
    }

    /// The resources inserted so far.
    pub closed spec fn store_view(&self) -> Map<u64, u64> {
        self.context.store@
    }

    /// A builder holding exactly the initial scene, an empty schedule and an
    /// empty store.
    pub fn new(initial_scene: S) -> (builder: ApplicationBuilder<S, Y>)
        ensures
            builder.stack() == seq![initial_scene],
            !builder.running(),
            builder.closed_stages() == Seq::<Seq<ScheduledSystem<Y>>>::empty(),
            builder.open_stage() == Seq::<ScheduledSystem<Y>>::empty(),
            builder.store_view() == Map::<u64, u64>::empty(),
    {
        ApplicationBuilder {
            scene_manager: SceneManager::new(initial_scene),
            schedule_builder: ExecutionScheduleBuilder::new(),
            context: Context::new(Store::new()),
        }
    }

    /// Inserts a resource into the store before the runtime starts.
    pub fn with_resource(self, key: u64, value: u64) -> (builder: ApplicationBuilder<S, Y>)
        ensures
            builder.stack() == self.stack(),
            builder.running() == self.running(),
            builder.closed_stages() == self.closed_stages(),
            builder.open_stage() == self.open_stage(),
            builder.store_view() == self.store_view().insert(key, value),
    {
        let mut builder = self;
        builder.context.store.insert_resource(key, value);
        builder
    }

    /// Appends a parallel-eligible system to the open stage.
    pub fn with_system(self, system: Y) -> (builder: ApplicationBuilder<S, Y>)
        ensures
            builder.stack() == self.stack(),
            builder.running() == self.running(),
            builder.closed_stages() == self.closed_stages(),
            builder.open_stage() == self.open_stage().push(
                (ScheduledSystem { system, thread_affined: false }),
            ),
            builder.store_view() == self.store_view(),
    {
        let ApplicationBuilder { scene_manager, schedule_builder, context } = self;
        ApplicationBuilder {
            scene_manager,
            schedule_builder: schedule_builder.with_system(system),
            context,
        }
    }

    /// Appends a thread-affined system: it runs on the driving thread and
    /// never concurrently with any other system.
    pub fn with_thread_local_system(self, system: Y) -> (builder: ApplicationBuilder<S, Y>)
        ensures
            builder.stack() == self.stack(),
            builder.running() == self.running(),
            builder.closed_stages() == self.closed_stages(),
            builder.open_stage() == self.open_stage().push(
                (ScheduledSystem { system, thread_affined: true }),
            ),
            builder.store_view() == self.store_view(),
    {
        let ApplicationBuilder { scene_manager, schedule_builder, context } = self;
        ApplicationBuilder {
            scene_manager,
            schedule_builder: schedule_builder.with_thread_local(system),
            context,
        }
    }

    /// Closes the open schedule stage: everything registered before the
    /// barrier completes before anything registered after it starts.
    pub fn flush(self) -> (builder: ApplicationBuilder<S, Y>)
        ensures
            builder.stack() == self.stack(),
            builder.running() == self.running(),
            builder.closed_stages() == self.closed_stages().push(self.open_stage()),
            builder.open_stage() == Seq::<ScheduledSystem<Y>>::empty(),
            builder.store_view() == self.store_view(),
    {
        let ApplicationBuilder { scene_manager, schedule_builder, context } = self;
        ApplicationBuilder { scene_manager, schedule_builder: schedule_builder.barrier(), context }
    }

    /// Another name for [`ApplicationBuilder::flush`].
    pub fn barrier(self) -> (builder: ApplicationBuilder<S, Y>)
        ensures
            builder.stack() == self.stack(),
            builder.running() == self.running(),
            builder.closed_stages() == self.closed_stages().push(self.open_stage()),
            builder.open_stage() == Seq::<ScheduledSystem<Y>>::empty(),
            builder.store_view() == self.store_view(),
    {
        self.flush()
    }

    /// Freezes the schedule and composes the runtime. The settings arrive
    /// already parsed: reading and deserializing the on-disk document is the
    /// shell's business, and failing to do so aborts startup there.
    pub fn build(self, settings: Settings) -> (application: Application<S, Y>)
        ensures
            application.stack() == self.stack(),
            application.running() == self.running(),
            application.schedule_view() == self.closed_stages().push(self.open_stage()),
            application.store_view() == self.store_view(),
            application.settings_view() == settings,
    {
        let ApplicationBuilder { scene_manager, schedule_builder, context } = self;
        Application { scene_manager, schedule: schedule_builder.build(), context, settings }
    }
}

impl<S: Scene, Y: System> Application<S, Y> {
    /// The scene stack, bottom first.
    pub closed spec fn stack(&self) -> Seq<S> {
        self.scene_manager.stack()
    }

    /// Whether the scene stack is running.
    pub closed spec fn running(&self) -> bool {
        self.scene_manager.running()
    }

    /// The resources the store holds.
    pub closed spec fn store_view(&self) -> Map<u64, u64> {
        self.context.store@
    }

    /// The frozen schedule's stages.
    pub closed spec fn schedule_view(&self) -> Seq<Seq<ScheduledSystem<Y>>> {
        self.schedule.stages()
    }

    /// The settings the runtime was built with.
    pub closed spec fn settings_view(&self) -> Settings {
        self.settings
    }

    /// A running stack is never empty.
    pub open spec fn wf(&self) -> bool {
        self.running() ==> self.stack().len() >= 1
    }

    /// The settings, for the shell to build its window and device from.
    pub fn settings(&self) -> (settings: &Settings)
        ensures
            *settings == self.settings_view(),
    {
        &self.settings
    }

    /// The frozen schedule, also exposing the concurrency analysis.
    pub fn schedule(&self) -> (schedule: &ExecutionSchedule<Y>)
        ensures
            schedule.stages() == self.schedule_view(),
    {
        &self.schedule
    }

    /// Whether the scene stack is running.
    pub fn is_running(&self) -> (running: bool)
        ensures
            running == self.running(),
    {
        self.scene_manager.is_running()
    }

    /// How many scenes the stack holds.
    pub fn depth(&self) -> (n: usize)
        ensures
            n == self.stack().len(),
    {
        self.scene_manager.depth()
    }

    /// Reads a resource from the store.
    pub fn get_resource(&self, key: u64) -> (resource: Option<u64>)
        ensures
            match resource {
                Some(value) => self.store_view().dom().contains(key)
                    && value == self.store_view()[key],
                None => !self.store_view().dom().contains(key),
            },
    {
        self.context.store.get_resource(key)
    }

    /// Starts the top scene and marks the stack running; to be called exactly
    /// once, before the event loop delivers anything.
    pub fn initialize(&mut self)
        requires
            !old(self).running(),
            old(self).stack().len() >= 1,
        ensures
            ({
                let (top, store1) = old(self).stack().last().start_effect(old(self).store_view());
                final(self).stack() == old(self).stack().update(old(self).stack().len() - 1, top)
                    && final(self).store_view() == store1
            }),
            final(self).running(),
            final(self).schedule_view() == old(self).schedule_view(),
            final(self).settings_view() == old(self).settings_view(),
    {
        self.scene_manager.initialize(&mut self.context);
    }

    /// Handles one delivered platform event, exactly as the drive loop does:
    /// window events and lifecycle signals are routed to the scene stack
    /// (each reported transition applied at once), a frame tick updates the
    /// top scene and asks for a redraw, a redraw request executes the
    /// schedule against the store, and the loop's teardown routes a
    /// terminating event and then stops the stack. The returned directive
    /// says what the loop should do next; a `Quit` transition turns into
    /// `Flow::Exit`.
    ///
    /// On `Suspended` and `Resumed` the event is routed first — its
    /// transition applied at once — and the top scene is then paused or
    /// resumed, bypassing the transition machinery.
    pub fn handle_runtime_event(&mut self, event: RuntimeEvent) -> (directive: Directive)
        ensures
            final(self).schedule_view() == old(self).schedule_view(),
            final(self).settings_view() == old(self).settings_view(),
            old(self).wf() ==> final(self).wf(),
            ({
                let stack0 = old(self).stack();
                let running0 = old(self).running();
                let store0 = old(self).store_view();
                match event {
                    RuntimeEvent::Window(window_event) => {
                        if window_event is CloseRequested {
                            final(self).stack() == stack0 && final(self).running() == running0
                                && final(self).store_view() == store0 && directive == (Directive {
                                flow: Flow::Exit,
                                redraw: false,
                            })
                        } else {
                            let (stack2, running2, store2, kind) = dispatch_step(
                                stack0,
                                running0,
                                store0,
                                Event::Window(window_event),
                            );
                            final(self).stack() == stack2 && final(self).running() == running2
                                && final(self).store_view() == store2 && directive == (Directive {
                                flow: if kind is Quit {
                                    Flow::Exit
                                } else {
                                    Flow::Poll
                                },
                                redraw: false,
                            })
                        }
                    },
                    RuntimeEvent::Suspended => {
                        let (stack1, running1, store1, kind) = dispatch_step(
                            stack0,
                            running0,
                            store0,
                            Event::Application(ApplicationEvent::Suspended),
                        );
                        let (stack2, store2) = pause_step(stack1, store1);
                        final(self).stack() == stack2 && final(self).running() == running1
                            && final(self).store_view() == store2 && directive == (Directive {
                            flow: if kind is Quit {
                                Flow::Exit
                            } else {
                                Flow::Wait
                            },
                            redraw: false,
                        })
                    },
                    RuntimeEvent::Resumed => {
                        let (stack1, running1, store1, kind) = dispatch_step(
                            stack0,
                            running0,
                            store0,
                            Event::Application(ApplicationEvent::Resumed),
                        );
                        let (stack2, store2) = resume_step(stack1, store1);
                        final(self).stack() == stack2 && final(self).running() == running1
                            && final(self).store_view() == store2 && directive == (Directive {
                            flow: if kind is Quit {
                                Flow::Exit
                            } else {
                                Flow::Poll
                            },
                            redraw: false,
                        })
                    },
                    RuntimeEvent::MainEventsCleared => {
                        let (stack2, running2, store2, kind) = update_step(
                            stack0,
                            running0,
                            store0,
                        );
                        final(self).stack() == stack2 && final(self).running() == running2
                            && final(self).store_view() == store2 && directive == (Directive {
                            flow: if kind is Quit {
                                Flow::Exit
                            } else {
                                Flow::Poll
                            },
                            redraw: true,
                        })
                    },
                    RuntimeEvent::RedrawRequested => {
                        final(self).stack() == stack0 && final(self).running() == running0
                            && final(self).store_view() == apply_stages(
                            old(self).schedule_view(),
                            store0,
                        ) && directive == (Directive { flow: Flow::Poll, redraw: false })
                    },
                    RuntimeEvent::LoopDestroyed => {
                        let (stack1, running1, store1, kind) = dispatch_step(
                            stack0,
                            running0,
                            store0,
                            Event::Application(ApplicationEvent::Terminating),
                        );
                        let (stack2, running2, store2) = stop_step(stack1, running1, store1);
                        final(self).stack() == stack2 && final(self).running() == running2
                            && final(self).store_view() == store2 && directive == (Directive {
                            flow: Flow::Poll,
                            redraw: false,
                        })
                    },
                    RuntimeEvent::Other => {
                        final(self).stack() == stack0 && final(self).running() == running0
                            && final(self).store_view() == store0 && directive == (Directive {
                            flow: Flow::Poll,
                            redraw: false,
                        })
                    },
                }
            }),
    {
        match event {
            RuntimeEvent::Window(window_event) => {
                match window_event {
                    WindowEvent::CloseRequested => Directive { flow: Flow::Exit, redraw: false },
                    _ => {
                        let kind = self.scene_manager.handle_event(
                            &mut self.context,
                            Event::Window(window_event),
                        );
                        let flow = match kind {
                            TransitionKind::Quit => Flow::Exit,
                            _ => Flow::Poll,
                        };
                        Directive { flow, redraw: false }
                    },
                }
            },
            RuntimeEvent::Suspended => {
                let kind = self.scene_manager.handle_event(
                    &mut self.context,
                    Event::Application(ApplicationEvent::Suspended),
                );
                self.scene_manager.pause(&mut self.context);
                let flow = match kind {
                    TransitionKind::Quit => Flow::Exit,
                    _ => Flow::Wait,
                };
                Directive { flow, redraw: false }
            },
            RuntimeEvent::Resumed => {
                let kind = self.scene_manager.handle_event(
                    &mut self.context,
                    Event::Application(ApplicationEvent::Resumed),
                );
                self.scene_manager.resume(&mut self.context);
                let flow = match kind {
                    TransitionKind::Quit => Flow::Exit,
                    _ => Flow::Poll,
                };
                Directive { flow, redraw: false }
            },
            RuntimeEvent::MainEventsCleared => {
                let kind = self.scene_manager.update(&mut self.context);
                let flow = match kind {
                    TransitionKind::Quit => Flow::Exit,
                    _ => Flow::Poll,
                };
                Directive { flow, redraw: true }
            },
            RuntimeEvent::RedrawRequested => {
                self.schedule.execute(&mut self.context.store);
                Directive { flow: Flow::Poll, redraw: false }
            },
            RuntimeEvent::LoopDestroyed => {
                let _ = self.scene_manager.handle_event(
                    &mut self.context,
                    Event::Application(ApplicationEvent::Terminating),
                );
                self.scene_manager.stop(&mut self.context);
                Directive { flow: Flow::Poll, redraw: false }
            },
            RuntimeEvent::Other => Directive { flow: Flow::Poll, redraw: false },
        }
    }
}

} // verus!
