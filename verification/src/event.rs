//! The event representations the runtime routes between the platform event
//! source, the application runtime and the scenes.
//!
//! Platform events arrive from the embedding shell already translated into the
//! plain variants below; the engine never inspects a native event value.

use vstd::prelude::*;

verus! {

/// Application-level lifecycle events delivered by the runtime.
#[derive(Clone, Copy, Debug, PartialEq, Eq, Structural)]
pub enum ApplicationEvent {
    Suspended,
    Resumed,
    Terminating,
}

/// A plain model of the platform window events routed to scenes. Variants the
/// engine never inspects itself are folded into `Other`.
#[derive(Clone, Copy, Debug, PartialEq, Eq, Structural)]
pub enum WindowEvent {
    CloseRequested,
    Resized(u32, u32),
    Moved(i32, i32),
    Focused(bool),
    Other,
}

/// The event representation exposed to scenes: either an application-level
/// lifecycle event or a window event, passed by value per dispatch.
#[derive(Clone, Copy, Debug, PartialEq, Eq, Structural)]
pub enum Event {
    Application(ApplicationEvent),
    Window(WindowEvent),
}

/// One delivery from the platform event loop to the application runtime.
#[derive(Clone, Copy, Debug, PartialEq, Eq, Structural)]
pub enum RuntimeEvent {
    Window(WindowEvent),
    Suspended,
    Resumed,
    MainEventsCleared,
    RedrawRequested,
    LoopDestroyed,
    Other,
}

} // verus!
