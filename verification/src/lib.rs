//! Runtime core of a small real-time application engine.
//!
//! The crate keeps a stack of interchangeable application states ("scenes"),
//! drives them through a lifecycle in response to events and a per-frame
//! clock, and coordinates a declarative frame scheduler that mutates a shared
//! resource store once per frame. Window creation, device setup and file
//! loading are left to the embedding shell; this crate holds the control-flow
//! logic and proves its contracts.

pub mod application;
pub mod ecs;
pub mod event;
pub mod image;
pub mod probe;
pub mod scene;
pub mod settings;
pub mod store;
