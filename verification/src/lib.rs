//! Helpers for a scene-graph game engine, centred on an incremental
//! scene-loading subsystem.
//!
//! A packaged scene is loaded in bounded steps across many frames instead of
//! one blocking call. [`controller::SceneLoadController`] owns at most one
//! in-flight [`loader::Loader`], is driven once per frame by [`controller::SceneLoadController::tick`],
//! and on completion swaps the newly instantiated scene into the
//! [`host::SceneHost`] while the previous scene is queued for deferred
//! destruction. The engine's resource subsystem is modelled by
//! [`resources::ResourceSystem`], which also accounts for every native load
//! handle so that release-on-every-exit-path is a proved property rather than
//! a convention.

pub mod animation;
pub mod controller;
pub mod errors;
pub mod host;
pub mod loader;
pub mod resources;
