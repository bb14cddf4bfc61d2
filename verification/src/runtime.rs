//! The trusted boundary to the `bevy` runtime.
//!
//! Everything the crate asks of `bevy` passes through the wrappers below.
//! Their bodies are not verified: each doc comment names the `bevy` item the
//! wrapper relies on and what is assumed of it. The application value itself
//! is opaque to the verifier; nothing in this crate claims anything about
//! the state behind it.

use vstd::prelude::*;

verus! {

#[verifier::external_type_specification]
#[verifier::external_body]
pub struct ExApp(bevy::app::App);

/// Relies on `bevy::app::App::new`: builds a fresh application with the
/// default schedules and message types and no plugins; it does not panic.
#[verifier::external_body]
pub(crate) fn new_app() -> bevy::app::App {
    bevy::app::App::new()
}

/// Relies on `App::add_plugins` with the `MinimalPlugins` group: installs
/// the task-pool, frame-count, time and schedule-runner plugins, the
/// minimal runtime for an application without a window.
#[verifier::external_body]
pub(crate) fn add_minimal_plugins(app: &mut bevy::app::App) {
    app.add_plugins(bevy::prelude::MinimalPlugins);
}

/// Relies on `App::add_plugins` with the `DefaultPlugins` group: installs
/// the full plugin set of the enabled engine features (panic handler, task
/// pool, frame count, time, transforms, diagnostics, input, schedule
/// runner, terminal interrupt handler).
#[verifier::external_body]
pub(crate) fn add_default_plugins(app: &mut bevy::app::App) {
    app.add_plugins(bevy::prelude::DefaultPlugins);
}

/// Relies on `World::spawn_empty`, reached through `App::world_mut`: spawns
/// one entity with no components into the main world, the placeholder that
/// stands for the headless camera.
#[verifier::external_body]
pub(crate) fn spawn_placeholder_entity(app: &mut bevy::app::App) {
    app.world_mut().spawn_empty();
}

/// Relies on `App::update`: runs the default schedules of every sub-app
/// once. It panics only when called while a plugin is being built, a state
/// no application this crate hands out is in.
#[verifier::external_body]
pub(crate) fn update_app(app: &mut bevy::app::App) {
    app.update();
}

/// Relies on `App::run`: hands control to the application's runner until
/// the application asks to exit; with a schedule-runner plugin installed
/// this blocks for the life of the loop.
#[verifier::external_body]
pub(crate) fn run_app(app: &mut bevy::app::App) {
    let _ = app.run();
}

} // verus!
