//! A thin, verified facade over the `bevy` engine.
//!
//! The facade ([`MapBevyEngine`]) owns a `bevy` application, advances it one
//! tick at a time, and hands back an in-memory pixel buffer in headless mode.
//! The scene that a host would render, the camera motion, and the greeter
//! demo are modelled as plain data with exact contracts; the calls into
//! `bevy` itself stand behind the trusted items in [`runtime`].

pub mod engine;
pub mod greeter;
pub mod renderer;
pub mod runtime;
pub mod scene;

pub use engine::MapBevyEngine;
pub use engine::Mode;
pub use greeter::GreetTimer;
pub use greeter::add_people;
pub use greeter::greet_people;
pub use greeter::greeting;
pub use greeter::hello_world;
pub use greeter::update_people;
pub use renderer::FrameExtractor;
pub use scene::CameraYaw;
pub use scene::SceneObject;
pub use scene::rotate_camera;
pub use scene::setup_scene;
