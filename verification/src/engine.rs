//! The engine facade.
//!
//! [`MapBevyEngine`] owns the underlying `bevy` application together with
//! the requested dimensions and the chosen [`Mode`]. The dimensions and the
//! mode are set at construction and never change; `update` advances the
//! application one tick, and `get_frame_buffer` hands back the placeholder
//! pixel buffer in headless mode and nothing in windowed mode.

use vstd::prelude::*;

use crate::renderer::FrameExtractor;
use crate::renderer::all_zero;
use crate::renderer::frame_buffer_len;
use crate::runtime;

verus! {

/// Whether the engine drives a window or renders headless.
#[derive(PartialEq, Eq, Structural, Clone, Copy, Debug)]
pub enum Mode {
    Windowed,
    Headless,
}

/// A facade over one `bevy` application.
pub struct MapBevyEngine {
    app: bevy::app::App,
    width: u32,
    height: u32,
    mode: Mode,
}

impl MapBevyEngine {
    /// The dimensions the engine was constructed with.
    pub closed spec fn spec_dimensions(&self) -> (u32, u32) {
        (self.width, self.height)
    }

    /// The mode the engine was constructed in.
    pub closed spec fn spec_mode(&self) -> Mode {
        self.mode
    }

    /// The engine renders without a window.
    pub open spec fn is_headless(&self) -> bool {
        self.spec_mode() == Mode::Headless
    }

    /// Constructs an engine with a minimal runtime and no window, and seeds
    /// its world with the placeholder camera entity. Any dimensions are
    /// accepted unchecked.
    pub fn new_headless(width: u32, height: u32) -> (engine: Self)
        ensures
            engine.spec_dimensions() == (width, height),
            engine.spec_mode() == Mode::Headless,
    {
        let mut app = runtime::new_app();
        runtime::add_minimal_plugins(&mut app);
        runtime::spawn_placeholder_entity(&mut app);
        MapBevyEngine { app, width, height, mode: Mode::Headless }
    }

    /// Constructs an engine with the full plugin set of the enabled engine
    /// features. The title names the window where a windowing backend is
    /// among them; the host that spawns the scene and registers its
    /// interactive systems owns that backend. Any dimensions are accepted
    /// unchecked.
    pub fn new_windowed(width: u32, height: u32, _title: &str) -> (engine: Self)
        ensures
            engine.spec_dimensions() == (width, height),
            engine.spec_mode() == Mode::Windowed,
    {
        let mut app = runtime::new_app();
        runtime::add_default_plugins(&mut app);
        MapBevyEngine { app, width, height, mode: Mode::Windowed }
    }

    /// Advances the underlying application by exactly one tick. Whatever the
    /// scheduled systems do to the world, the dimensions and the mode stay
    /// as constructed.
    pub fn update(&mut self)
        ensures
            final(self).spec_dimensions() == old(self).spec_dimensions(),
            final(self).spec_mode() == old(self).spec_mode(),
    {
        runtime::update_app(&mut self.app);
    }

    /// Returns the frame buffer in headless mode and nothing in windowed
    /// mode.
    ///
    /// The headless buffer is the placeholder of [`FrameExtractor`]: always
    /// `width * height * 4` zero bytes, never rendered content.
    pub fn get_frame_buffer(&self) -> (buffer: Option<Vec<u8>>)
        requires
            self.is_headless() ==> frame_buffer_len(
                self.spec_dimensions().0,
                self.spec_dimensions().1,
            ) <= usize::MAX,
        ensures
            self.is_headless() <==> buffer is Some,
            buffer matches Some(buf) ==> buf@.len() == frame_buffer_len(
                self.spec_dimensions().0,
                self.spec_dimensions().1,
            ) && all_zero(buf@),
    {
        match self.mode {
            Mode::Headless => {
                let extractor = FrameExtractor::new(self.width, self.height);
                Some(extractor.extract_frame())
            },
            Mode::Windowed => None,
        }
    }

    /// Hands control to the underlying application's blocking run loop, for
    /// engines constructed in windowed mode.
    pub fn run(self)
        requires
            self.spec_mode() == Mode::Windowed,
    {
        let mut app = self.app;
        runtime::run_app(&mut app);
    }

    /// Returns the stored `(width, height)` pair.
    pub fn dimensions(&self) -> (dims: (u32, u32))
        ensures
            dims == self.spec_dimensions(),
    {
        (self.width, self.height)
    }
}

} // verus!
