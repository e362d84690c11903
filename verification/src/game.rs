//! The application hook and the core that carries it.
//!
//! `GameApp` is the surface an application implements to be driven by the
//! frame loop: configuration, lifecycle notifications, and the per-frame
//! update and render callbacks.  The loop itself lives with the window and
//! event system outside this crate.

use vstd::prelude::*;
use crate::params::InitParams;
use crate::timer::GameTimer;

verus! {

/// What an application provides to be run by the frame loop.
pub trait GameApp {
    /// The configuration to bring the window and render core up with.
    fn get_params(&self) -> InitParams;

    /// Called when the game becomes the foreground application.
    fn activate(&mut self);

    /// Called when the game is sent to the background.
    fn deactivate(&mut self);

    /// Advances the application state by one update step.
    fn update(&mut self, timer: &GameTimer);

    /// Records the application's drawing for the current frame.
    fn render(&self, timer: &GameTimer);
}

/// The game core: owns the application it runs.
pub struct GameCore<A: GameApp> {
    pub app: A,
}

impl<A: GameApp> GameCore<A> {
    pub fn new(app: A) -> (r: Self)
        ensures
            r.app == app,
    {
        GameCore { app }
    }
}

} // verus!
