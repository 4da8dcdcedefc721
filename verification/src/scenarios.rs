//! The scenes of the game, as far as they decide and lay out: what a
//! scene answers to an event, what it asks to be rendered and drawn. The
//! host does the rendering, the drawing and the sound.

use vstd::prelude::*;

use crate::signal::Loop;

pub mod game;
pub mod game_over;
pub mod menu;

verus! {

/// What a scene makes of an input event.
#[derive(Clone, Debug, PartialEq, Eq)]
pub struct Reaction {
    /// The answer to the engine.
    pub signal: Loop,
    /// Whether the scene's sound for the event is to be played, once.
    pub sound: bool,
}

} // verus!
