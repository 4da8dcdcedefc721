//! Compiled-in settings of the game window.

use vstd::prelude::*;

verus! {

/// The title of the game.
pub const TITLE: &'static str = "Endless Jumper";

/// The version of the game.
pub const VERSION: &'static str = "0.1.0";

/// Width of the window, in pixels.
pub const WINDOW_WIDTH: u32 = 800;

/// Height of the window, in pixels.
pub const WINDOW_HEIGHT: u32 = 600;

/// The shortest time a frame may take, in milliseconds.
pub const FRAME_BUDGET_MS: u64 = 15;

} // verus!
