//! The input events that scenes react to.

use vstd::prelude::*;

verus! {

/// A key of the keyboard, as far as the scenes tell keys apart.
#[derive(Clone, Copy, Debug, PartialEq, Eq, Structural)]
pub enum Key {
    Space,
    Other,
}

/// An input event, with what the scenes read of it.
#[derive(Clone, Copy, Debug, PartialEq, Eq, Structural)]
pub enum Event {
    /// The user asked to close the window.
    Quit,
    /// The mouse moved to the point.
    MouseMotion { x: i32, y: i32 },
    /// A mouse button was released at the point.
    MouseButtonUp { x: i32, y: i32 },
    /// A key went down.
    KeyDown { key: Key },
    /// A key came up.
    KeyUp { key: Key },
    /// Anything else.
    Other,
}

} // verus!
