//! What a scene tells the engine when one of its callbacks returns.

use vstd::prelude::*;

verus! {

/// The answer of a scene callback.
#[derive(Clone, Debug, PartialEq, Eq)]
pub enum Loop {
    /// Keep running, on the same scene.
    Continue,
    /// End the whole run.
    Break,
    /// Move on to the scene of this name.
    GoToScene(String),
}

/// The mathematical content of a [`Loop`].
pub enum Signal {
    Continue,
    Break,
    GoToScene(Seq<char>),
}

impl View for Loop {
    type V = Signal;

    open spec fn view(&self) -> Signal {
        match self {
            Loop::Continue => Signal::Continue,
            Loop::Break => Signal::Break,
            Loop::GoToScene(name) => Signal::GoToScene(name@),
        }
    }
}

} // verus!
