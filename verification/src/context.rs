//! What the engine lends to the scene whose callback runs.

use rand::ThreadRng;
use std::time::Instant;
use vstd::prelude::*;

use crate::registry::Registry;

verus! {

/// `std::time::Instant`: a point in time, of which nothing is read here.
#[verifier::external_type_specification]
#[verifier::external_body]
pub struct ExInstant(Instant);

/// `rand::ThreadRng`: the random generator of the running thread.
#[verifier::external_type_specification]
#[verifier::external_body]
pub struct ExThreadRng(ThreadRng);

/// The bundle that every callback of a scene is handed: the platform to
/// draw and play on, the clock, the random source and the registry.
///
/// The engine owns it and lends it to one callback at a time. It outlives
/// every scene, so what a scene leaves in it the next scene finds.
pub struct Context<P> {
    /// The window, renderer and sound of the host.
    pub platform: P,
    /// The instant at which the engine started.
    pub timer: Instant,
    /// The random source of the scenes.
    pub thread_rng: ThreadRng,
    /// The values that scenes hand to one another.
    pub registry: Registry,
}

} // verus!
