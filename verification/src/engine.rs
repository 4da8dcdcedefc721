//! The engine: it walks a stage of scenes frame by frame, loads and
//! unloads them as they ask for one another, and stops when one of them
//! breaks the loop.

use vstd::prelude::*;

use crate::config::FRAME_BUDGET_MS;
use crate::context::Context;
use crate::event::Event;
use crate::names::{has_name, lemma_place_of, place_of};
use crate::schedule::Schedule;
use crate::signal::{Loop, Signal};
use crate::stage::{MissingScene, Part, Stage};
use crate::trace::{Call, Callback};

pub mod laws;
pub mod view;

pub use self::view::{EngineView, Phase};

use self::view::{lemma_begun_inv, lemma_closed_inv, lemma_heard_inv, lemma_shut_inv};

verus! {

/// The milliseconds to sleep before the next frame, `elapsed` milliseconds
/// after the last frame began: the rest of the frame budget, or `None`
/// where the budget is used up and the next frame begins at once.
pub fn frame_pause(elapsed: u64) -> (pause: Option<u64>)
    ensures
        pause is Some <==> elapsed < FRAME_BUDGET_MS,
        pause is Some ==> pause->Some_0 == FRAME_BUDGET_MS - elapsed,
        pause is Some ==> 0 < pause->Some_0 <= FRAME_BUDGET_MS,
{
    if elapsed < FRAME_BUDGET_MS {
        Some(FRAME_BUDGET_MS - elapsed)
    } else {
        None
    }
}

/// The loop driver. It owns the stage and the context, and lends the
/// context to the scene whose callback runs.
///
/// A run is a row of frames. The host paces them and reads the input;
/// for each frame it calls `begin_frame`, then `dispatch` once for each
/// pending event, then `end_frame`, and stops as soon as one of them says
/// that the run is over. Then it calls `shutdown`.
#[verifier::reject_recursive_types(P)]
pub struct Engine<'a, P> {
    stage: Stage<'a, P>,
    context: Context<P>,
    schedule: Schedule,
    phase: Phase,
    active: usize,
    active_name: Ghost<Seq<char>>,
    calls: Ghost<Seq<Call>>,
}

impl<'a, P> View for Engine<'a, P> {
    type V = EngineView;

    closed spec fn view(&self) -> EngineView {
        EngineView {
            scenes: self.stage.names(),
            schedule: self.schedule@,
            phase: self.phase,
            active: self.active_name@,
            calls: self.calls@,
        }
    }
}

impl<'a, P> Engine<'a, P> {
    /// The engine is sound: its view meets the invariant, and within a
    /// frame and once the run has stopped it holds the place of the
    /// frame's scene on the stage.
    pub closed spec fn wf(&self) -> bool {
        &&& self.stage.wf()
        &&& self@.inv()
        &&& self.phase is Running || self.phase is Stopped ==> self.active
            < self.stage.names().len() && self.stage.names()[self.active as int]
            == self.active_name@
    }

    /// The scene at the place of the stage, as the stage keeps it.
    pub closed spec fn part_at(&self, place: int) -> Part<'a, P> {
        self.stage.part_at(place)
    }

    /// Every scene but the one at `place` is as it is in `earlier`.
    pub open spec fn same_parts_but(&self, earlier: &Self, place: int) -> bool {
        forall|i: int|
            0 <= i < self@.scenes.len() && i != place ==> self.part_at(i) == earlier.part_at(i)
    }

    /// Every scene is as it is in `earlier`.
    pub open spec fn same_parts(&self, earlier: &Self) -> bool {
        forall|i: int| 0 <= i < self@.scenes.len() ==> self.part_at(i) == earlier.part_at(i)
    }

    /// A sound engine meets the invariant.
    pub proof fn lemma_wf_inv(&self)
        requires
            self.wf(),
        ensures
            self@.inv(),
    {
    }

    /// An engine that will start on the scene of the given name.
    pub fn new(initial_scene: String, stage: Stage<'a, P>, context: Context<P>) -> (engine: Self)
        requires
            stage.wf(),
        ensures
            engine.wf(),
            engine@ == EngineView::start(stage.names(), initial_scene@),
            engine.shared() == context,
            forall|i: int| 0 <= i < stage.names().len() ==> engine.part_at(i) == stage.part_at(i),
    {
        let ghost name = initial_scene@;
        Engine {
            stage,
            context,
            schedule: Schedule::new(initial_scene),
            phase: Phase::Ready,
            active: 0,
            active_name: Ghost(name),
            calls: Ghost(Seq::empty()),
        }
    }

    /// Where the engine stands in its run.
    pub fn phase(&self) -> (phase: Phase)
        ensures
            phase == self@.phase,
    {
        self.phase
    }

    /// The name of the current scene.
    pub fn scene_name(&self) -> (name: &String)
        ensures
            name@ == self@.schedule.scene_name,
    {
        &self.schedule.scene_name
    }

    /// Whether the current scene has yet to be loaded.
    pub fn should_load(&self) -> (pending: bool)
        ensures
            pending == self@.schedule.should_load,
    {
        self.schedule.should_load
    }

    /// Whether the scene of the frame has yet to be unloaded.
    pub fn should_unload(&self) -> (pending: bool)
        ensures
            pending == self@.schedule.should_unload,
    {
        self.schedule.should_unload
    }

    /// The context that the scenes share, as a spec value.
    pub closed spec fn shared(&self) -> Context<P> {
        self.context
    }

    /// The context that the scenes share.
    pub fn context(&self) -> (context: &Context<P>)
        ensures
            *context == self.shared(),
    {
        &self.context
    }

    fn hear(&mut self, callback: Ghost<Callback>, signal: Loop) -> (running: bool)
        requires
            !(callback@ is Unload),
        ensures
            final(self)@ == old(self)@.heard(callback@, signal@),
            running == !(signal@ is Break),
            final(self).stage == old(self).stage,
            final(self).active == old(self).active,
    {
        proof {
            self.calls@ = self.calls@.push(
                Call { scene: self.active_name@, callback: callback@, signal: signal@ },
            );
        }
        let running = self.schedule.signal(signal);
        if !running {
            self.phase = Phase::Stopped;
        }
        running
    }

    fn hear_unload(&mut self, signal: Loop) -> (running: bool)
        ensures
            final(self)@ == old(self)@.heard(Callback::Unload, signal@),
            running == !(signal@ is Break),
            final(self).stage == old(self).stage,
            final(self).active == old(self).active,
    {
        proof {
            self.calls@ = self.calls@.push(
                Call { scene: self.active_name@, callback: Callback::Unload, signal: signal@ },
            );
        }
        let running = self.schedule.unload_signal(signal);
        if !running {
            self.phase = Phase::Stopped;
        }
        running
    }

    /// Begins a frame: finds the current scene on the stage and, where its
    /// load is pending, loads it. Says whether the run goes on, or that
    /// the stage has no scene of the current name.
    pub fn begin_frame(&mut self) -> (begun: Result<bool, MissingScene>)
        requires
            old(self).wf(),
            old(self)@.phase is Ready,
        ensures
            final(self).wf(),
            begun is Err <==> !has_name(old(self)@.scenes, old(self)@.schedule.scene_name),
            begun is Err ==> final(self)@ == old(self)@ && begun->Err_0.name@
                == old(self)@.schedule.scene_name,
            begun is Ok ==> final(self)@ == old(self)@.begun(final(self)@.last_signal())
                && begun->Ok_0 == (final(self)@.phase is Running),
            begun is Err || !old(self)@.schedule.should_load ==> final(self).shared() == old(
                self,
            ).shared() && final(self).same_parts(old(self)),
            final(self).same_parts_but(
                old(self),
                place_of(old(self)@.scenes, old(self)@.schedule.scene_name),
            ),
    {
        match self.stage.position(self.schedule.scene_name.as_str()) {
            Err(missing) => Err(missing),
            Ok(index) => {
                self.active = index;
                self.active_name = Ghost(self.schedule.scene_name@);
                self.phase = Phase::Running;
                if self.schedule.should_load {
                    self.schedule.should_load = false;
                    let scene = self.stage.scene_mut(index);
                    let signal = scene.on_load(&mut self.context);
                    proof {
                        lemma_begun_inv(old(self)@, signal@);
                    }
                    Ok(self.hear(Ghost(Callback::Load), signal))
                } else {
                    proof {
                        lemma_begun_inv(old(self)@, Signal::Continue);
                    }
                    Ok(true)
                }
            },
        }
    }

    /// Hands one input event to the scene of the frame, and says whether
    /// the run goes on.
    pub fn dispatch(&mut self, event: Event) -> (running: bool)
        requires
            old(self).wf(),
            old(self)@.phase is Running,
        ensures
            final(self).wf(),
            final(self)@ == old(self)@.dispatched(event, final(self)@.last_signal()),
            running == (final(self)@.phase is Running),
            final(self).same_parts_but(old(self), place_of(old(self)@.scenes, old(self)@.active)),
    {
        proof {
            lemma_place_of(self.stage.names(), self.active as int);
        }
        let scene = self.stage.scene_mut(self.active);
        let signal = scene.on_event(event, &mut self.context);
        proof {
            lemma_heard_inv(old(self)@, Callback::Event(event), signal@);
        }
        self.hear(Ghost(Callback::Event(event)), signal)
    }

    /// Ends the frame: ticks the scene of the frame and, where the run
    /// goes on and an unload is pending, unloads it. Says whether the run
    /// goes on.
    pub fn end_frame(&mut self) -> (running: bool)
        requires
            old(self).wf(),
            old(self)@.phase is Running,
        ensures
            final(self).wf(),
            final(self)@ == old(self)@.ended(
                final(self)@.calls[old(self)@.calls.len() as int].signal,
                final(self)@.last_signal(),
            ),
            running == (final(self)@.phase is Ready),
            final(self).same_parts_but(old(self), place_of(old(self)@.scenes, old(self)@.active)),
    {
        proof {
            lemma_place_of(self.stage.names(), self.active as int);
        }
        let scene = self.stage.scene_mut(self.active);
        let tick = scene.on_tick(&mut self.context);
        let ghost ticked = old(self)@.ticked(tick@);
        proof {
            lemma_heard_inv(old(self)@, Callback::Tick, tick@);
        }
        if !self.hear(Ghost(Callback::Tick), tick) {
            proof {
                lemma_closed_inv(ticked, Signal::Continue);
            }
            return false;
        }
        if self.schedule.should_unload {
            self.schedule.should_unload = false;
            let scene = self.stage.scene_mut(self.active);
            let unload = scene.on_unload(&mut self.context);
            proof {
                lemma_closed_inv(ticked, unload@);
            }
            if !self.hear_unload(unload) {
                return false;
            }
        } else {
            proof {
                lemma_closed_inv(ticked, Signal::Continue);
            }
        }
        self.phase = Phase::Ready;
        true
    }

    /// Shuts the run down: unloads the scene that the last frame ran on a
    /// last time, whatever it answers and whichever scene is current.
    pub fn shutdown(&mut self)
        requires
            old(self).wf(),
            old(self)@.phase is Stopped,
        ensures
            final(self).wf(),
            final(self)@ == old(self)@.shut(final(self)@.last_signal()),
            final(self).same_parts_but(old(self), place_of(old(self)@.scenes, old(self)@.active)),
    {
        proof {
            lemma_place_of(self.stage.names(), self.active as int);
        }
        let scene = self.stage.scene_mut(self.active);
        let signal = scene.on_unload(&mut self.context);
        proof {
            lemma_shut_inv(old(self)@, signal@);
            self.calls@ = self.calls@.push(
                Call { scene: self.active_name@, callback: Callback::Unload, signal: signal@ },
            );
        }
        self.phase = Phase::Finished;
    }
}

} // verus!
