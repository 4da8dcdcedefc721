//! Which scene is current and what is pending for it: the state that the
//! engine carries from one callback to the next.

use vstd::prelude::*;

use crate::signal::{Loop, Signal};

verus! {

/// The current scene and the two pending steps of its life cycle.
pub struct Schedule {
    /// The name of the current scene.
    pub scene_name: String,
    /// The current scene has yet to be loaded.
    pub should_load: bool,
    /// The scene that the frame runs on has yet to be unloaded.
    pub should_unload: bool,
}

/// The mathematical content of a [`Schedule`].
pub struct ScheduleView {
    pub scene_name: Seq<char>,
    pub should_load: bool,
    pub should_unload: bool,
}

impl View for Schedule {
    type V = ScheduleView;

    open spec fn view(&self) -> ScheduleView {
        ScheduleView {
            scene_name: self.scene_name@,
            should_load: self.should_load,
            should_unload: self.should_unload,
        }
    }
}

impl ScheduleView {
    /// The schedule that a run starts with: the first scene waits to be
    /// loaded, and nothing waits to be unloaded.
    pub open spec fn start(initial: Seq<char>) -> ScheduleView {
        ScheduleView { scene_name: initial, should_load: true, should_unload: false }
    }

    /// The schedule once a load, an event or a tick has answered `signal`.
    pub open spec fn after(self, signal: Signal) -> ScheduleView {
        match signal {
            Signal::Continue => self,
            Signal::Break => ScheduleView { should_unload: true, ..self },
            Signal::GoToScene(name) => ScheduleView {
                scene_name: name,
                should_load: true,
                should_unload: true,
            },
        }
    }

    /// The schedule once an unload has answered `signal`.
    pub open spec fn after_unload(self, signal: Signal) -> ScheduleView {
        match signal {
            Signal::Continue => self,
            Signal::Break => ScheduleView { should_unload: true, ..self },
            Signal::GoToScene(name) => ScheduleView { scene_name: name, should_load: true, ..self },
        }
    }

    /// The schedule with the pending load taken up.
    pub open spec fn loading(self) -> ScheduleView {
        ScheduleView { should_load: false, ..self }
    }

    /// The schedule with the pending unload taken up.
    pub open spec fn unloading(self) -> ScheduleView {
        ScheduleView { should_unload: false, ..self }
    }
}

impl Schedule {
    /// The schedule that a run starts with.
    pub fn new(initial_scene: String) -> (schedule: Schedule)
        ensures
            schedule@ == ScheduleView::start(initial_scene@),
    {
        Schedule { scene_name: initial_scene, should_load: true, should_unload: false }
    }

    /// Takes in the answer of a load, an event or a tick, and says whether
    /// the run goes on.
    pub fn signal(&mut self, signal: Loop) -> (running: bool)
        ensures
            final(self)@ == old(self)@.after(signal@),
            running == !(signal@ is Break),
    {
        match signal {
            Loop::Continue => true,
            Loop::Break => {
                self.should_unload = true;
                false
            },
            Loop::GoToScene(name) => {
                self.scene_name = name;
                self.should_load = true;
                self.should_unload = true;
                true
            },
        }
    }

    /// Takes in the answer of an unload, and says whether the run goes on.
    pub fn unload_signal(&mut self, signal: Loop) -> (running: bool)
        ensures
            final(self)@ == old(self)@.after_unload(signal@),
            running == !(signal@ is Break),
    {
        match signal {
            Loop::Continue => true,
            Loop::Break => {
                self.should_unload = true;
                false
            },
            Loop::GoToScene(name) => {
                self.scene_name = name;
                self.should_load = true;
                true
            },
        }
    }
}

/// A `Continue` changes nothing: the current scene stays, and nothing
/// becomes pending that was not.
pub proof fn lemma_continue_keeps_schedule(schedule: ScheduleView)
    ensures
        schedule.after(Signal::Continue) == schedule,
        schedule.after_unload(Signal::Continue) == schedule,
{
}

/// Of two answers in a row the later one decides: whatever the first
/// asked for, a following `GoToScene` names the current scene, and a
/// following `Break` leaves the name that the first set.
pub proof fn lemma_latest_signal_decides(schedule: ScheduleView, first: Signal, name: Seq<char>)
    ensures
        schedule.after(first).after(Signal::GoToScene(name)) == schedule.after(
            Signal::GoToScene(name),
        ),
        schedule.after(first).after(Signal::Break).scene_name == schedule.after(first).scene_name,
        schedule.after(first).after(Signal::Break).should_unload,
{
}

} // verus!
