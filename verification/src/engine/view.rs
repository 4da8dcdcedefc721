//! The engine as a mathematical value: its states, the steps between
//! them, and what holds of every state.

use vstd::prelude::*;

use crate::event::Event;
use crate::names::{distinct, has_name};
use crate::schedule::ScheduleView;
use crate::signal::Signal;
use crate::trace::{
    last_loaded, lemma_last_loaded_push, lemma_orderly_push, may_follow, orderly, Call, Callback,
};

verus! {

/// Where an engine stands in its run.
#[derive(Clone, Copy, Debug, PartialEq, Eq, Structural)]
pub enum Phase {
    /// Between two frames: the next frame can begin.
    Ready,
    /// Within a frame: events can be dispatched and the frame ended.
    Running,
    /// A scene has broken the loop: what is left is to shut down.
    Stopped,
    /// The run is over.
    Finished,
}

/// The mathematical content of an [`Engine`].
pub struct EngineView {
    /// The names on the stage.
    pub scenes: Seq<Seq<char>>,
    /// The current scene and what is pending for it.
    pub schedule: ScheduleView,
    /// Where the engine stands in its run.
    pub phase: Phase,
    /// The scene that the frame runs on.
    pub active: Seq<char>,
    /// Every call made into a scene so far, with its answer.
    pub calls: Seq<Call>,
}

impl EngineView {
    /// An engine before its first frame.
    pub open spec fn start(scenes: Seq<Seq<char>>, initial_scene: Seq<char>) -> EngineView {
        EngineView {
            scenes,
            schedule: ScheduleView::start(initial_scene),
            phase: Phase::Ready,
            active: initial_scene,
            calls: Seq::empty(),
        }
    }

    /// The answer of the latest call.
    pub open spec fn last_signal(self) -> Signal {
        self.calls.last().signal
    }

    /// The engine once the scene of the frame has answered `signal` to
    /// `callback`: the call is on record, the schedule has taken the answer
    /// in, and a `Break` has stopped the run.
    pub open spec fn heard(self, callback: Callback, signal: Signal) -> EngineView {
        EngineView {
            schedule: if callback is Unload {
                self.schedule.after_unload(signal)
            } else {
                self.schedule.after(signal)
            },
            phase: if signal is Break {
                Phase::Stopped
            } else {
                self.phase
            },
            calls: self.calls.push(Call { scene: self.active, callback, signal }),
            ..self
        }
    }

    /// The engine once a frame has begun: the frame runs on the current
    /// scene, and where a load was pending, the scene has answered `signal`
    /// to it.
    pub open spec fn begun(self, signal: Signal) -> EngineView {
        let entered = EngineView {
            active: self.schedule.scene_name,
            phase: Phase::Running,
            ..self
        };
        if self.schedule.should_load {
            (EngineView { schedule: self.schedule.loading(), ..entered }).heard(
                Callback::Load,
                signal,
            )
        } else {
            entered
        }
    }

    /// The engine once the scene of the frame has been handed `event` and
    /// has answered `signal` to it.
    pub open spec fn dispatched(self, event: Event, signal: Signal) -> EngineView {
        self.heard(Callback::Event(event), signal)
    }

    /// The engine once the scene of the frame has answered `tick` to the
    /// tick, but before the frame is closed.
    pub open spec fn ticked(self, tick: Signal) -> EngineView {
        self.heard(Callback::Tick, tick)
    }

    /// Whether the frame, once ticked, goes on to unload its scene.
    pub open spec fn unloads(self) -> bool {
        self.phase is Running && self.schedule.should_unload
    }

    /// The engine once a ticked frame is closed: where an unload is
    /// pending and the run goes on, the scene of the frame has answered
    /// `unload` to it; and unless the run has stopped, the engine is ready
    /// for the next frame.
    pub open spec fn closed(self, unload: Signal) -> EngineView {
        let left = if self.unloads() {
            (EngineView { schedule: self.schedule.unloading(), ..self }).heard(
                Callback::Unload,
                unload,
            )
        } else {
            self
        };
        if left.phase is Running {
            EngineView { phase: Phase::Ready, ..left }
        } else {
            left
        }
    }

    /// The engine once the frame has ended: ticked with the answer `tick`,
    /// then closed with the answer `unload`.
    pub open spec fn ended(self, tick: Signal, unload: Signal) -> EngineView {
        self.ticked(tick).closed(unload)
    }

    /// The engine once it has shut down: the scene that the last frame ran
    /// on has answered `signal` to a last unload, and the run is over.
    pub open spec fn shut(self, signal: Signal) -> EngineView {
        EngineView {
            phase: Phase::Finished,
            calls: self.calls.push(Call { scene: self.active, callback: Callback::Unload, signal }),
            ..self
        }
    }

    /// The engine after the events, in order, where each was answered
    /// with `Continue`.
    pub open spec fn dispatched_quietly(self, events: Seq<Event>) -> EngineView
        decreases events.len(),
    {
        if events.len() == 0 {
            self
        } else {
            self.dispatched_quietly(events.drop_last()).dispatched(
                events.last(),
                Signal::Continue,
            )
        }
    }

    /// The engine after a whole frame with the events, in which every
    /// callback answered `Continue`.
    pub open spec fn quiet_frame(self, events: Seq<Event>) -> EngineView {
        self.begun(Signal::Continue).dispatched_quietly(events).ended(
            Signal::Continue,
            Signal::Continue,
        )
    }

    /// The engine after one such frame for each entry of `frames`, which
    /// gives the events of that frame.
    pub open spec fn quiet_frames(self, frames: Seq<Seq<Event>>) -> EngineView
        decreases frames.len(),
    {
        if frames.len() == 0 {
            self
        } else {
            self.quiet_frames(frames.drop_last()).quiet_frame(frames.last())
        }
    }

    /// The record of `self` goes on from the record of `earlier`.
    pub open spec fn extends(self, earlier: EngineView) -> bool {
        &&& earlier.calls.len() <= self.calls.len()
        &&& forall|i: int| 0 <= i < earlier.calls.len() ==> self.calls[i] == earlier.calls[i]
    }

    /// What holds of every engine, whatever its scenes have answered.
    ///
    /// The names on the stage are distinct, and the record of calls is
    /// orderly. Between frames no unload is pending, and a pending load
    /// means that the run has just begun or that the latest call unloaded
    /// the scene loaded last; without one, the current scene is the one
    /// loaded last. Within a frame the frame runs on a scene of the stage,
    /// which is the scene loaded last; a pending load comes with a pending
    /// unload, and without one the current scene is that of the frame. Once
    /// the run has stopped, the scene that the last frame ran on is still a
    /// scene of the stage and the one loaded last.
    pub open spec fn inv(self) -> bool {
        &&& distinct(self.scenes)
        &&& orderly(self.calls)
        &&& self.phase is Ready ==> {
            &&& !self.schedule.should_unload
            &&& self.schedule.should_load ==> may_follow(
                self.calls,
                Call {
                    scene: self.schedule.scene_name,
                    callback: Callback::Load,
                    signal: Signal::Continue,
                },
            )
            &&& !self.schedule.should_load ==> last_loaded(self.calls) == Some(
                self.schedule.scene_name,
            )
        }
        &&& self.phase is Running ==> {
            &&& has_name(self.scenes, self.active)
            &&& last_loaded(self.calls) == Some(self.active)
            &&& self.schedule.should_load ==> self.schedule.should_unload
            &&& !self.schedule.should_load ==> self.schedule.scene_name == self.active
        }
        &&& self.phase is Stopped ==> {
            &&& has_name(self.scenes, self.active)
            &&& last_loaded(self.calls) == Some(self.active)
        }
    }
}

/// An engine before its first frame meets the invariant.
pub proof fn lemma_start_inv(scenes: Seq<Seq<char>>, initial_scene: Seq<char>)
    requires
        distinct(scenes),
    ensures
        EngineView::start(scenes, initial_scene).inv(),
{
}

/// Beginning a frame on a scene of the stage keeps the invariant.
pub proof fn lemma_begun_inv(view: EngineView, signal: Signal)
    requires
        view.inv(),
        view.phase is Ready,
        has_name(view.scenes, view.schedule.scene_name),
    ensures
        view.begun(signal).inv(),
        view.begun(signal).phase is Running || view.begun(signal).phase is Stopped,
{
    if view.schedule.should_load {
        let call = Call { scene: view.schedule.scene_name, callback: Callback::Load, signal };
        lemma_last_loaded_push(view.calls, call);
        lemma_orderly_push(view.calls, call);
    }
}

/// Within a frame, the answer to an event or to the tick keeps the
/// invariant.
pub proof fn lemma_heard_inv(view: EngineView, callback: Callback, signal: Signal)
    requires
        view.inv(),
        view.phase is Running,
        callback is Event || callback is Tick,
    ensures
        view.heard(callback, signal).inv(),
        view.heard(callback, signal).phase is Running || view.heard(callback, signal).phase
            is Stopped,
{
    let call = Call { scene: view.active, callback, signal };
    lemma_last_loaded_push(view.calls, call);
    lemma_orderly_push(view.calls, call);
}

/// Closing a ticked frame keeps the invariant.
pub proof fn lemma_closed_inv(view: EngineView, unload: Signal)
    requires
        view.inv(),
        view.phase is Running || view.phase is Stopped,
    ensures
        view.closed(unload).inv(),
        view.closed(unload).phase is Ready || view.closed(unload).phase is Stopped,
{
    if view.unloads() {
        let call = Call { scene: view.active, callback: Callback::Unload, signal: unload };
        lemma_last_loaded_push(view.calls, call);
        lemma_orderly_push(view.calls, call);
    }
}

/// Shutting down keeps the invariant.
pub proof fn lemma_shut_inv(view: EngineView, signal: Signal)
    requires
        view.inv(),
        view.phase is Stopped,
    ensures
        view.shut(signal).inv(),
{
    let call = Call { scene: view.active, callback: Callback::Unload, signal };
    lemma_orderly_push(view.calls, call);
}

} // verus!
