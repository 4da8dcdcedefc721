//! What follows for a run from the steps of the engine: how frames pass
//! while the scenes answer `Continue`, and how one scene follows another.

use vstd::prelude::*;

use crate::engine::view::{
    lemma_begun_inv, lemma_closed_inv, lemma_heard_inv, EngineView,
};
use crate::event::Event;
use crate::names::has_name;
use crate::schedule::ScheduleView;
use crate::signal::Signal;
use crate::trace::{last_loaded, lemma_last_loaded_push, may_follow, Call, Callback};

verus! {

/// Events that are answered with `Continue` leave the engine as it is,
/// but for the record, which grows by one call for each: the scene of the
/// frame is handed the events one by one, in their order.
pub proof fn lemma_dispatched_quietly(view: EngineView, events: Seq<Event>)
    requires
        view.inv(),
        view.phase is Running,
    ensures
        ({
            let after = view.dispatched_quietly(events);
            &&& after.inv()
            &&& after == EngineView { calls: after.calls, ..view }
            &&& after.extends(view)
            &&& after.calls.len() == view.calls.len() + events.len()
            &&& forall|i: int|
                view.calls.len() <= i < after.calls.len() ==> after.calls[i] == Call {
                    scene: view.active,
                    callback: Callback::Event(events[i - view.calls.len()]),
                    signal: Signal::Continue,
                }
        }),
    decreases events.len(),
{
    if events.len() > 0 {
        let before = view.dispatched_quietly(events.drop_last());
        lemma_dispatched_quietly(view, events.drop_last());
        lemma_heard_inv(before, Callback::Event(events.last()), Signal::Continue);
    }
}

/// While every callback answers `Continue`, a frame leaves the current
/// scene as it is and leaves nothing pending. It loads the scene only
/// where the load was pending as the frame began, as the first call of
/// the frame, and it unloads nothing; every call goes to the current
/// scene.
pub proof fn lemma_quiet_frame(view: EngineView, events: Seq<Event>)
    requires
        view.inv(),
        view.phase is Ready,
        has_name(view.scenes, view.schedule.scene_name),
    ensures
        ({
            let after = view.quiet_frame(events);
            let loads: nat = if view.schedule.should_load {
                1
            } else {
                0
            };
            &&& after.inv()
            &&& after.phase is Ready
            &&& after.scenes == view.scenes
            &&& after.schedule == view.schedule.loading()
            &&& after.extends(view)
            &&& after.calls.len() == view.calls.len() + loads + events.len() + 1
            &&& forall|i: int|
                view.calls.len() <= i < after.calls.len() ==> {
                    &&& (#[trigger] after.calls[i]).scene == view.schedule.scene_name
                    &&& after.calls[i].signal == Signal::Continue
                    &&& !(after.calls[i].callback is Unload)
                    &&& after.calls[i].callback is Load <==> view.schedule.should_load && i
                        == view.calls.len()
                    &&& after.calls[i].callback is Tick <==> i == after.calls.len() - 1
                }
        }),
{
    let begun = view.begun(Signal::Continue);
    lemma_begun_inv(view, Signal::Continue);
    let drained = begun.dispatched_quietly(events);
    lemma_dispatched_quietly(begun, events);
    lemma_heard_inv(drained, Callback::Tick, Signal::Continue);
    lemma_closed_inv(drained.ticked(Signal::Continue), Signal::Continue);
}

/// Once a scene is loaded, frames in which every callback answers
/// `Continue` never change the current scene and never load or unload
/// again: all that they add to the record are events and ticks of that
/// scene.
pub proof fn lemma_quiet_frames(view: EngineView, frames: Seq<Seq<Event>>)
    requires
        view.inv(),
        view.phase is Ready,
        has_name(view.scenes, view.schedule.scene_name),
        !view.schedule.should_load,
    ensures
        ({
            let after = view.quiet_frames(frames);
            &&& after.inv()
            &&& after.phase is Ready
            &&& after.scenes == view.scenes
            &&& after.schedule == view.schedule
            &&& after.extends(view)
            &&& forall|i: int|
                view.calls.len() <= i < after.calls.len() ==> {
                    &&& (#[trigger] after.calls[i]).scene == view.schedule.scene_name
                    &&& after.calls[i].callback is Event || after.calls[i].callback is Tick
                }
        }),
    decreases frames.len(),
{
    if frames.len() > 0 {
        let before = view.quiet_frames(frames.drop_last());
        lemma_quiet_frames(view, frames.drop_last());
        lemma_quiet_frame(before, frames.last());
    }
}

/// A `GoToScene` that answers an event or the tick makes the named scene
/// current and leaves its load and the unload of the frame's scene
/// pending. The frame goes on, on the scene it began on.
pub proof fn lemma_go_to_scene_pends(view: EngineView, callback: Callback, name: Seq<char>)
    requires
        view.phase is Running,
        !(callback is Unload),
    ensures
        ({
            let heard = view.heard(callback, Signal::GoToScene(name));
            &&& heard.phase is Running
            &&& heard.active == view.active
            &&& heard.schedule == ScheduleView {
                scene_name: name,
                should_load: true,
                should_unload: true,
            }
        }),
{
}

/// The same of a `GoToScene` that answers the load with which a frame
/// begins: the frame still runs on the scene that was loaded.
pub proof fn lemma_go_to_scene_on_load(view: EngineView, name: Seq<char>)
    requires
        view.phase is Ready,
        view.schedule.should_load,
    ensures
        ({
            let begun = view.begun(Signal::GoToScene(name));
            &&& begun.phase is Running
            &&& begun.active == view.schedule.scene_name
            &&& begun.schedule == ScheduleView {
                scene_name: name,
                should_load: true,
                should_unload: true,
            }
        }),
{
}

/// A pending move to another scene is carried out in order. Where the
/// rest of the frame answers `Continue`, the frame ends with the tick and
/// then the unload of the scene it runs on; the next frame begins with the
/// load of the scene that was asked for, and runs on it. So the scene
/// that is left is unloaded before the next one is loaded, and the next
/// one sees no event and no tick before its load.
pub proof fn lemma_move_in_order(view: EngineView, events: Seq<Event>, answer: Signal)
    requires
        view.inv(),
        view.phase is Running,
        view.schedule.should_load,
    ensures
        ({
            let after = view.dispatched_quietly(events).ended(Signal::Continue, Signal::Continue);
            let next = after.begun(answer);
            &&& after.inv()
            &&& after.phase is Ready
            &&& after.schedule == ScheduleView { should_unload: false, ..view.schedule }
            &&& after.calls.len() == view.calls.len() + events.len() + 2
            &&& after.calls[after.calls.len() - 2] == Call {
                scene: view.active,
                callback: Callback::Tick,
                signal: Signal::Continue,
            }
            &&& after.calls.last() == Call {
                scene: view.active,
                callback: Callback::Unload,
                signal: Signal::Continue,
            }
            &&& next.active == view.schedule.scene_name
            &&& next.calls == after.calls.push(
                Call { scene: view.schedule.scene_name, callback: Callback::Load, signal: answer },
            )
        }),
{
    let drained = view.dispatched_quietly(events);
    lemma_dispatched_quietly(view, events);
    lemma_heard_inv(drained, Callback::Tick, Signal::Continue);
    lemma_closed_inv(drained.ticked(Signal::Continue), Signal::Continue);
}

/// An unload that answers `GoToScene` turns the next load to the scene it
/// names, and the unload is not repeated.
pub proof fn lemma_unload_redirects(view: EngineView, name: Seq<char>, answer: Signal)
    requires
        view.inv(),
        view.phase is Running,
        view.schedule.should_unload,
    ensures
        ({
            let after = view.closed(Signal::GoToScene(name));
            let next = after.begun(answer);
            &&& after.phase is Ready
            &&& after.schedule == ScheduleView {
                scene_name: name,
                should_load: true,
                should_unload: false,
            }
            &&& after.calls == view.calls.push(
                Call {
                    scene: view.active,
                    callback: Callback::Unload,
                    signal: Signal::GoToScene(name),
                },
            )
            &&& next.calls == after.calls.push(
                Call { scene: name, callback: Callback::Load, signal: answer },
            )
        }),
{
}

/// A `Break` stops the run whichever callback answers it: the call is
/// the last of the frame, the current scene stays as it was, and the
/// engine waits to be shut down.
pub proof fn lemma_break_stops(view: EngineView, callback: Callback)
    requires
        view.phase is Running,
    ensures
        ({
            let heard = view.heard(callback, Signal::Break);
            &&& heard.phase is Stopped
            &&& heard.schedule.scene_name == view.schedule.scene_name
            &&& heard.schedule.should_unload
            &&& heard.calls == view.calls.push(
                Call { scene: view.active, callback, signal: Signal::Break },
            )
            &&& heard.closed(Signal::Continue) == heard
        }),
{
}

/// A tick that answers `Break` ends the run at once: the frame unloads
/// nothing, and shutting down adds one unload and no other call. The
/// unload goes to the scene that the frame ran on, which is the scene
/// loaded last, whether or not a move to another scene was pending; and
/// whatever it answers, the run is over.
pub proof fn lemma_break_ends_run(view: EngineView, unload: Signal, answer: Signal)
    requires
        view.inv(),
        view.phase is Running,
    ensures
        ({
            let ended = view.ended(Signal::Break, unload);
            let shut = ended.shut(answer);
            &&& ended.phase is Stopped
            &&& ended.calls == view.calls.push(
                Call { scene: view.active, callback: Callback::Tick, signal: Signal::Break },
            )
            &&& shut.phase is Finished
            &&& shut.calls == ended.calls.push(
                Call { scene: view.active, callback: Callback::Unload, signal: answer },
            )
            &&& last_loaded(ended.calls) == Some(view.active)
            &&& has_name(shut.scenes, view.active)
            &&& shut.schedule == ended.schedule
        }),
{
    lemma_heard_inv(view, Callback::Tick, Signal::Break);
}

/// Shutting down unloads the scene that the last frame ran on, whichever
/// callback has stopped the run and whichever scene is current by then.
pub proof fn lemma_shutdown_unloads_the_frame(view: EngineView, answer: Signal)
    requires
        view.inv(),
        view.phase is Stopped,
    ensures
        ({
            let shut = view.shut(answer);
            &&& shut.phase is Finished
            &&& shut.calls == view.calls.push(
                Call { scene: view.active, callback: Callback::Unload, signal: answer },
            )
            &&& last_loaded(view.calls) == Some(view.active)
            &&& has_name(view.scenes, view.active)
        }),
{
}

/// In the record of every engine, an event, a tick or an unload goes to
/// the scene that was loaded last before it, and a load that is not the
/// first call follows at once on the unload of the scene that was loaded
/// last.
pub proof fn lemma_calls_in_order(view: EngineView, i: int)
    requires
        view.inv(),
        0 <= i < view.calls.len(),
    ensures
        !(view.calls[i].callback is Load) ==> last_loaded(view.calls.take(i)) == Some(
            view.calls[i].scene,
        ),
        view.calls[i].callback is Load && i > 0 ==> view.calls[i - 1].callback is Unload
            && last_loaded(view.calls.take(i)) == Some(view.calls[i - 1].scene),
{
    assert(may_follow(view.calls.take(i), view.calls[i]));
    if i > 0 {
        let before = view.calls.take(i - 1);
        assert(view.calls.take(i).last() == view.calls[i - 1]);
        assert(may_follow(before, view.calls[i - 1]));
        assert(view.calls.take(i) =~= before.push(view.calls[i - 1]));
        lemma_last_loaded_push(before, view.calls[i - 1]);
    }
}

} // verus!
