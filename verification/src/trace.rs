//! The calls that an engine has made into its scenes, in order, and the
//! order that every such record keeps.

use vstd::prelude::*;

use crate::event::Event;
use crate::signal::Signal;

verus! {

/// The four callbacks of a scene, the one for events with the event that
/// the scene is handed.
pub enum Callback {
    Load,
    Event(Event),
    Tick,
    Unload,
}

/// One call into a scene: which scene, which callback, and the answer.
pub struct Call {
    pub scene: Seq<char>,
    pub callback: Callback,
    pub signal: Signal,
}

/// The scene of the latest load among the calls, if there was a load.
pub open spec fn last_loaded(calls: Seq<Call>) -> Option<Seq<char>>
    decreases calls.len(),
{
    if calls.len() == 0 {
        None
    } else if calls.last().callback is Load {
        Some(calls.last().scene)
    } else {
        last_loaded(calls.drop_last())
    }
}

/// Whether `call` may follow the calls `before`.
///
/// An event, a tick or an unload goes to the scene that was loaded last.
/// A load is the first call of all, or follows at once on an unload.
pub open spec fn may_follow(before: Seq<Call>, call: Call) -> bool {
    match call.callback {
        Callback::Load => before.len() == 0 || before.last().callback is Unload,
        Callback::Event(_) | Callback::Tick | Callback::Unload => last_loaded(before) == Some(
            call.scene,
        ),
    }
}

/// Every call may follow the calls before it.
pub open spec fn orderly(calls: Seq<Call>) -> bool {
    forall|i: int| 0 <= i < calls.len() ==> may_follow(#[trigger] calls.take(i), calls[i])
}

/// The latest load after one more call.
pub proof fn lemma_last_loaded_push(calls: Seq<Call>, call: Call)
    ensures
        last_loaded(calls.push(call)) == (if call.callback is Load {
            Some(call.scene)
        } else {
            last_loaded(calls)
        }),
{
    assert(calls.push(call).drop_last() =~= calls);
}

/// An orderly record stays orderly with one more call that may follow it.
pub proof fn lemma_orderly_push(calls: Seq<Call>, call: Call)
    requires
        orderly(calls),
        may_follow(calls, call),
    ensures
        orderly(calls.push(call)),
{
    let longer = calls.push(call);
    assert forall|i: int| 0 <= i < longer.len() implies may_follow(
        #[trigger] longer.take(i),
        longer[i],
    ) by {
        if i < calls.len() {
            assert(longer.take(i) =~= calls.take(i));
        } else {
            assert(longer.take(i) =~= calls);
        }
    }
}

} // verus!
