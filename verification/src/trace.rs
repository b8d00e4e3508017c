//! Runs of a store: what happens to it, one event after another. The laws
//! that speak of several calls, or of timers, are stated over these.

use crate::model::StoreState;
use crate::types::{OptionsView, RequestView};
use vstd::prelude::*;

verus! {

/// One thing that happens to a store.
pub enum Event {
    /// A caller pushes a request.
    Push(RequestView),
    /// A caller, or the close control, removes an id.
    Remove(nat),
    /// The user clicks on the body of a toast.
    Tap(nat),
    /// A timer that the host set for an id fires.
    Expire(nat),
    /// A caller clears the store.
    Clear,
    /// The host replaces the options.
    UpdateOptions(OptionsView),
}

/// The state after one event. A timer that fires does what a removal does.
pub open spec fn step(state: StoreState, event: Event) -> StoreState {
    match event {
        Event::Push(request) => state.push(request),
        Event::Remove(id) => state.remove(id),
        Event::Tap(id) => state.tap(id),
        Event::Expire(id) => state.remove(id),
        Event::Clear => state.clear(),
        Event::UpdateOptions(options) => state.update_options(options),
    }
}

/// The state after a run of events, first to last.
pub open spec fn run(state: StoreState, events: Seq<Event>) -> StoreState
    decreases events.len(),
{
    if events.len() == 0 {
        state
    } else {
        step(run(state, events.drop_last()), events.last())
    }
}

/// The state in which event `k` of a run happens.
pub open spec fn state_at(state: StoreState, events: Seq<Event>, k: int) -> StoreState {
    run(state, events.take(k))
}

/// What event `k` of a run returns to its caller, where it is a push: the
/// new id, or 0. Other events return no id; for them this is 0.
pub open spec fn returned(state: StoreState, events: Seq<Event>, k: int) -> nat {
    match events[k] {
        Event::Push(request) => state_at(state, events, k).push_id(request),
        _ => 0,
    }
}

/// The timer that event `k` of a run asks the host to set, if any.
pub open spec fn timer_set(state: StoreState, events: Seq<Event>, k: int) -> Option<nat> {
    match events[k] {
        Event::Push(request) => state_at(state, events, k).scheduled(request),
        _ => None,
    }
}

/// Timers fire only where one was set: each expiry in the run is for an id
/// that an earlier push of the run returned together with a timer, or for an
/// id that was handed out before the run began.
pub open spec fn timers_were_set(state: StoreState, events: Seq<Event>) -> bool {
    forall|m: int|
        0 <= m < events.len() ==> (#[trigger] events[m] matches Event::Expire(id) ==> {
            ||| id < state.next_id
            ||| exists|j: int|
                0 <= j < m && #[trigger] returned(state, events, j) == id && timer_set(
                    state,
                    events,
                    j,
                ) is Some
        })
}

/// The event takes toast `id` away on purpose: it is a removal or a tap of
/// that id, or a clear.
pub open spec fn dismisses(event: Event, id: nat) -> bool {
    match event {
        Event::Remove(x) => x == id,
        Event::Tap(x) => x == id,
        Event::Clear => true,
        _ => false,
    }
}

/// The state in which event `k + 1` happens is the state in which event `k`
/// happened, after event `k`.
pub proof fn lemma_state_after(state: StoreState, events: Seq<Event>, k: int)
    requires
        0 <= k < events.len(),
    ensures
        state_at(state, events, k + 1) == step(state_at(state, events, k), events[k]),
{
    assert(events.take(k + 1).drop_last() =~= events.take(k));
}

/// The id counter never goes back.
pub proof fn lemma_counter_never_goes_back(state: StoreState, events: Seq<Event>, a: int, b: int)
    requires
        0 <= a <= b <= events.len(),
    ensures
        state_at(state, events, a).next_id <= state_at(state, events, b).next_id,
    decreases b - a,
{
    if a < b {
        lemma_counter_never_goes_back(state, events, a, b - 1);
        lemma_state_after(state, events, b - 1);
    }
}

/// Every event leaves a well-formed state well formed.
pub proof fn lemma_step_keeps_wf(state: StoreState, event: Event)
    requires
        state.wf(),
    ensures
        step(state, event).wf(),
{
    match event {
        Event::Push(request) => {
            crate::model::lemma_push_keeps_wf(state, request);
        },
        Event::Remove(id) => {
            crate::model::lemma_remove_keeps_wf(state, id);
        },
        Event::Tap(id) => {
            crate::model::lemma_remove_keeps_wf(state, id);
        },
        Event::Expire(id) => {
            crate::model::lemma_remove_keeps_wf(state, id);
        },
        Event::Clear => {},
        Event::UpdateOptions(options) => {},
    }
}

/// Every run leaves a well-formed state well formed.
pub proof fn lemma_run_keeps_wf(state: StoreState, events: Seq<Event>)
    requires
        state.wf(),
    ensures
        run(state, events).wf(),
    decreases events.len(),
{
    if events.len() > 0 {
        lemma_run_keeps_wf(state, events.drop_last());
        lemma_step_keeps_wf(run(state, events.drop_last()), events.last());
    }
}

} // verus!
