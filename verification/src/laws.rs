//! What holds of every store, whatever is done to it.

use crate::model::{lemma_pushed_is_found, same_content, StoreState};
use crate::trace::{
    dismisses, lemma_counter_never_goes_back, lemma_run_keeps_wf, lemma_state_after, returned,
    run, state_at, step, timer_set, timers_were_set, Event,
};
use crate::types::{OptionsView, RequestView, ToastView};
use vstd::prelude::*;

verus! {

proof fn lemma_filter_keeps_all<A>(s: Seq<A>, pred: spec_fn(A) -> bool)
    requires
        forall|i: int| 0 <= i < s.len() ==> pred(#[trigger] s[i]),
    ensures
        s.filter(pred) == s,
    decreases s.len(),
{
    reveal(Seq::filter);
    if s.len() > 0 {
        lemma_filter_keeps_all(s.drop_last(), pred);
    }
}

proof fn lemma_filter_drops_all<A>(s: Seq<A>, pred: spec_fn(A) -> bool)
    requires
        forall|i: int| 0 <= i < s.len() ==> !pred(#[trigger] s[i]),
    ensures
        s.filter(pred) == Seq::<A>::empty(),
    decreases s.len(),
{
    reveal(Seq::filter);
    if s.len() > 0 {
        lemma_filter_drops_all(s.drop_last(), pred);
    }
}

/// Whatever happens to a new store, ids stay what they are meant to be: at
/// least 1, below the counter, and no two visible toasts with the same one.
pub proof fn law_ids_stay_unique(options: OptionsView, events: Seq<Event>)
    ensures
        run(StoreState::init(options), events).wf(),
{
    lemma_run_keeps_wf(StoreState::init(options), events);
}

/// Ids only grow: of two accepted pushes in one run, whatever removals,
/// clears and changes of options lie between them, the later one returns
/// the larger id. So no id is ever handed out twice.
pub proof fn law_ids_increase(state: StoreState, events: Seq<Event>, i: int, j: int)
    requires
        0 <= i < j < events.len(),
        returned(state, events, i) != 0,
        returned(state, events, j) != 0,
    ensures
        returned(state, events, i) < returned(state, events, j),
{
    lemma_state_after(state, events, i);
    lemma_counter_never_goes_back(state, events, i + 1, j);
}

/// A suppressed push differs from an accepted one only in what it returns:
/// it leaves no toast, asks for no timer and takes no id.
pub proof fn law_suppressed_push_changes_nothing(state: StoreState, request: RequestView)
    requires
        state.rejects(request),
    ensures
        state.push_id(request) == 0,
        state.push(request) == state,
        state.scheduled(request) is None,
{
}

/// With duplicates suppressed, a second request that says the same as the
/// first (its lifetime may differ) is turned away: it returns 0, and the
/// store, its id counter included, stays as the first push left it. If
/// nothing said the same before, exactly one visible toast says it after.
pub proof fn law_duplicate_suppressed(state: StoreState, first: RequestView, second: RequestView)
    requires
        state.options.prevent_duplicates,
        second.kind == first.kind,
        second.message == first.message,
        second.title == first.title,
    ensures
        state.push(first).push_id(second) == 0,
        state.push(first).push(second) == state.push(first),
        state.push(first).push(second).next_id == state.push(first).next_id,
        !state.shows(first) ==> state.push(first).push(second).toasts.filter(
            |t: ToastView| same_content(t, first),
        ).len() == 1,
{
    let after = state.push(first);
    let says_it = |t: ToastView| same_content(t, first);
    if !state.shows(first) {
        let toast = state.toast_for(first);
        if state.options.newest_on_top {
            assert(same_content(after.toasts[0], second));
            state.toasts.lemma_filter_prepend(toast, says_it);
        } else {
            assert(same_content(after.toasts[after.toasts.len() - 1], second));
            state.toasts.lemma_filter_push(toast, says_it);
        }
        lemma_filter_drops_all(state.toasts, says_it);
    }
}

/// Two accepted pushes in a row: with newest on top the second lies above
/// the first and both above what was there; otherwise the first follows
/// what was there and the second follows the first.
pub proof fn law_order_of_two_pushes(state: StoreState, first: RequestView, second: RequestView)
    requires
        !state.rejects(first),
        !state.push(first).rejects(second),
    ensures
        state.push(first).push(second).toasts == if state.options.newest_on_top {
            seq![state.push(first).toast_for(second), state.toast_for(first)] + state.toasts
        } else {
            state.toasts + seq![state.toast_for(first), state.push(first).toast_for(second)]
        },
{
    let both = state.push(first).push(second).toasts;
    if state.options.newest_on_top {
        assert(both =~= seq![state.push(first).toast_for(second), state.toast_for(first)]
            + state.toasts);
    } else {
        assert(both =~= state.toasts + seq![
            state.toast_for(first),
            state.push(first).toast_for(second),
        ]);
    }
}

/// Of two replacements of the options the later one counts, and neither
/// touches a visible toast or the timer that was set for it.
pub proof fn law_last_options_win(
    state: StoreState,
    earlier: OptionsView,
    later: OptionsView,
    id: nat,
)
    ensures
        state.update_options(earlier).update_options(later) == state.update_options(later),
        state.update_options(later).toasts == state.toasts,
        state.update_options(later).expires_after(id) == state.expires_after(id),
{
}

/// Removing an id that no visible toast has changes nothing.
pub proof fn law_remove_absent(state: StoreState, id: nat)
    requires
        !state.contains(id),
    ensures
        state.remove(id) == state,
{
    lemma_filter_keeps_all(state.toasts, |t: ToastView| t.id != id);
}

/// After a removal no visible toast has the id.
pub proof fn law_removed_is_absent(state: StoreState, id: nat)
    ensures
        !state.remove(id).contains(id),
{
    let keep = |t: ToastView| t.id != id;
    let rest = state.remove(id).toasts;
    assert forall|i: int| 0 <= i < rest.len() implies (#[trigger] rest[i]).id != id by {
        state.toasts.lemma_filter_pred(keep, i);
    }
}

/// A timer that fires after its toast was removed changes nothing.
pub proof fn law_expiry_after_removal(state: StoreState, id: nat)
    ensures
        step(step(state, Event::Remove(id)), Event::Expire(id)) == step(state, Event::Remove(id)),
{
    law_removed_is_absent(state, id);
    law_remove_absent(state.remove(id), id);
}

/// Whether every event of a run is a timer that fires.
pub open spec fn only_expiries(events: Seq<Event>) -> bool {
    forall|m: int| 0 <= m < events.len() ==> (#[trigger] events[m]) is Expire
}

/// After a clear, timers that fire late find nothing to remove: the store
/// is empty and stays as the clear left it.
pub proof fn law_expiries_after_clear(state: StoreState, events: Seq<Event>)
    requires
        only_expiries(events),
    ensures
        run(state.clear(), events) == state.clear(),
        run(state.clear(), events).toasts.len() == 0,
    decreases events.len(),
{
    if events.len() > 0 {
        law_expiries_after_clear(state, events.drop_last());
        let id = events.last()->Expire_0;
        law_remove_absent(state.clear(), id);
    }
}

/// The lifetime of a toast is settled when it is inserted: the request's
/// own where it names one, else the default of that moment. That is the
/// lifetime of the toast found under the returned id.
pub proof fn law_time_out_resolution(state: StoreState, request: RequestView)
    requires
        state.wf(),
        !state.rejects(request),
    ensures
        state.push(request).find(state.push_id(request)) matches Some(toast) && toast.time_out
            == match request.time_out {
            Some(t) => t,
            None => state.options.time_out,
        },
{
    lemma_pushed_is_found(state, request);
}

proof fn lemma_zero_time_out_stays(
    state: StoreState,
    events: Seq<Event>,
    k: int,
    request: RequestView,
    m: int,
)
    requires
        state.wf(),
        timers_were_set(state, events),
        0 <= k < m <= events.len(),
        events[k] == Event::Push(request),
        !state_at(state, events, k).rejects(request),
        state_at(state, events, k).time_out_for(request) == 0,
        forall|n: int|
            k < n < events.len() ==> !dismisses(#[trigger] events[n], returned(state, events, k)),
    ensures
        state_at(state, events, m).toasts.contains(state_at(state, events, k).toast_for(request)),
    decreases m - k,
{
    let at_push = state_at(state, events, k);
    let toast = at_push.toast_for(request);
    let id = returned(state, events, k);
    lemma_state_after(state, events, m - 1);
    if m == k + 1 {
        // The push itself puts the toast first or last.
        let after = at_push.push(request).toasts;
        if at_push.options.newest_on_top {
            assert(after[0] == toast);
        } else {
            assert(after[after.len() - 1] == toast);
        }
    } else {
        // The toast was there before event `m - 1`, at some place `at`, and
        // that event does not take it away.
        lemma_zero_time_out_stays(state, events, k, request, m - 1);
        let before = state_at(state, events, m - 1);
        let at = choose|i: int| 0 <= i < before.toasts.len() && before.toasts[i] == toast;
        match events[m - 1] {
            Event::Push(other) => {
                let after = before.push(other).toasts;
                if !before.rejects(other) {
                    if before.options.newest_on_top {
                        assert(after[at + 1] == toast);
                    } else {
                        assert(after[at] == toast);
                    }
                }
            },
            Event::Remove(x) => {
                before.toasts.lemma_filter_contains(|t: ToastView| t.id != x, at);
            },
            Event::Tap(x) => {
                before.toasts.lemma_filter_contains(|t: ToastView| t.id != x, at);
            },
            Event::Expire(x) => {
                // The timer is for another toast: ids from before the run
                // are smaller, the push of this toast set no timer, and no
                // other push returned its id.
                assert(x != id) by {
                    assert(events.take(0) =~= Seq::<Event>::empty());
                    lemma_counter_never_goes_back(state, events, 0, k);
                    lemma_run_keeps_wf(state, events.take(k));
                    if x == id {
                        let j = choose|j: int|
                            0 <= j < m - 1 && #[trigger] returned(state, events, j) == x
                                && timer_set(state, events, j) is Some;
                        if j < k {
                            law_ids_increase(state, events, j, k);
                        } else if j > k {
                            law_ids_increase(state, events, k, j);
                        }
                    }
                }
                before.toasts.lemma_filter_contains(|t: ToastView| t.id != x, at);
            },
            Event::Clear => {},
            Event::UpdateOptions(options) => {},
        }
    }
}

/// A toast whose lifetime was settled as zero is never removed by a timer.
/// In a run in which timers fire only where one was set, it stays visible,
/// as it was inserted, until a removal or a tap of its id, or a clear.
pub proof fn law_zero_time_out_persists(
    state: StoreState,
    events: Seq<Event>,
    k: int,
    request: RequestView,
)
    requires
        state.wf(),
        timers_were_set(state, events),
        0 <= k < events.len(),
        events[k] == Event::Push(request),
        !state_at(state, events, k).rejects(request),
        state_at(state, events, k).time_out_for(request) == 0,
        forall|n: int|
            k < n < events.len() ==> !dismisses(#[trigger] events[n], returned(state, events, k)),
    ensures
        timer_set(state, events, k) is None,
        run(state, events).toasts.contains(state_at(state, events, k).toast_for(request)),
{
    lemma_zero_time_out_stays(state, events, k, request, events.len() as int);
    assert(events.take(events.len() as int) =~= events);
}

} // verus!
