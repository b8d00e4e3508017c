//! The store as a mathematical value, and its operations as functions on
//! that value. The contracts of the executable store are stated over these.

use crate::types::{OptionsView, RequestView, ToastView};
use vstd::prelude::*;

verus! {

/// Whether a visible toast says what a request says. The lifetime is left
/// out on purpose: two requests that differ only in it are the same toast.
pub open spec fn same_content(toast: ToastView, request: RequestView) -> bool {
    &&& toast.message == request.message
    &&& toast.title == request.title
    &&& toast.kind == request.kind
}

/// The state of a store: the visible toasts from top to bottom, the id that
/// the next accepted push will get, and the current options.
pub struct StoreState {
    pub toasts: Seq<ToastView>,
    pub next_id: nat,
    pub options: OptionsView,
}

impl StoreState {
    /// Ids start at 1, every visible id has already been handed out, and no
    /// two visible toasts share one.
    pub open spec fn wf(self) -> bool {
        &&& self.next_id >= 1
        &&& forall|i: int|
            0 <= i < self.toasts.len() ==> 1 <= (#[trigger] self.toasts[i]).id < self.next_id
        &&& forall|i: int, j: int|
            0 <= i < j < self.toasts.len() ==> (#[trigger] self.toasts[i]).id
                != (#[trigger] self.toasts[j]).id
    }

    /// An empty store whose first id will be 1.
    pub open spec fn init(options: OptionsView) -> StoreState {
        StoreState { toasts: Seq::empty(), next_id: 1, options }
    }

    /// A toast with that id is visible.
    pub open spec fn contains(self, id: nat) -> bool {
        exists|i: int| 0 <= i < self.toasts.len() && (#[trigger] self.toasts[i]).id == id
    }

    /// Some visible toast says what `request` says.
    pub open spec fn shows(self, request: RequestView) -> bool {
        exists|i: int|
            0 <= i < self.toasts.len() && same_content(#[trigger] self.toasts[i], request)
    }

    /// A push of `request` would be suppressed as a duplicate.
    pub open spec fn rejects(self, request: RequestView) -> bool {
        self.options.prevent_duplicates && self.shows(request)
    }

    /// The lifetime a toast made from `request` gets: the request's own if it
    /// names one, else the current default.
    pub open spec fn time_out_for(self, request: RequestView) -> nat {
        match request.time_out {
            Some(t) => t,
            None => self.options.time_out,
        }
    }

    /// The toast that an accepted push of `request` inserts.
    pub open spec fn toast_for(self, request: RequestView) -> ToastView {
        ToastView {
            id: self.next_id,
            kind: request.kind,
            message: request.message,
            title: request.title,
            time_out: self.time_out_for(request),
        }
    }

    /// An id is left for `request`, should a push accept it. Ids are 64-bit
    /// numbers, and the last of them is never handed out.
    pub open spec fn has_id_for(self, request: RequestView) -> bool {
        !self.rejects(request) ==> self.next_id < u64::MAX
    }

    /// What a push returns: 0 for a suppressed duplicate, else the fresh id.
    pub open spec fn push_id(self, request: RequestView) -> nat {
        if self.rejects(request) {
            0
        } else {
            self.next_id
        }
    }

    /// The state after a push. A suppressed duplicate changes nothing; an
    /// accepted request takes the next id and goes on top or to the bottom,
    /// as the options of that moment say.
    pub open spec fn push(self, request: RequestView) -> StoreState {
        if self.rejects(request) {
            self
        } else {
            StoreState {
                toasts: if self.options.newest_on_top {
                    seq![self.toast_for(request)] + self.toasts
                } else {
                    self.toasts.push(self.toast_for(request))
                },
                next_id: self.next_id + 1,
                options: self.options,
            }
        }
    }

    /// The state after removing `id`: the other toasts, in their order.
    pub open spec fn remove(self, id: nat) -> StoreState {
        StoreState { toasts: self.toasts.filter(|t: ToastView| t.id != id), ..self }
    }

    /// The state after a clear: nothing visible, counter and options kept.
    pub open spec fn clear(self) -> StoreState {
        StoreState { toasts: Seq::empty(), ..self }
    }

    /// The state after the host replaced the options.
    pub open spec fn update_options(self, options: OptionsView) -> StoreState {
        StoreState { options, ..self }
    }

    /// The state after a click on the body of toast `id`.
    pub open spec fn tap(self, id: nat) -> StoreState {
        if self.options.tap_to_dismiss {
            self.remove(id)
        } else {
            self
        }
    }

    /// The visible toast with that id, if there is one.
    pub open spec fn find(self, id: nat) -> Option<ToastView> {
        let found = self.toasts.filter(|t: ToastView| t.id == id);
        if found.len() > 0 {
            Some(found[0])
        } else {
            None
        }
    }

    /// The delay after which the host is to expire toast `id`: its lifetime
    /// if it is visible and that lifetime is not zero.
    pub open spec fn expires_after(self, id: nat) -> Option<nat> {
        match self.find(id) {
            Some(toast) => if toast.time_out > 0 {
                Some(toast.time_out)
            } else {
                None
            },
            None => None,
        }
    }

    /// What one push does: `after` and `id` are the state it leaves and the
    /// id it returns, and the timer to set for that id is the one scheduled.
    pub open spec fn pushes(self, request: RequestView, after: StoreState, id: nat) -> bool {
        &&& after == self.push(request)
        &&& id == self.push_id(request)
        &&& after.expires_after(id) == self.scheduled(request)
    }

    /// The timer that a push of `request` asks the host to set: none for a
    /// suppressed duplicate or a lifetime of zero, else the lifetime.
    pub open spec fn scheduled(self, request: RequestView) -> Option<nat> {
        if self.rejects(request) || self.time_out_for(request) == 0 {
            None
        } else {
            Some(self.time_out_for(request))
        }
    }
}

/// A push leaves a well-formed state well formed: the new toast gets an id
/// that no visible toast has.
pub proof fn lemma_push_keeps_wf(state: StoreState, request: RequestView)
    requires
        state.wf(),
    ensures
        state.push(request).wf(),
{
}

/// Removing an id leaves a well-formed state well formed.
pub proof fn lemma_remove_keeps_wf(state: StoreState, id: nat)
    requires
        state.wf(),
    ensures
        state.remove(id).wf(),
{
    lemma_filter_keeps_wf(state, |t: ToastView| t.id != id);
}

/// No toast of a well-formed state has an id that was not handed out yet,
/// and none has id 0.
pub proof fn lemma_unused_id_is_absent(state: StoreState, id: nat)
    requires
        state.wf(),
        id == 0 || id >= state.next_id,
    ensures
        !state.contains(id),
        state.toasts.filter(|t: ToastView| t.id == id) == Seq::<ToastView>::empty(),
{
    let wanted = |t: ToastView| t.id == id;
    let found = state.toasts.filter(wanted);
    if found.len() > 0 {
        state.toasts.lemma_filter_pred(wanted, 0);
        state.toasts.lemma_filter_contains_rev(wanted, found[0]);
    }
}

/// The toast that an accepted push inserts is the one found under the
/// returned id.
pub proof fn lemma_pushed_is_found(state: StoreState, request: RequestView)
    requires
        state.wf(),
        !state.rejects(request),
    ensures
        state.push(request).find(state.push_id(request)) == Some(state.toast_for(request)),
{
    let id = state.push_id(request);
    let wanted = |t: ToastView| t.id == id;
    lemma_unused_id_is_absent(state, id);
    let toast = state.toast_for(request);
    if state.options.newest_on_top {
        state.toasts.lemma_filter_prepend(toast, wanted);
    } else {
        state.toasts.lemma_filter_push(toast, wanted);
    }
}

/// After a push, the timer to set for the returned id is the one that the
/// push scheduled.
pub proof fn lemma_push_schedules(state: StoreState, request: RequestView)
    requires
        state.wf(),
    ensures
        state.push(request).expires_after(state.push_id(request)) == state.scheduled(request),
{
    if state.rejects(request) {
        lemma_unused_id_is_absent(state, 0);
    } else {
        lemma_pushed_is_found(state, request);
    }
}

/// Dropping toasts from a well-formed state leaves a well-formed state.
pub proof fn lemma_filter_keeps_wf(state: StoreState, keep: spec_fn(ToastView) -> bool)
    requires
        state.wf(),
    ensures
        (StoreState { toasts: state.toasts.filter(keep), ..state }).wf(),
    decreases state.toasts.len(),
{
    reveal(Seq::filter);
    if state.toasts.len() > 0 {
        let last = state.toasts.last();
        let shorter = StoreState { toasts: state.toasts.drop_last(), ..state };
        lemma_filter_keeps_wf(shorter, keep);
        let inner = shorter.toasts.filter(keep);
        if keep(last) {
            // The toasts kept before the last one come from before it, so
            // none of them has its id.
            assert forall|i: int| 0 <= i < inner.len() implies (#[trigger] inner[i]).id
                != last.id by {
                shorter.toasts.lemma_filter_contains_rev(keep, inner[i]);
                let k = choose|k: int|
                    0 <= k < shorter.toasts.len() && shorter.toasts[k] == inner[i];
                assert(state.toasts[k] == inner[i]);
            }
        }
    }
}

} // verus!
