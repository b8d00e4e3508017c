//! The store that owns the visible toasts.

use crate::model::{
    lemma_filter_keeps_wf, lemma_push_keeps_wf, lemma_push_schedules, same_content, StoreState,
};
use crate::types::{millis_view, title_view, Toast, ToastId, ToastOptions, ToastRequest, ToastView};
use vstd::prelude::*;

verus! {

/// The views of a list of toasts, in the same order.
pub open spec fn toast_views(toasts: Seq<Toast>) -> Seq<ToastView> {
    toasts.map_values(|t: Toast| t@)
}

/// Owner of the visible toasts, of the id counter and of the current options.
/// Nothing else inserts or removes a toast.
pub struct ToastStore {
    toasts: Vec<Toast>,
    next_id: ToastId,
    options: ToastOptions,
}

impl View for ToastStore {
    type V = StoreState;

    closed spec fn view(&self) -> StoreState {
        StoreState {
            toasts: toast_views(self.toasts@),
            next_id: self.next_id as nat,
            options: self.options@,
        }
    }
}

fn same_title(a: &Option<String>, b: &Option<String>) -> (same: bool)
    ensures
        same == (title_view(*a) == title_view(*b)),
{
    match (a, b) {
        (Some(x), Some(y)) => *x == *y,
        (None, None) => true,
        _ => false,
    }
}

impl ToastStore {
    #[verifier::type_invariant]
    spec fn inv(&self) -> bool {
        self@.wf()
    }

    /// An empty store with the given options. Its first toast will get id 1.
    pub fn new(options: ToastOptions) -> (store: Self)
        ensures
            store@ == StoreState::init(options@),
            store@.wf(),
    {
        let store = ToastStore { toasts: Vec::new(), next_id: 1, options };
        assert(store@.toasts =~= Seq::empty());
        store
    }

    /// The current options.
    pub fn options(&self) -> (options: ToastOptions)
        ensures
            options@ == self@.options,
    {
        self.options
    }

    /// Replaces the options. Toasts that are already visible keep their
    /// place and their lifetime.
    pub fn update_options(&mut self, options: ToastOptions)
        ensures
            final(self)@ == old(self)@.update_options(options@),
            final(self)@.wf(),
    {
        proof {
            use_type_invariant(&*self);
        }
        self.options = options;
    }

    /// The visible toasts, from top to bottom.
    pub fn toasts(&self) -> (toasts: &Vec<Toast>)
        ensures
            toast_views(toasts@) == self@.toasts,
            self@.wf(),
    {
        proof {
            use_type_invariant(self);
        }
        &self.toasts
    }

    /// The id that the next accepted push will return.
    pub fn next_id(&self) -> (id: ToastId)
        ensures
            id as nat == self@.next_id,
            id >= 1,
    {
        proof {
            use_type_invariant(self);
        }
        self.next_id
    }

    /// Removes every toast.
    pub fn clear(&mut self)
        ensures
            final(self)@ == old(self)@.clear(),
            final(self)@.wf(),
    {
        proof {
            use_type_invariant(&*self);
        }
        self.toasts = Vec::new();
        assert(self@.toasts =~= Seq::empty());
    }

    fn shows(&self, request: &ToastRequest) -> (found: bool)
        ensures
            found == self@.shows(request@),
    {
        let mut i: usize = 0;
        while i < self.toasts.len()
            invariant
                i <= self.toasts.len(),
                forall|k: int| 0 <= k < i ==> !same_content(#[trigger] self@.toasts[k], request@),
            decreases self.toasts.len() - i,
        {
            let toast = &self.toasts[i];
            if toast.message == request.message && same_title(&toast.title, &request.title)
                && toast.kind == request.kind {
                assert(same_content(self@.toasts[i as int], request@));
                return true;
            }
            i += 1;
        }
        false
    }

    /// Shows a toast for `request` and returns its id, or returns 0 and
    /// changes nothing if duplicates are suppressed and a visible toast
    /// already says the same.
    pub fn push(&mut self, request: ToastRequest) -> (id: ToastId)
        requires
            old(self)@.has_id_for(request@),
        ensures
            final(self)@ == old(self)@.push(request@),
            id as nat == old(self)@.push_id(request@),
            final(self)@.expires_after(id as nat) == old(self)@.scheduled(request@),
            final(self)@.wf(),
    {
        proof {
            use_type_invariant(&*self);
            lemma_push_schedules(self@, request@);
        }
        let time_out = match request.time_out {
            Some(t) => t,
            None => self.options.time_out,
        };
        if self.options.prevent_duplicates && self.shows(&request) {
            return 0;
        }
        let id = self.next_id;
        self.next_id = id + 1;
        let toast = Toast {
            id,
            kind: request.kind,
            message: request.message,
            title: request.title,
            time_out,
        };
        let mut toasts: Vec<Toast> = Vec::new();
        core::mem::swap(&mut self.toasts, &mut toasts);
        if self.options.newest_on_top {
            toasts.insert(0, toast);
        } else {
            toasts.push(toast);
        }
        proof {
            assert(toast_views(toasts@) =~= old(self)@.push(request@).toasts);
            lemma_push_keeps_wf(old(self)@, request@);
        }
        self.toasts = toasts;
        id
    }

    /// Removes the toast with that id. Nothing changes if no toast has it,
    /// so a timer that fires late, or a second click, does no harm.
    pub fn remove(&mut self, id: ToastId)
        ensures
            final(self)@ == old(self)@.remove(id as nat),
            final(self)@.wf(),
    {
        proof {
            use_type_invariant(&*self);
        }
        let mut toasts: Vec<Toast> = Vec::new();
        core::mem::swap(&mut self.toasts, &mut toasts);
        // `seen` counts the toasts of the old list that were looked at. Those
        // of them that stay stand before `i`; the rest of the old list follows.
        let ghost before = toast_views(toasts@);
        let ghost keep = |t: ToastView| t.id != id as nat;
        let ghost seen: int = 0;
        let mut i: usize = 0;
        assert(before.take(0).filter(keep) =~= Seq::empty()) by {
            reveal(Seq::filter);
        }
        while i < toasts.len()
            invariant
                0 <= seen <= before.len(),
                i == before.take(seen).filter(keep).len(),
                toast_views(toasts@) =~= before.take(seen).filter(keep) + before.skip(seen),
                keep == |t: ToastView| t.id != id as nat,
            decreases before.len() - seen,
        {
            let ghost kept = before.take(seen).filter(keep);
            let ghost now = toast_views(toasts@);
            proof {
                assert(now[i as int] == before.skip(seen)[0]);
                assert(before.take(seen + 1) =~= before.take(seen).push(before[seen]));
                before.take(seen).lemma_filter_push(before[seen], keep);
            }
            if toasts[i].id == id {
                toasts.remove(i);
                assert(now.remove(i as int) =~= kept + before.skip(seen + 1));
            } else {
                i += 1;
            }
            proof {
                seen = seen + 1;
            }
        }
        proof {
            assert(before.take(seen) =~= before);
            lemma_filter_keeps_wf(old(self)@, keep);
        }
        self.toasts = toasts;
    }

    /// A click on the body of toast `id`: removes it if the current options
    /// let a tap dismiss, and does nothing otherwise.
    pub fn tap(&mut self, id: ToastId)
        ensures
            final(self)@ == old(self)@.tap(id as nat),
            final(self)@.wf(),
    {
        proof {
            use_type_invariant(&*self);
        }
        if self.options.tap_to_dismiss {
            self.remove(id);
        }
    }

    /// The delay after which the host is to expire toast `id` by calling
    /// `remove`: its lifetime, if it is visible and its lifetime is not zero.
    /// `None` means that no timer is to be set.
    pub fn expires_after(&self, id: ToastId) -> (delay: Option<u64>)
        ensures
            millis_view(delay) == self@.expires_after(id as nat),
    {
        // No toast before `i` has the id, so the first one found is the
        // first of all that have it.
        let ghost all = self@.toasts;
        let ghost wanted = |t: ToastView| t.id == id as nat;
        let mut i: usize = 0;
        assert(all.take(0).filter(wanted) =~= Seq::empty()) by {
            reveal(Seq::filter);
        }
        while i < self.toasts.len()
            invariant
                i <= self.toasts.len(),
                all == toast_views(self.toasts@),
                all.take(i as int).filter(wanted).len() == 0,
                wanted == |t: ToastView| t.id == id as nat,
            decreases self.toasts.len() - i,
        {
            proof {
                assert(all.take(i + 1) =~= all.take(i as int).push(all[i as int]));
                all.take(i as int).lemma_filter_push(all[i as int], wanted);
            }
            if self.toasts[i].id == id {
                proof {
                    assert(all =~= all.take(i + 1) + all.skip(i + 1));
                    Seq::filter_distributes_over_add(all.take(i + 1), all.skip(i + 1), wanted);
                }
                let time_out = self.toasts[i].time_out;
                return if time_out > 0 {
                    Some(time_out)
                } else {
                    None
                };
            }
            i += 1;
        }
        assert(all.take(i as int) =~= all);
        None
    }
}

} // verus!
