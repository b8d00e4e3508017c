//! A thin front for one store: shorthand by severity, nothing of its own.

use crate::model::StoreState;
use crate::store::ToastStore;
use crate::types::{RequestView, ToastId, ToastKind, ToastRequest};
use vstd::prelude::*;

verus! {

/// The request that the severity shorthands build: no lifetime of its own,
/// so the store's default applies.
pub open spec fn shorthand(kind: ToastKind, message: &str, title: Option<&str>) -> RequestView {
    RequestView {
        kind,
        message: message@,
        title: match title {
            Some(t) => Some(t@),
            None => None,
        },
        time_out: None,
    }
}

/// Borrows a store and forwards to it. It keeps no state: what it does, it
/// does to the store it was made for.
///
/// Each method says two things: what happens to the store as the handle
/// sees it, and that the handle still stands for the same store, so that
/// the owner of the store finds the change there once the handle is gone.
pub struct ToastHandle<'a> {
    pub store: &'a mut ToastStore,
}

impl<'a> View for ToastHandle<'a> {
    type V = StoreState;

    /// A handle is seen as the store it borrows.
    open spec fn view(&self) -> StoreState {
        self.store@
    }
}

impl<'a> ToastHandle<'a> {
    /// Pushes `request` to the store.
    pub fn push(&mut self, request: ToastRequest) -> (id: ToastId)
        requires
            old(self)@.has_id_for(request@),
        ensures
            old(self)@.pushes(request@, final(self)@, id as nat),
            *final(final(self).store) == *final(old(self).store),
    {
        self.store.push(request)
    }

    fn announce(&mut self, kind: ToastKind, message: &str, title: Option<&str>) -> (id: ToastId)
        requires
            old(self)@.has_id_for(shorthand(kind, message, title)),
        ensures
            old(self)@.pushes(shorthand(kind, message, title), final(self)@, id as nat),
            *final(final(self).store) == *final(old(self).store),
    {
        let request = ToastRequest::new(kind, message);
        let request = match title {
            Some(t) => request.with_title(t),
            None => request,
        };
        self.store.push(request)
    }

    /// Pushes a success toast with the default lifetime.
    pub fn success(&mut self, message: &str, title: Option<&str>) -> (id: ToastId)
        requires
            old(self)@.has_id_for(shorthand(ToastKind::Success, message, title)),
        ensures
            old(self)@.pushes(
                shorthand(ToastKind::Success, message, title),
                final(self)@,
                id as nat,
            ),
            *final(final(self).store) == *final(old(self).store),
    {
        self.announce(ToastKind::Success, message, title)
    }

    /// Pushes an info toast with the default lifetime.
    pub fn info(&mut self, message: &str, title: Option<&str>) -> (id: ToastId)
        requires
            old(self)@.has_id_for(shorthand(ToastKind::Info, message, title)),
        ensures
            old(self)@.pushes(shorthand(ToastKind::Info, message, title), final(self)@, id as nat),
            *final(final(self).store) == *final(old(self).store),
    {
        self.announce(ToastKind::Info, message, title)
    }

    /// Pushes a warning toast with the default lifetime.
    pub fn warning(&mut self, message: &str, title: Option<&str>) -> (id: ToastId)
        requires
            old(self)@.has_id_for(shorthand(ToastKind::Warning, message, title)),
        ensures
            old(self)@.pushes(
                shorthand(ToastKind::Warning, message, title),
                final(self)@,
                id as nat,
            ),
            *final(final(self).store) == *final(old(self).store),
    {
        self.announce(ToastKind::Warning, message, title)
    }

    /// Pushes an error toast with the default lifetime.
    pub fn error(&mut self, message: &str, title: Option<&str>) -> (id: ToastId)
        requires
            old(self)@.has_id_for(shorthand(ToastKind::Error, message, title)),
        ensures
            old(self)@.pushes(shorthand(ToastKind::Error, message, title), final(self)@, id as nat),
            *final(final(self).store) == *final(old(self).store),
    {
        self.announce(ToastKind::Error, message, title)
    }

    /// Removes toast `id` from the store, if it is there.
    pub fn remove(&mut self, id: ToastId)
        ensures
            final(self)@ == old(self)@.remove(id as nat),
            *final(final(self).store) == *final(old(self).store),
    {
        self.store.remove(id);
    }

    /// Empties the store.
    pub fn clear(&mut self)
        ensures
            final(self)@ == old(self)@.clear(),
            *final(final(self).store) == *final(old(self).store),
    {
        self.store.clear();
    }
}

/// A handle on `store`.
pub fn use_toast<'a>(store: &'a mut ToastStore) -> (handle: ToastHandle<'a>)
    ensures
        handle@ == old(store)@,
        *final(handle.store) == *final(store),
{
    ToastHandle { store }
}

} // verus!
