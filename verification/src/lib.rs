//! Toast notifications: a store that owns the visible toasts, hands out
//! their ids, suppresses duplicates and tells the host which expiry timers
//! to set, together with what a renderer derives from a toast.
//!
//! The store does no waiting of its own. After a push the host asks
//! `ToastStore::expires_after` for the delay, sets a timer, and calls
//! `ToastStore::remove` when it fires; a removal of a toast that is already
//! gone changes nothing.

pub mod handle;
pub mod laws;
pub mod model;
pub mod render;
pub mod store;
pub mod trace;
pub mod types;

pub use handle::{use_toast, ToastHandle};
pub use render::{container_markup, toast_markup, ContainerMarkup, ToastMarkup};
pub use store::ToastStore;
pub use types::{Toast, ToastId, ToastKind, ToastOptions, ToastRequest};
