use toastr::{Toast, ToastKind, ToastOptions, ToastRequest, ToastStore};

fn options_with(change: fn(&mut ToastOptions)) -> ToastOptions {
    let mut options = ToastOptions::default();
    change(&mut options);
    options
}

fn ids(store: &ToastStore) -> Vec<u64> {
    store.toasts().iter().map(|toast| toast.id).collect()
}

#[test]
fn new_store_is_empty_and_starts_at_one() {
    let store = ToastStore::new(ToastOptions::default());
    assert!(store.toasts().is_empty());
    assert_eq!(store.next_id(), 1);
    assert_eq!(store.options(), ToastOptions::default());
}

#[test]
fn push_stores_the_request_under_the_next_id() {
    let mut store = ToastStore::new(ToastOptions::default());
    let id = store.push(ToastRequest::new(ToastKind::Info, "hello").with_title("greeting"));
    assert_eq!(id, 1);
    assert_eq!(
        store.toasts(),
        &vec![Toast {
            id: 1,
            kind: ToastKind::Info,
            message: "hello".to_string(),
            title: Some("greeting".to_string()),
            time_out: 5000,
        }]
    );
    assert_eq!(store.next_id(), 2);
}

#[test]
fn ids_increase_across_remove_and_clear() {
    let mut store = ToastStore::new(ToastOptions::default());
    let a = store.push(ToastRequest::new(ToastKind::Info, "a"));
    let b = store.push(ToastRequest::new(ToastKind::Info, "b"));
    store.remove(b);
    let c = store.push(ToastRequest::new(ToastKind::Info, "c"));
    store.clear();
    let d = store.push(ToastRequest::new(ToastKind::Info, "d"));
    store.remove(a);
    let e = store.push(ToastRequest::new(ToastKind::Info, "e"));
    assert_eq!((a, b, c, d, e), (1, 2, 3, 4, 5));
}

#[test]
fn duplicate_is_suppressed_and_takes_no_id() {
    let mut store = ToastStore::new(options_with(|o| o.prevent_duplicates = true));
    let first = store.push(ToastRequest::new(ToastKind::Error, "boom").with_title("oops"));
    let counter = store.next_id();
    let second = store.push(ToastRequest::new(ToastKind::Error, "boom").with_title("oops"));
    assert_eq!(first, 1);
    assert_eq!(second, 0);
    assert_eq!(store.toasts().len(), 1);
    assert_eq!(store.next_id(), counter);
    assert_eq!(store.expires_after(second), None);
    let next = store.push(ToastRequest::new(ToastKind::Error, "other"));
    assert_eq!(next, first + 1);
}

#[test]
fn a_different_time_out_does_not_make_a_request_distinct() {
    let mut store = ToastStore::new(options_with(|o| o.prevent_duplicates = true));
    assert_eq!(store.push(ToastRequest::new(ToastKind::Info, "same")), 1);
    assert_eq!(store.push(ToastRequest::new(ToastKind::Info, "same").with_timeout(10)), 0);
    assert_eq!(store.toasts().len(), 1);
    assert_eq!(store.toasts()[0].time_out, 5000);
}

#[test]
fn kind_message_and_title_each_make_a_request_distinct() {
    let mut store = ToastStore::new(options_with(|o| o.prevent_duplicates = true));
    assert_eq!(store.push(ToastRequest::new(ToastKind::Info, "m").with_title("t")), 1);
    assert_eq!(store.push(ToastRequest::new(ToastKind::Success, "m").with_title("t")), 2);
    assert_eq!(store.push(ToastRequest::new(ToastKind::Info, "n").with_title("t")), 3);
    assert_eq!(store.push(ToastRequest::new(ToastKind::Info, "m").with_title("u")), 4);
    assert_eq!(store.push(ToastRequest::new(ToastKind::Info, "m")), 5);
    assert_eq!(store.push(ToastRequest::new(ToastKind::Info, "m")), 0);
    assert_eq!(store.toasts().len(), 5);
}

#[test]
fn duplicates_are_kept_when_not_suppressed() {
    let mut store = ToastStore::new(ToastOptions::default());
    assert_eq!(store.push(ToastRequest::new(ToastKind::Info, "same")), 1);
    assert_eq!(store.push(ToastRequest::new(ToastKind::Info, "same")), 2);
    assert_eq!(store.toasts().len(), 2);
}

#[test]
fn a_removed_toast_no_longer_suppresses() {
    let mut store = ToastStore::new(options_with(|o| o.prevent_duplicates = true));
    let first = store.push(ToastRequest::new(ToastKind::Info, "same"));
    store.remove(first);
    assert_eq!(store.push(ToastRequest::new(ToastKind::Info, "same")), 2);
}

#[test]
fn newest_on_top_puts_the_second_first() {
    let mut store = ToastStore::new(options_with(|o| o.newest_on_top = true));
    let a = store.push(ToastRequest::new(ToastKind::Info, "A"));
    let b = store.push(ToastRequest::new(ToastKind::Info, "B"));
    assert_eq!(ids(&store), vec![b, a]);
    assert_eq!(store.toasts()[0].message, "B");
    assert_eq!(store.toasts()[1].message, "A");
}

#[test]
fn newest_at_bottom_keeps_the_order_of_arrival() {
    let mut store = ToastStore::new(options_with(|o| o.newest_on_top = false));
    let a = store.push(ToastRequest::new(ToastKind::Info, "A"));
    let b = store.push(ToastRequest::new(ToastKind::Info, "B"));
    assert_eq!(ids(&store), vec![a, b]);
    assert_eq!(store.toasts()[0].message, "A");
    assert_eq!(store.toasts()[1].message, "B");
}

#[test]
fn a_change_of_order_policy_moves_only_later_toasts() {
    let mut store = ToastStore::new(options_with(|o| o.newest_on_top = true));
    store.push(ToastRequest::new(ToastKind::Info, "a"));
    store.push(ToastRequest::new(ToastKind::Info, "b"));
    store.update_options(options_with(|o| o.newest_on_top = false));
    assert_eq!(ids(&store), vec![2, 1]);
    store.push(ToastRequest::new(ToastKind::Info, "c"));
    assert_eq!(ids(&store), vec![2, 1, 3]);
    store.update_options(options_with(|o| o.newest_on_top = true));
    store.push(ToastRequest::new(ToastKind::Info, "d"));
    assert_eq!(ids(&store), vec![4, 2, 1, 3]);
}

#[test]
fn late_timer_after_remove_changes_nothing() {
    let mut store = ToastStore::new(ToastOptions::default());
    let id = store.push(ToastRequest::new(ToastKind::Info, "short").with_timeout(10));
    assert_eq!(store.expires_after(id), Some(10));
    store.remove(id);
    assert!(store.toasts().is_empty());
    assert_eq!(store.expires_after(id), None);
    store.remove(id);
    assert!(store.toasts().is_empty());
    assert_eq!(store.next_id(), 2);
}

#[test]
fn late_timer_leaves_other_toasts_alone() {
    let mut store = ToastStore::new(ToastOptions::default());
    let a = store.push(ToastRequest::new(ToastKind::Info, "a").with_timeout(10));
    let b = store.push(ToastRequest::new(ToastKind::Info, "b"));
    store.remove(a);
    store.remove(a);
    assert_eq!(ids(&store), vec![b]);
}

#[test]
fn zero_time_out_sets_no_timer() {
    let mut store = ToastStore::new(ToastOptions::default());
    let id = store.push(ToastRequest::new(ToastKind::Info, "stay").with_timeout(0));
    assert_eq!(store.toasts()[0].time_out, 0);
    assert_eq!(store.expires_after(id), None);
    let other = store.push(ToastRequest::new(ToastKind::Info, "go").with_timeout(10));
    store.remove(other);
    store.update_options(options_with(|o| o.time_out = 1));
    assert_eq!(ids(&store), vec![id]);
    assert_eq!(store.expires_after(id), None);
    store.remove(id);
    assert!(store.toasts().is_empty());
}

#[test]
fn zero_default_time_out_sets_no_timer() {
    let mut store = ToastStore::new(options_with(|o| o.time_out = 0));
    let id = store.push(ToastRequest::new(ToastKind::Info, "stay"));
    assert_eq!(store.toasts()[0].time_out, 0);
    assert_eq!(store.expires_after(id), None);
    let timed = store.push(ToastRequest::new(ToastKind::Info, "go").with_timeout(7));
    assert_eq!(store.expires_after(timed), Some(7));
}

#[test]
fn clear_then_late_timers_leave_the_store_empty() {
    let mut store = ToastStore::new(ToastOptions::default());
    let a = store.push(ToastRequest::new(ToastKind::Info, "a").with_timeout(10));
    let b = store.push(ToastRequest::new(ToastKind::Info, "b").with_timeout(10));
    assert_eq!(store.expires_after(a), Some(10));
    assert_eq!(store.expires_after(b), Some(10));
    store.clear();
    assert!(store.toasts().is_empty());
    store.remove(a);
    store.remove(b);
    assert!(store.toasts().is_empty());
    assert_eq!(store.toasts().len(), 0);
    assert_eq!(store.next_id(), 3);
}

#[test]
fn request_time_out_overrides_the_default() {
    let mut store = ToastStore::new(options_with(|o| o.time_out = 5000));
    let id = store.push(ToastRequest::new(ToastKind::Info, "quick").with_timeout(200));
    assert_eq!(store.toasts()[0].time_out, 200);
    assert_eq!(store.expires_after(id), Some(200));
}

#[test]
fn default_time_out_is_that_of_the_moment_of_the_push() {
    let mut store = ToastStore::new(options_with(|o| o.time_out = 5000));
    let early = store.push(ToastRequest::new(ToastKind::Info, "early"));
    store.update_options(options_with(|o| o.time_out = 70));
    let late = store.push(ToastRequest::new(ToastKind::Info, "late"));
    assert_eq!(store.expires_after(early), Some(5000));
    assert_eq!(store.expires_after(late), Some(70));
}

#[test]
fn update_options_replaces_the_whole_snapshot() {
    let mut store = ToastStore::new(ToastOptions::default());
    let mut options = ToastOptions::default();
    options.position_class = "toast-bottom-left";
    options.rtl = true;
    options.extended_time_out = 5;
    store.update_options(options);
    assert_eq!(store.options(), options);
    store.update_options(ToastOptions::default());
    assert_eq!(store.options(), ToastOptions::default());
}

#[test]
fn remove_of_an_unknown_id_changes_nothing() {
    let mut store = ToastStore::new(ToastOptions::default());
    store.remove(1);
    store.remove(0);
    assert!(store.toasts().is_empty());
    let id = store.push(ToastRequest::new(ToastKind::Info, "a"));
    store.remove(id + 1);
    store.remove(0);
    assert_eq!(ids(&store), vec![id]);
}

#[test]
fn remove_takes_one_toast_and_keeps_the_order_of_the_rest() {
    let mut store = ToastStore::new(options_with(|o| o.newest_on_top = false));
    for message in ["a", "b", "c", "d"] {
        store.push(ToastRequest::new(ToastKind::Info, message));
    }
    store.remove(2);
    assert_eq!(ids(&store), vec![1, 3, 4]);
    store.remove(4);
    assert_eq!(ids(&store), vec![1, 3]);
    store.remove(1);
    assert_eq!(ids(&store), vec![3]);
}

#[test]
fn clear_keeps_counter_and_options() {
    let options = options_with(|o| o.close_button = true);
    let mut store = ToastStore::new(options);
    store.push(ToastRequest::new(ToastKind::Info, "a"));
    store.push(ToastRequest::new(ToastKind::Info, "b"));
    store.clear();
    assert!(store.toasts().is_empty());
    assert_eq!(store.next_id(), 3);
    assert_eq!(store.options(), options);
    store.clear();
    assert!(store.toasts().is_empty());
}

#[test]
fn tap_dismisses_when_the_options_allow_it() {
    let mut store = ToastStore::new(options_with(|o| o.tap_to_dismiss = true));
    let a = store.push(ToastRequest::new(ToastKind::Info, "a"));
    let b = store.push(ToastRequest::new(ToastKind::Info, "b"));
    store.tap(a);
    assert_eq!(ids(&store), vec![b]);
    store.tap(a);
    assert_eq!(ids(&store), vec![b]);
}

#[test]
fn tap_does_nothing_when_the_options_forbid_it() {
    let mut store = ToastStore::new(options_with(|o| o.tap_to_dismiss = false));
    let a = store.push(ToastRequest::new(ToastKind::Info, "a"));
    store.tap(a);
    assert_eq!(ids(&store), vec![a]);
    store.remove(a);
    assert!(store.toasts().is_empty());
}

#[test]
fn expires_after_of_an_unknown_id_is_none() {
    let mut store = ToastStore::new(ToastOptions::default());
    assert_eq!(store.expires_after(1), None);
    let id = store.push(ToastRequest::new(ToastKind::Info, "a"));
    assert_eq!(store.expires_after(id), Some(5000));
    assert_eq!(store.expires_after(id + 1), None);
    assert_eq!(store.expires_after(0), None);
}
