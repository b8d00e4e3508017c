use toastr::{use_toast, Toast, ToastKind, ToastOptions, ToastRequest, ToastStore};

#[test]
fn shorthands_push_with_their_kind() {
    let mut store = ToastStore::new(ToastOptions::default());
    {
        let mut toast = use_toast(&mut store);
        assert_eq!(toast.success("s", None), 1);
        assert_eq!(toast.info("i", None), 2);
        assert_eq!(toast.warning("w", None), 3);
        assert_eq!(toast.error("e", None), 4);
    }
    let kinds: Vec<(u64, ToastKind, String)> = store
        .toasts()
        .iter()
        .map(|toast| (toast.id, toast.kind, toast.message.clone()))
        .collect();
    assert_eq!(
        kinds,
        vec![
            (4, ToastKind::Error, "e".to_string()),
            (3, ToastKind::Warning, "w".to_string()),
            (2, ToastKind::Info, "i".to_string()),
            (1, ToastKind::Success, "s".to_string()),
        ]
    );
}

#[test]
fn shorthand_with_title_and_default_time_out() {
    let mut store = ToastStore::new(ToastOptions::default());
    let id = use_toast(&mut store).success("Saved!", Some("Your changes are now live."));
    assert_eq!(
        store.toasts(),
        &vec![Toast {
            id,
            kind: ToastKind::Success,
            message: "Saved!".to_string(),
            title: Some("Your changes are now live.".to_string()),
            time_out: 5000,
        }]
    );
    assert_eq!(store.expires_after(id), Some(5000));
}

#[test]
fn shorthand_is_suppressed_like_a_push() {
    let mut options = ToastOptions::default();
    options.prevent_duplicates = true;
    let mut store = ToastStore::new(options);
    let mut toast = use_toast(&mut store);
    assert_eq!(toast.warning("careful", Some("note")), 1);
    assert_eq!(toast.warning("careful", Some("note")), 0);
    assert_eq!(toast.warning("careful", None), 2);
    assert_eq!(toast.error("careful", None), 3);
    assert_eq!(store.toasts().len(), 3);
}

#[test]
fn handle_push_remove_and_clear_reach_the_store() {
    let mut store = ToastStore::new(ToastOptions::default());
    let mut toast = use_toast(&mut store);
    let a = toast.push(ToastRequest::new(ToastKind::Info, "a").with_timeout(3));
    let b = toast.push(ToastRequest::new(ToastKind::Info, "b"));
    toast.remove(a);
    assert_eq!(store.toasts().len(), 1);
    assert_eq!(store.toasts()[0].id, b);
    let mut toast = use_toast(&mut store);
    toast.clear();
    toast.remove(b);
    assert!(store.toasts().is_empty());
    assert_eq!(store.next_id(), 3);
}
