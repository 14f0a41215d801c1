use asset_engine::AssetHandle;
use asset_engine::AssetEvent;
use asset_engine::Assets;
use asset_engine::DecodeError;
use asset_engine::LoadHandle;
use asset_engine::Text;
use asset_engine::WeakHandle;

fn text(s: &str) -> Text {
    Text(String::from(s))
}

#[test]
fn add_then_get_sees_the_asset_at_version_zero() {
    let mut assets: Assets<Text> = Assets::new(1);
    let handle = assets.add(text("hello"));
    let got = assets.get(&handle);
    assert_eq!(got.map(|t| t.as_str()), Some("hello"));
    assert_eq!(assets.get_version(&handle), Some(0));
    let (value, version) = assets.get_asset_with_version(&handle).unwrap();
    assert_eq!(value.as_str(), "hello");
    assert_eq!(version, 0);
}

#[test]
fn update_is_invisible_until_commit() {
    let mut assets: Assets<Text> = Assets::new(1);
    let slot = LoadHandle::new_direct(7);
    let weak: WeakHandle<Text> = WeakHandle::new(slot);

    let err = assets.update_asset(Ok(text("v3")), slot, 3);
    assert!(err.is_none());
    // Before commit, readers see nothing for the slot.
    assert!(assets.get(&weak).is_none());
    assert_eq!(assets.get_version(&weak), None);

    assets.commit_asset_version(slot, 3);
    assert_eq!(assets.get(&weak).map(|t| t.as_str()), Some("v3"));
    assert_eq!(assets.get_version(&weak), Some(3));
}

#[test]
fn update_over_a_committed_version_keeps_the_old_one_visible() {
    let mut assets: Assets<Text> = Assets::new(1);
    let slot = LoadHandle::new_direct(7);
    let weak: WeakHandle<Text> = WeakHandle::new(slot);

    assets.update_asset(Ok(text("v1")), slot, 1).map(|e| panic!("decode error: {}", e.message));
    assets.commit_asset_version(slot, 1);
    assert_eq!(assets.get(&weak).map(|t| t.as_str()), Some("v1"));

    // A newer uncommitted version does not change what readers see.
    assets.update_asset(Ok(text("v2")), slot, 2).map(|e| panic!("decode error: {}", e.message));
    assert_eq!(assets.get(&weak).map(|t| t.as_str()), Some("v1"));
    assert_eq!(assets.get_version(&weak), Some(1));

    assets.commit_asset_version(slot, 2);
    assert_eq!(assets.get(&weak).map(|t| t.as_str()), Some("v2"));
    assert_eq!(assets.get_version(&weak), Some(2));
}

#[test]
fn decode_failure_is_handed_back_and_leaves_the_store_untouched() {
    let mut assets: Assets<Text> = Assets::new(1);
    let slot = LoadHandle::new_direct(7);
    let weak: WeakHandle<Text> = WeakHandle::new(slot);

    let err = assets.update_asset(
        Err(DecodeError { message: String::from("bad payload") }),
        slot,
        1,
    );
    assert_eq!(err.map(|e| e.message), Some(String::from("bad payload")));
    assert!(assets.get(&weak).is_none());
    // Nothing is pending either: a later commit would be a protocol violation.
    assert!(!assets.try_commit_asset_version(slot, 1));
}

#[test]
fn free_with_stale_version_is_ignored() {
    let mut assets: Assets<Text> = Assets::new(1);
    let slot = LoadHandle::new_direct(7);
    let weak: WeakHandle<Text> = WeakHandle::new(slot);

    assets.update_asset(Ok(text("v5")), slot, 5).map(|e| panic!("decode error: {}", e.message));
    assets.commit_asset_version(slot, 5);
    assets.drain_events();

    // The stored version is 5; freeing version 4 must leave it alone.
    assets.free(slot, 4);
    assert_eq!(assets.get(&weak).map(|t| t.as_str()), Some("v5"));
    assert_eq!(assets.get_version(&weak), Some(5));
    assert!(assets.drain_events().is_empty());

    // Freeing the exact version removes it and reports it.
    assets.free(slot, 5);
    assert!(assets.get(&weak).is_none());
    let events = assets.drain_events();
    assert_eq!(events.len(), 1);
    match &events[0] {
        AssetEvent::Removed { handle, version } => {
            assert_eq!(handle.load_handle().handle_id(), 7);
            assert_eq!(*version, 5);
        }
        AssetEvent::Modified { .. } => panic!("expected a Removed event"),
    }
}

#[test]
fn free_drops_a_pending_version_of_the_same_generation() {
    let mut assets: Assets<Text> = Assets::new(1);
    let slot = LoadHandle::new_direct(9);

    assets.update_asset(Ok(text("pending")), slot, 2).map(|e| panic!("decode error: {}", e.message));
    assets.free(slot, 2);
    // The pending entry is gone: committing now would be a violation.
    assert!(!assets.try_commit_asset_version(slot, 2));
    // No committed entry was removed, so no event is queued.
    assert!(assets.drain_events().is_empty());
}

#[test]
fn commit_without_pending_entry_is_a_protocol_violation() {
    let mut assets: Assets<Text> = Assets::new(1);
    let slot = LoadHandle::new_direct(3);
    // The guarded commit reports the violation instead of inventing state.
    assert!(!assets.try_commit_asset_version(slot, 1));
    assert!(assets.get(&WeakHandle::<Text>::new(slot)).is_none());
    assert!(assets.drain_events().is_empty());
}

#[test]
fn add_and_remove_emit_exactly_one_event_each() {
    let mut assets: Assets<Text> = Assets::new(1);
    let handle = assets.add(text("tracked"));

    let events = assets.drain_events();
    assert_eq!(events.len(), 1);
    match &events[0] {
        AssetEvent::Modified { handle: h, version } => {
            assert_eq!(h.load_handle(), handle.load_handle());
            assert_eq!(*version, 0);
        }
        AssetEvent::Removed { .. } => panic!("expected a Modified event"),
    }

    let removed = assets.remove(&handle);
    assert_eq!(removed.map(|t| t.0), Some(String::from("tracked")));
    let events = assets.drain_events();
    assert_eq!(events.len(), 1);
    match &events[0] {
        AssetEvent::Removed { handle: h, version } => {
            assert_eq!(h.load_handle(), handle.load_handle());
            assert_eq!(*version, 0);
        }
        AssetEvent::Modified { .. } => panic!("expected a Removed event"),
    }
    assert!(assets.get(&handle).is_none());
}

#[test]
fn remove_of_an_absent_slot_reports_nothing() {
    let mut assets: Assets<Text> = Assets::new(1);
    let weak: WeakHandle<Text> = WeakHandle::new(LoadHandle::new_direct(42));
    assert!(assets.remove(&weak).is_none());
    assert!(assets.drain_events().is_empty());
}

#[test]
fn get_mut_marks_the_asset_dirty() {
    let mut assets: Assets<Text> = Assets::new(1);
    assets.update_asset(Ok(text("before")), LoadHandle::new_direct(7), 4)
        .map(|e| panic!("decode error: {}", e.message));
    assets.commit_asset_version(LoadHandle::new_direct(7), 4);
    assets.drain_events();

    let weak: WeakHandle<Text> = WeakHandle::new(LoadHandle::new_direct(7));
    {
        let value = assets.get_mut(&weak);
        value.0 = String::from("after");
    }
    assert_eq!(assets.get(&weak).map(|t| t.as_str()), Some("after"));
    // The version is untouched, but the mutable borrow counted as a change.
    assert_eq!(assets.get_version(&weak), Some(4));
    let events = assets.drain_events();
    assert_eq!(events.len(), 1);
    match &events[0] {
        AssetEvent::Modified { handle, version } => {
            assert_eq!(handle.load_handle().handle_id(), 7);
            assert_eq!(*version, 4);
        }
        AssetEvent::Removed { .. } => panic!("expected a Modified event"),
    }
}

#[test]
fn len_ids_and_iter_list_the_committed_slots() {
    let mut assets: Assets<Text> = Assets::new(1);
    assert!(assets.is_empty());
    let h1 = assets.add(text("one"));
    let h2 = assets.add(text("two"));
    assert_eq!(assets.len(), 2);
    assert!(!assets.is_empty());

    let ids = assets.ids();
    assert_eq!(ids.len(), 2);
    assert_eq!(ids[0].load_handle(), h1.load_handle());
    assert_eq!(ids[1].load_handle(), h2.load_handle());

    let pairs = assets.iter();
    assert_eq!(pairs.len(), 2);
    assert_eq!(pairs[0].0.load_handle(), h1.load_handle());
    assert_eq!(pairs[0].1.as_str(), "one");
    assert_eq!(pairs[1].0.load_handle(), h2.load_handle());
    assert_eq!(pairs[1].1.as_str(), "two");

    // Fresh handles never collide with live ones.
    assert_ne!(h1.load_handle(), h2.load_handle());
}
