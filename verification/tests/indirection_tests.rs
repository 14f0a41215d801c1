use asset_engine::AssetHandle;
use asset_engine::Assets;
use asset_engine::LoadHandle;
use asset_engine::Text;
use asset_engine::WeakHandle;

#[test]
fn direct_handles_resolve_to_themselves() {
    let assets: Assets<Text> = Assets::new(1);
    let direct = LoadHandle::new_direct(7);
    assert_eq!(assets.resolve_handle(direct), Some(direct));
}

#[test]
fn indirect_handles_track_the_table() {
    let mut assets: Assets<Text> = Assets::new(1);
    let indirect = LoadHandle::new_indirect(100);

    // Unresolved until the table maps it.
    assert_eq!(assets.resolve_handle(indirect), None);

    let first = LoadHandle::new_direct(7);
    assets.set_indirection(indirect, first);
    assert_eq!(assets.resolve_handle(indirect), Some(first));

    // Repointing the table updates what the same handle resolves to.
    let second = LoadHandle::new_direct(8);
    assets.set_indirection(indirect, second);
    assert_eq!(assets.resolve_handle(indirect), Some(second));
}

#[test]
fn reads_through_an_indirect_handle_follow_the_current_target() {
    let mut assets: Assets<Text> = Assets::new(1);
    let slot_a = LoadHandle::new_direct(7);
    let slot_b = LoadHandle::new_direct(8);
    assets.update_asset(Ok(Text(String::from("a"))), slot_a, 1)
        .map(|e| panic!("decode error: {}", e.message));
    assets.commit_asset_version(slot_a, 1);
    assets.update_asset(Ok(Text(String::from("b"))), slot_b, 1)
        .map(|e| panic!("decode error: {}", e.message));
    assets.commit_asset_version(slot_b, 1);

    let indirect: WeakHandle<Text> = WeakHandle::new(LoadHandle::new_indirect(100));

    // Nothing is visible through the handle while it is unresolved.
    assert!(assets.get(&indirect).is_none());
    assert!(assets.resolve(&indirect).is_none());

    assets.set_indirection(indirect.load_handle(), slot_a);
    assert_eq!(assets.get(&indirect).map(|t| t.as_str()), Some("a"));
    let resolved = assets.resolve(&indirect).unwrap();
    assert_eq!(resolved.load_handle(), slot_a);

    // Hot swap: the same handle now reads the other slot.
    assets.set_indirection(indirect.load_handle(), slot_b);
    assert_eq!(assets.get(&indirect).map(|t| t.as_str()), Some("b"));
}
