use asset_engine::AssetHandle;
use asset_engine::Assets;
use asset_engine::Handle;
use asset_engine::HandleAllocator;
use asset_engine::HandleUntyped;
use asset_engine::LoadHandle;
use asset_engine::RefCounts;
use asset_engine::RefOp;
use asset_engine::RefOpChannel;
use asset_engine::Text;
use asset_engine::WeakHandle;

/// The sum of the increments minus the decrements for `id` in a drained
/// message batch: what the consumer loop would add to the slot's count.
fn net_delta_for(ops: &[RefOp], id: u64) -> i64 {
    let mut sum: i64 = 0;
    for op in ops {
        match op {
            RefOp::Increase(h) => {
                if h.handle_id() == id {
                    sum += 1;
                }
            }
            RefOp::Decrease(h) => {
                if h.handle_id() == id {
                    sum -= 1;
                }
            }
        }
    }
    sum
}

#[test]
fn clone_and_drop_round_trip_nets_zero() {
    let mut chan = RefOpChannel::new();
    let mut assets: Assets<Text> = Assets::new(1);
    let handle = assets.add(Text(String::from("counted")));
    let id = handle.load_handle().handle_id();

    let n = 17;
    let mut clones: Vec<Handle<Text>> = Vec::new();
    for _ in 0..n {
        clones.push(handle.clone_ref(&mut chan));
    }
    assert_eq!(chan.len(), n);
    while let Some(clone) = clones.pop() {
        clone.drop_ref(&mut chan);
    }
    assert_eq!(chan.len(), 2 * n);

    let ops = chan.drain();
    assert!(chan.is_empty());
    assert_eq!(ops.len(), 2 * n);
    assert_eq!(net_delta_for(&ops, id), 0);
}

#[test]
fn messages_arrive_in_send_order_tagged_with_the_handle() {
    let mut chan = RefOpChannel::new();
    let handle: Handle<Text> = Handle::new(LoadHandle::new_direct(5));
    let clone = handle.clone_ref(&mut chan);
    clone.drop_ref(&mut chan);

    let ops = chan.drain();
    assert_eq!(ops.len(), 2);
    match ops[0] {
        RefOp::Increase(h) => assert_eq!(h.handle_id(), 5),
        RefOp::Decrease(_) => panic!("expected the increment first"),
    }
    match ops[1] {
        RefOp::Decrease(h) => assert_eq!(h.handle_id(), 5),
        RefOp::Increase(_) => panic!("expected the decrement second"),
    }
}

#[test]
fn weak_handles_send_no_traffic_and_upgrade_sends_one_increment() {
    let mut chan = RefOpChannel::new();
    let strong: Handle<Text> = Handle::new(LoadHandle::new_direct(9));
    let weak: WeakHandle<Text> = strong.clone_weak();
    let weak_copy = weak;
    assert_eq!(weak_copy.load_handle(), strong.load_handle());
    assert!(chan.is_empty());

    let upgraded = weak.upgrade(&mut chan);
    assert_eq!(upgraded.load_handle(), strong.load_handle());
    let ops = chan.drain();
    assert_eq!(ops.len(), 1);
    assert!(matches!(ops[0], RefOp::Increase(h) if h.handle_id() == 9));
}

#[test]
fn untyped_handles_carry_the_same_lifecycle() {
    let mut chan = RefOpChannel::new();
    let untyped = HandleUntyped::new(LoadHandle::new_direct(11));
    let clone = untyped.clone_ref(&mut chan);
    assert_eq!(clone.load_handle(), untyped.load_handle());
    clone.drop_ref(&mut chan);
    untyped.drop_ref(&mut chan);
    let ops = chan.drain();
    assert_eq!(ops.len(), 3);
    assert_eq!(net_delta_for(&ops, 11), -1);
}

#[test]
fn allocator_issues_fresh_direct_handles() {
    let mut alloc = HandleAllocator::new(100);
    let a = alloc.allocate();
    let b = alloc.allocate();
    assert_eq!(a.handle_id(), 100);
    assert_eq!(b.handle_id(), 101);
    assert!(!a.is_indirect());
    assert!(!b.is_indirect());
    assert_ne!(a, b);
}

#[test]
fn handles_compare_by_load_handle() {
    let a: Handle<Text> = Handle::new(LoadHandle::new_direct(1));
    let b: Handle<Text> = Handle::new(LoadHandle::new_direct(1));
    let c: Handle<Text> = Handle::new(LoadHandle::new_direct(2));
    assert!(a == b);
    assert!(a != c);
    assert!(a.clone_weak() == b.clone_weak());
    assert!(a.clone_weak() != c.clone_weak());
    assert_ne!(LoadHandle::new_direct(1), LoadHandle::new_indirect(1));
}

#[test]
fn the_consumer_applies_deltas_and_reports_the_last_drop() {
    let mut chan = RefOpChannel::new();
    let mut counts = RefCounts::new();
    let handle: Handle<Text> = Handle::new(LoadHandle::new_direct(21));

    // One increment for the original owner, then a clone.
    counts.apply(RefOp::Increase(handle.load_handle()));
    let clone = handle.clone_ref(&mut chan);
    clone.drop_ref(&mut chan);
    handle.drop_ref(&mut chan);

    let mut freed: Vec<u64> = Vec::new();
    for op in chan.drain() {
        if let Some(id) = counts.apply(op) {
            freed.push(id);
        }
    }
    // Only the very last release reports the slot as ownerless.
    assert_eq!(freed, vec![21]);
    assert_eq!(counts.count_of(21), 0);

    // A stray decrement for an untracked slot is ignored.
    assert!(counts.apply(RefOp::Decrease(LoadHandle::new_direct(99))).is_none());
    assert_eq!(counts.count_of(99), 0);
}
