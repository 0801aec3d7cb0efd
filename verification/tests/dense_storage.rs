//! Behavior of the generational arena: stable handles, stale-handle
//! detection across removal and slot reuse, LIFO recycling, iteration.

use render_sync::dense_storage::DenseStorage;

#[test]
fn push_get_returns_value() {
    let mut arena: DenseStorage<u32> = DenseStorage::new();
    let h = arena.push(42);
    assert_eq!(h.0, 0);
    assert_eq!(h.1, 0);
    assert_eq!(arena.get(h), Some(&42));
}

#[test]
fn get_after_remove_fails() {
    let mut arena: DenseStorage<&str> = DenseStorage::new();
    let h = arena.push("alpha");
    assert_eq!(arena.remove(h), Some("alpha"));
    assert_eq!(arena.get(h), None);
}

#[test]
fn stale_handle_fails_after_slot_reuse() {
    let mut arena: DenseStorage<u32> = DenseStorage::new();
    let first = arena.push(1);
    arena.remove(first);
    let second = arena.push(2);
    // the slot is reused under a fresh generation
    assert_eq!(second.0, first.0);
    assert_eq!(second.1, first.1 + 1);
    // the old handle never resolves to the new value
    assert_eq!(arena.get(first), None);
    assert_eq!(arena.get(second), Some(&2));
}

#[test]
fn remove_twice_is_idempotent() {
    let mut arena: DenseStorage<u32> = DenseStorage::new();
    let a = arena.push(10);
    let _b = arena.push(20);
    assert_eq!(arena.remove(a), Some(10));
    // second removal returns nothing and pushes nothing onto the free stack:
    assert_eq!(arena.remove(a), None);
    // one slot was recycled, so exactly one push reuses it ...
    let c = arena.push(30);
    assert_eq!(c.0, a.0);
    // ... and the next push must append a fresh slot, not reuse slot 0 again
    let d = arena.push(40);
    assert_eq!(d.0, 2);
    assert_eq!(d.1, 0);
}

#[test]
fn reuse_is_lifo() {
    let mut arena: DenseStorage<u32> = DenseStorage::new();
    let a = arena.push(1);
    let _b = arena.push(2);
    let c = arena.push(3);
    arena.remove(a);
    arena.remove(c);
    // the most recently freed slot (c's) is reused first
    let d = arena.push(4);
    assert_eq!(d.0, c.0);
    let e = arena.push(5);
    assert_eq!(e.0, a.0);
}

#[test]
fn removed_value_is_returned_once() {
    let mut arena: DenseStorage<String> = DenseStorage::new();
    let h = arena.push(String::from("payload"));
    assert_eq!(arena.remove(h), Some(String::from("payload")));
    assert_eq!(arena.remove(h), None);
}

#[test]
fn get_out_of_range_fails() {
    let arena: DenseStorage<u32> = DenseStorage::new();
    let h = render_sync::dense_storage::DenseStorageIndex::new(3, 0);
    assert_eq!(arena.get(h), None);
}

#[test]
fn get_with_wrong_generation_fails() {
    let mut arena: DenseStorage<u32> = DenseStorage::new();
    let h = arena.push(7);
    let forged = render_sync::dense_storage::DenseStorageIndex::new(h.0, h.1 + 1);
    assert_eq!(arena.get(forged), None);
}

#[test]
fn iter_yields_occupied_slots_in_order() {
    let mut arena: DenseStorage<u32> = DenseStorage::new();
    let a = arena.push(10);
    let b = arena.push(20);
    let c = arena.push(30);
    arena.remove(b);
    let entries = arena.iter();
    assert_eq!(entries.len(), 2);
    assert_eq!(entries[0].0 .0, a.0);
    assert_eq!(*entries[0].1, 10);
    assert_eq!(entries[1].0 .0, c.0);
    assert_eq!(*entries[1].1, 30);
    // iteration is a fresh snapshot each call
    let again = arena.iter();
    assert_eq!(again.len(), 2);
}

#[test]
fn iter_handles_resolve_via_get() {
    let mut arena: DenseStorage<u32> = DenseStorage::new();
    arena.push(1);
    let b = arena.push(2);
    arena.remove(b);
    arena.push(3);
    for (handle, value) in arena.iter() {
        assert_eq!(arena.get(handle), Some(value));
    }
}

#[test]
fn slot_count_counts_vacant_slots_too() {
    let mut arena: DenseStorage<u32> = DenseStorage::new();
    let a = arena.push(1);
    arena.push(2);
    assert_eq!(arena.slot_count(), 2);
    arena.remove(a);
    assert_eq!(arena.slot_count(), 2);
    assert_eq!(arena.iter().len(), 1);
}
