use compositor_core::handle::Handle;
use compositor_core::handle::HandleError;
use compositor_core::handle::ObjectStore;

#[derive(Debug, PartialEq)]
struct Cursor {
    x: i32,
    y: i32,
}

#[test]
fn run_reaches_the_live_object() {
    let mut store: ObjectStore<Cursor> = ObjectStore::new();
    let cursor = store.insert(Cursor { x: 1, y: 2 });
    let mut calls: u32 = 0;
    let result = cursor.run(&mut store, |c| {
        calls += 1;
        c.x += 10;
        c.x + c.y
    });
    assert_eq!(result, Ok(13));
    assert_eq!(calls, 1);
    assert_eq!(store.get(cursor), Ok(&Cursor { x: 11, y: 2 }));
    assert!(store.is_live(cursor));
    assert!(!store.is_borrowed(cursor));
}

#[test]
fn run_propagates_the_closure_value() {
    let mut store: ObjectStore<u32> = ObjectStore::new();
    let h = store.insert(5);
    let some: Result<Option<u32>, HandleError> = h.run(&mut store, |v| Some(*v * 2));
    assert_eq!(some, Ok(Some(10)));
    let none: Result<Option<u32>, HandleError> = h.run(&mut store, |_| None);
    assert_eq!(none, Ok(None));
}

#[test]
fn run_after_destroy_is_refused_and_does_not_call() {
    let mut store: ObjectStore<u32> = ObjectStore::new();
    let h = store.insert(5);
    assert_eq!(h.run(&mut store, |v| *v), Ok(5));
    assert!(store.invalidate(h));
    let mut calls: u32 = 0;
    for _ in 0..3 {
        let result = h.run(&mut store, |v| {
            calls += 1;
            *v
        });
        assert_eq!(result, Err(HandleError::AlreadyDestroyed));
    }
    assert_eq!(calls, 0);
    assert!(!store.is_live(h));
    assert_eq!(store.get(h), Err(HandleError::AlreadyDestroyed));
    assert_eq!(store.checkout(h), Err(HandleError::AlreadyDestroyed));
}

#[test]
fn invalidate_twice_reports_nothing_the_second_time() {
    let mut store: ObjectStore<u32> = ObjectStore::new();
    let h = store.insert(1);
    assert!(store.invalidate(h));
    assert!(!store.invalidate(h));
}

#[test]
fn a_reused_slot_does_not_revive_old_handles() {
    let mut store: ObjectStore<u32> = ObjectStore::new();
    let old = store.insert(1);
    let other = store.insert(2);
    assert!(store.invalidate(old));
    let new = store.insert(3);
    assert_ne!(new, old);
    assert_ne!(new, other);
    assert_eq!(old.run(&mut store, |v| *v), Err(HandleError::AlreadyDestroyed));
    assert_eq!(new.run(&mut store, |v| *v), Ok(3));
    assert_eq!(other.run(&mut store, |v| *v), Ok(2));
    // Many rounds of destroying and inserting never bring `old` back.
    let mut last = new;
    for round in 0..50u32 {
        assert!(store.invalidate(last));
        last = store.insert(round);
        assert_ne!(last, old);
        assert!(!store.is_live(old));
        assert_eq!(store.get(last), Ok(&round));
    }
    assert_eq!(store.get(other), Ok(&2));
}

#[test]
fn handles_of_distinct_objects_differ() {
    let mut store: ObjectStore<u32> = ObjectStore::new();
    let a = store.insert(1);
    let b = store.insert(1);
    assert_ne!(a, b);
    assert_eq!(a.run(&mut store, |v| { *v = 7; }), Ok(()));
    assert_eq!(store.get(a), Ok(&7));
    assert_eq!(store.get(b), Ok(&1));
}

#[test]
fn a_clone_outlives_the_handle_it_was_made_from() {
    let mut store: ObjectStore<u32> = ObjectStore::new();
    let copy: Handle<u32>;
    {
        let first = store.insert(9);
        copy = first.clone();
        assert_eq!(copy, first);
        drop(first);
    }
    assert!(store.is_live(copy));
    assert_eq!(copy.run(&mut store, |v| *v), Ok(9));
}

#[test]
fn destroying_through_one_handle_is_seen_by_every_copy() {
    let mut store: ObjectStore<u32> = ObjectStore::new();
    let first = store.insert(9);
    let second = first.clone();
    let third = second;
    assert!(store.invalidate(second));
    assert_eq!(first.run(&mut store, |v| *v), Err(HandleError::AlreadyDestroyed));
    assert_eq!(third.run(&mut store, |v| *v), Err(HandleError::AlreadyDestroyed));
}

#[test]
fn a_handle_of_another_store_is_not_live_in_an_empty_one() {
    let mut first: ObjectStore<u32> = ObjectStore::new();
    let mut second: ObjectStore<u32> = ObjectStore::new();
    let h = first.insert(1);
    assert!(!second.is_live(h));
    assert_eq!(h.run(&mut second, |v| *v), Err(HandleError::AlreadyDestroyed));
    assert!(!second.invalidate(h));
}

#[test]
fn checkout_blocks_access_until_checkin() {
    let mut store: ObjectStore<Cursor> = ObjectStore::new();
    let h = store.insert(Cursor { x: 0, y: 0 });
    let mut cursor = store.checkout(h).unwrap();
    assert!(store.is_live(h));
    assert!(store.is_borrowed(h));
    let mut calls: u32 = 0;
    let nested = h.run(&mut store, |_| {
        calls += 1;
    });
    assert_eq!(nested, Err(HandleError::AlreadyBorrowed));
    assert_eq!(calls, 0);
    assert_eq!(store.get(h), Err(HandleError::AlreadyBorrowed));
    assert_eq!(store.checkout(h), Err(HandleError::AlreadyBorrowed));
    cursor.x = 4;
    assert_eq!(store.checkin(h, cursor), Ok(()));
    assert!(!store.is_borrowed(h));
    assert_eq!(h.run(&mut store, |c| c.x), Ok(4));
}

#[test]
fn two_objects_of_one_store_at_once() {
    let mut store: ObjectStore<u32> = ObjectStore::new();
    let a = store.insert(1);
    let b = store.insert(2);
    let mut first = store.checkout(a).unwrap();
    let sum = b.run(&mut store, |second| {
        first += *second;
        *second = 0;
        first
    });
    assert_eq!(sum, Ok(3));
    assert_eq!(store.checkin(a, first), Ok(()));
    assert_eq!(store.get(a), Ok(&3));
    assert_eq!(store.get(b), Ok(&0));
}

#[test]
fn checkin_without_checkout_is_refused() {
    let mut store: ObjectStore<u32> = ObjectStore::new();
    let h = store.insert(1);
    assert_eq!(store.checkin(h, 2), Err((HandleError::AlreadyBorrowed, 2)));
    assert_eq!(store.get(h), Ok(&1));
}

#[test]
fn destroy_during_access_wins_over_the_checkin() {
    let mut store: ObjectStore<u32> = ObjectStore::new();
    let h = store.insert(1);
    let object = store.checkout(h).unwrap();
    // The destroy notification arrives while the object is still handed out.
    assert!(store.invalidate(h));
    assert!(!store.is_live(h));
    assert!(!store.is_borrowed(h));
    assert_eq!(store.checkin(h, object), Err((HandleError::AlreadyDestroyed, 1)));
    assert_eq!(h.run(&mut store, |v| *v), Err(HandleError::AlreadyDestroyed));
    let next = store.insert(5);
    assert_ne!(next, h);
    assert_eq!(store.checkin(h, 9), Err((HandleError::AlreadyDestroyed, 9)));
    assert_eq!(store.get(next), Ok(&5));
}

#[test]
fn handles_copy_and_compare_whatever_the_object_type() {
    // `Cursor` can neither be cloned nor copied; its handles can.
    let mut store: ObjectStore<Cursor> = ObjectStore::new();
    let first = store.insert(Cursor { x: 1, y: 1 });
    let second = store.insert(Cursor { x: 1, y: 1 });
    let copy = first;
    let clone = first.clone();
    assert!(copy == first);
    assert!(clone == first);
    assert!(first != second);
    assert_eq!(clone.run(&mut store, |c| c.x), Ok(1));
}
