//! The pointer-kind erasure utility: one erased object over values reached
//! through owned, shared-refcounted, borrowed and exclusively-borrowed
//! pointers, each reclaimed exactly once and through the right path.
//!
//! Destruction is observed through caller-side counters: every disposal or
//! mutation reports the destruction tokens it freed, and the tests tally
//! them in a log.

use dyner::dynerx::{DynLen, Len, NumArray, Store, TokenArray};

/// How many times the destruction counter `id` has fired.
fn count(log: &[usize], id: usize) -> usize {
    let mut n: usize = 0;
    for t in log {
        if *t == id {
            n += 1;
        }
    }
    n
}

fn record(log: &mut Vec<usize>, freed: Vec<usize>) {
    for id in freed {
        log.push(id);
    }
}

fn get_len<T: Len>(x: &DynLen, s: &Store<T>) -> usize {
    x.len(s)
}

#[test]
fn test_len() {
    // A caller-owned local array, borrowed shared and then exclusively.
    let mut store: Store<NumArray> = Store::new();
    let addr = store.local_new(NumArray::new(vec![1, 2, 3]));
    let shared = DynLen::from_ref(store.borrow(addr));
    assert_eq!(3, get_len(shared.get(), &store));
    let freed = shared.dispose(&mut store);
    assert!(freed.is_empty());
    {
        let mut dyn_mut_items = DynLen::from_mut(store.borrow_mut(addr));
        dyn_mut_items.get_mut().modify(&mut store);
        assert_eq!(3, dyn_mut_items.get().len(&store));
        dyn_mut_items.dispose(&mut store);
    }
    assert_eq!(0, store.read(addr).get(0));

    // An owned allocation of drop-counted units.
    let mut store: Store<TokenArray> = Store::new();
    let mut log: Vec<usize> = Vec::new();
    let drop_counter: usize = 0;
    let box_items = store.box_new(
        TokenArray::new(vec![Some(drop_counter), None, Some(drop_counter)]),
    );
    {
        let mut dyn_items = DynLen::from_mut(box_items);
        assert_eq!(0, count(&log, drop_counter));
        assert_eq!(3, get_len(dyn_items.get(), &store));
        // Mutation drops the first element.
        let freed = dyn_items.get_mut().modify(&mut store);
        record(&mut log, freed);
        assert_eq!(1, count(&log, drop_counter));
        let freed = dyn_items.dispose(&mut store);
        record(&mut log, freed);
    }
    assert_eq!(2, count(&log, drop_counter));

    // Two erasures from one shared refcounted source.
    let mut log: Vec<usize> = Vec::new();
    let drop_counter: usize = 1;
    let rc_items = store.rc_new(TokenArray::new(vec![None, None, Some(drop_counter)]));
    let rc_items2 = store.rc_clone(&rc_items);
    {
        let dyn_items = DynLen::from_ref(rc_items);
        assert_eq!(0, count(&log, drop_counter));
        assert_eq!(3, get_len(dyn_items.get(), &store));
        let freed = dyn_items.dispose(&mut store);
        record(&mut log, freed);
    }
    assert_eq!(0, count(&log, drop_counter));
    let second = DynLen::from_ref(rc_items2);
    assert_eq!(3, get_len(second.get(), &store));
    let freed = second.dispose(&mut store);
    record(&mut log, freed);
    assert_eq!(1, count(&log, drop_counter));
}

#[test]
fn erase_and_destroy_owned() {
    let mut store: Store<TokenArray> = Store::new();
    let mut log: Vec<usize> = Vec::new();
    let c: usize = 0;
    let p = store.box_new(TokenArray::new(vec![Some(c)]));
    let erased = DynLen::from_mut(p);
    let freed = erased.dispose(&mut store);
    record(&mut log, freed);
    // Released exactly once.
    assert_eq!(1, count(&log, c));
}

#[test]
fn erase_and_destroy_shared_pair() {
    let mut store: Store<TokenArray> = Store::new();
    let mut log: Vec<usize> = Vec::new();
    let c: usize = 0;
    let p1 = store.rc_new(TokenArray::new(vec![Some(c)]));
    let p2 = store.rc_clone(&p1);
    let e1 = DynLen::from_ref(p1);
    let e2 = DynLen::from_ref(p2);
    // Each erasure independently decrements the shared count; the value is
    // released only when the count reaches zero, and not before.
    record(&mut log, e1.dispose(&mut store));
    assert_eq!(0, count(&log, c));
    record(&mut log, e2.dispose(&mut store));
    assert_eq!(1, count(&log, c));
}

#[test]
fn erase_and_destroy_borrowed() {
    let mut store: Store<TokenArray> = Store::new();
    let c: usize = 0;
    let addr = store.local_new(TokenArray::new(vec![Some(c)]));
    let erased = DynLen::from_ref(store.borrow(addr));
    let freed = erased.dispose(&mut store);
    // A borrow never touches the value: nothing is released and the owner
    // can still read its local.
    assert!(freed.is_empty());
    assert_eq!(1, store.read(addr).len());
}

#[test]
fn erase_and_destroy_exclusive() {
    let mut store: Store<TokenArray> = Store::new();
    let c: usize = 0;
    let addr = store.local_new(TokenArray::new(vec![Some(c)]));
    let erased = DynLen::from_mut(store.borrow_mut(addr));
    let freed = erased.dispose(&mut store);
    assert!(freed.is_empty());
    assert_eq!(1, store.read(addr).len());
}

#[test]
fn owned_release_round_trip_fires_every_token() {
    let mut store: Store<TokenArray> = Store::new();
    let freed = dyner::dynerx::owned_release_round_trip(
        &mut store,
        TokenArray::new(vec![Some(4), None, Some(9)]),
    );
    assert_eq!(freed, vec![4, 9]);
}

#[test]
fn shared_release_round_trip_frees_only_at_zero() {
    let mut store: Store<TokenArray> = Store::new();
    let (first, second) = dyner::dynerx::shared_release_round_trip(
        &mut store,
        TokenArray::new(vec![Some(3)]),
    );
    assert!(first.is_empty());
    assert_eq!(second, vec![3]);
}

#[test]
fn borrowed_release_round_trip_is_a_no_op() {
    let mut store: Store<TokenArray> = Store::new();
    let addr = store.local_new(TokenArray::new(vec![Some(5)]));
    let (first, second) = dyner::dynerx::borrowed_release_round_trip(&mut store, addr);
    assert!(first.is_empty());
    assert!(second.is_empty());
    assert_eq!(1, store.read(addr).len());
}

#[test]
fn modify_on_empty_contents_is_a_no_op() {
    let mut store: Store<NumArray> = Store::new();
    let addr = store.local_new(NumArray::new(Vec::new()));
    let mut erased = DynLen::from_mut(store.borrow_mut(addr));
    let freed = erased.get_mut().modify(&mut store);
    assert!(freed.is_empty());
    assert_eq!(0, erased.get().len(&store));
    erased.dispose(&mut store);
}

#[test]
fn modify_without_token_displaces_nothing() {
    let mut store: Store<TokenArray> = Store::new();
    let c: usize = 0;
    let p = store.box_new(TokenArray::new(vec![None, Some(c)]));
    let mut erased = DynLen::from_mut(p);
    let freed = erased.get_mut().modify(&mut store);
    assert!(freed.is_empty());
    let mut log: Vec<usize> = Vec::new();
    record(&mut log, erased.dispose(&mut store));
    assert_eq!(1, count(&log, c));
}
