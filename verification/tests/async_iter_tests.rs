//! Driving producers through the heap-erased handles.

use dyner::async_iter::{drain, AsyncIter, DynAsyncIter, FatPtr};
use dyner::dyn_async_iter;
use dyner::dyn_async_iter::DynAsyncIterStrategy;
use dyner::step::{drive, PollStep, Step};
use dyner::yielding_range::YieldingRange;

fn expected_range(start: u32, stop: u32) -> Vec<u32> {
    let mut v: Vec<u32> = Vec::new();
    let mut i: u32 = start;
    while i < stop {
        v.push(i);
        i += 1;
    }
    v
}

#[test]
fn box_dyn_async_iter() {
    let range = YieldingRange::new(0, 10);
    let mut dyn_range = DynAsyncIter::new(range);
    let items = drain(&mut dyn_range);
    assert_eq!(items, expected_range(0, 10));
    // Exhausted stays exhausted: no further non-`None` values.
    assert_eq!(drive(dyn_range.next()), None);
    assert_eq!(drive(dyn_range.next()), None);
    // The owning handle reclaims the producer itself.
    assert!(dyn_range.dispose().is_none());
}

#[test]
fn ref_mut_dyn_async_iter() {
    let range = YieldingRange::new(0, 10);
    let mut handle = DynAsyncIter::from_ref_mut(range);
    let items = drain(handle.get_mut());
    assert_eq!(items, expected_range(0, 10));
    // The exclusive-borrow handle never owned the producer: destruction hands
    // it back to the external owner, exhausted.
    let mut range_back = handle.dispose().expect("borrowed handle hands the producer back");
    assert_eq!(drive(range_back.next()), None);
}

/// A handle built through the shared-borrow path is sealed in a `Ref`, which
/// grants only `&T` access; `next` needs `&mut self`, so there is no path to
/// it through the guard — the call does not type-check by design.
#[test]
fn ref_dyn_async_iter() {}

#[test]
fn ref_dyn_async_iter_size_hint() {
    let range = YieldingRange::new(0, 10);
    let dyn_range = DynAsyncIter::from_ref(range);
    assert_eq!(drive(dyn_range.get().size_hint()), Some(10));
    // The shared handle never owned the producer either.
    assert!(dyn_range.dispose().is_some());
}

#[test]
fn size_hint_before_any_advance() {
    let range = YieldingRange::new(3, 9);
    assert_eq!(drive(range.size_hint()), Some(6));
}

#[test]
fn size_hint_tracks_progress() {
    let mut range = YieldingRange::new(0, 3);
    assert_eq!(drive(range.size_hint()), Some(3));
    assert_eq!(drive(range.next()), Some(0));
    assert_eq!(drive(range.size_hint()), Some(2));
}

#[test]
fn empty_range_drains_to_nothing() {
    let range = YieldingRange::new(5, 5);
    let mut dyn_range = DynAsyncIter::new(range);
    assert_eq!(drive(dyn_range.size_hint()), Some(0));
    let items = drain(&mut dyn_range);
    assert!(items.is_empty());
}

#[test]
fn step_polls_through_suspensions() {
    let fut: Step<u32> = Step::new(2, 7);
    let fut = match fut.poll() {
        PollStep::Pending(rest) => rest,
        PollStep::Ready(_) => panic!("resolved two suspensions early"),
    };
    let fut = match fut.poll() {
        PollStep::Pending(rest) => rest,
        PollStep::Ready(_) => panic!("resolved one suspension early"),
    };
    match fut.poll() {
        PollStep::Pending(_) => panic!("failed to resolve"),
        PollStep::Ready(v) => assert_eq!(v, 7),
    }
    assert_eq!(drive(Step::new(2, 7)), 7);
}

#[test]
fn fat_ptr_tag_round_trip() {
    let p = FatPtr::new(8, 16);
    assert!(!p.is_tagged());
    let t = p.tagged();
    assert!(t.is_tagged());
    assert!(!t.untagged().is_tagged());
}

#[test]
fn drain_owned_range_observes_the_bounds() {
    assert_eq!(dyner::yielding_range::drain_owned_range(2, 6), expected_range(2, 6));
    assert_eq!(dyner::yielding_range::drain_owned_range(4, 4), Vec::<u32>::new());
}

#[test]
fn drain_borrowed_range_observes_the_bounds() {
    assert_eq!(dyner::yielding_range::drain_borrowed_range(7, 11), expected_range(7, 11));
}

struct RangeStrategy;

impl DynAsyncIterStrategy for RangeStrategy {
    type Producer = YieldingRange;
}

#[test]
fn strategy_dyn_async_iter() {
    let range = YieldingRange::new(3, 7);
    let mut handle: dyn_async_iter::DynAsyncIter<RangeStrategy> = dyn_async_iter::DynAsyncIter::new(
        range,
    );
    assert_eq!(drive(handle.size_hint()), Some(4));
    let items = drain(&mut handle);
    assert_eq!(items, expected_range(3, 7));
    assert!(handle.dispose().is_none());
}

#[test]
fn strategy_observing_handle_hands_back() {
    let range = YieldingRange::new(0, 2);
    let handle: dyn_async_iter::DynAsyncIter<RangeStrategy> = dyn_async_iter::DynAsyncIter::from_value(
        range,
    );
    let mut range_back = handle.dispose().expect("observing handle hands the producer back");
    assert_eq!(drive(range_back.next()), Some(0));
}
