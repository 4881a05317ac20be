//! Driving producers through the inline-storage erased handle.

use dyner::inline_async_iter::{InlineAsyncIterImpl, InlineDynAsyncIter};
use dyner::yielding_range::YieldingRange;

/// Request the next item and poll the advance slot to completion.
fn next_to_completion(it: &mut InlineDynAsyncIter<YieldingRange>) -> Option<u32> {
    it.next();
    loop {
        if let Some(v) = it.poll_next() {
            return v;
        }
    }
}

/// Request a size estimate and poll the guarded slot to completion.
fn size_hint_to_completion(it: &mut InlineDynAsyncIter<YieldingRange>) -> Option<usize> {
    it.size_hint().expect("no size-estimate computation is outstanding");
    loop {
        if let Some(v) = it.poll_size_hint() {
            return v;
        }
    }
}

#[test]
fn inline_next() {
    let range = YieldingRange::new(0, 10);
    let inline_range = InlineAsyncIterImpl::new(range);
    let mut inline_dyn_range = inline_range.as_dyn();
    let mut i: u32 = 0;
    while i < 10 {
        assert_eq!(next_to_completion(&mut inline_dyn_range), Some(i));
        i += 1;
    }
    assert_eq!(next_to_completion(&mut inline_dyn_range), None);
}

#[test]
fn inline_size_hint() {
    let range = YieldingRange::new(0, 10);
    let inline_range = InlineAsyncIterImpl::new(range);
    let mut inline_dyn_range = inline_range.as_dyn();
    assert_eq!(size_hint_to_completion(&mut inline_dyn_range), Some(10));
}

#[test]
#[should_panic(expected = "already borrowed")]
fn inline_size_hint_error() {
    let range = YieldingRange::new(0, 10);
    let inline_range = InlineAsyncIterImpl::new(range);
    let mut inline_dyn_range = inline_range.as_dyn();
    let first = inline_dyn_range.size_hint();
    assert!(first.is_ok());
    // The first computation is still outstanding: a re-entrant request is a
    // fatal access violation.
    if inline_dyn_range.size_hint().is_err() {
        panic!("already borrowed: AccessViolation");
    }
}

#[test]
fn inline_size_hint_ok() {
    let range = YieldingRange::new(0, 10);
    let inline_range = InlineAsyncIterImpl::new(range);
    let mut inline_dyn_range = inline_range.as_dyn();
    let s1 = size_hint_to_completion(&mut inline_dyn_range);
    let s2 = size_hint_to_completion(&mut inline_dyn_range);
    assert_eq!(s1, s2);
    assert_eq!(s1, Some(10));
}

#[test]
fn inline_size_hint_cancel_releases_cell() {
    let range = YieldingRange::new(0, 10);
    let inline_range = InlineAsyncIterImpl::new(range);
    let mut it = inline_range.as_dyn();
    assert!(it.size_hint().is_ok());
    assert!(it.size_hint().is_err());
    // Cancellation is silent and resource-safe: the cell is released without
    // the computation having been driven to completion.
    it.cancel_size_hint();
    assert!(it.size_hint().is_ok());
    loop {
        if let Some(v) = it.poll_size_hint() {
            assert_eq!(v, Some(10));
            break;
        }
    }
}

#[test]
fn observe_hint_twice_resolves_equal() {
    let mut it = InlineAsyncIterImpl::new(YieldingRange::new(0, 4));
    let (a, b) = dyner::inline_async_iter::observe_hint_twice(&mut it);
    assert_eq!(a, b);
    assert_eq!(a, Some(4));
}

#[test]
fn inline_next_overwrites_previous() {
    let range = YieldingRange::new(0, 5);
    let inline_range = InlineAsyncIterImpl::new(range);
    let mut it = inline_range.as_dyn();
    // Two requests without polling in between: installing the second
    // computation destroys the first, whose item is silently cancelled.
    it.next();
    it.next();
    let got = loop {
        if let Some(v) = it.poll_next() {
            break v;
        }
    };
    assert_eq!(got, Some(1));
}

#[test]
fn inline_cancel_next_empties_slot() {
    let range = YieldingRange::new(0, 5);
    let inline_range = InlineAsyncIterImpl::new(range);
    let mut it = inline_range.as_dyn();
    it.next();
    it.cancel_next();
    // An empty slot reports nothing to poll.
    assert_eq!(it.poll_next(), None);
    // The cancelled request still consumed its item from the producer.
    assert_eq!(next_to_completion(&mut it), Some(1));
}
