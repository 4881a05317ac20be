//! A demonstration producer: counts upward through `[start, stop)` and
//! cooperatively suspends once per step before resolving.

use vstd::prelude::*;

use crate::async_iter::{drain, AsyncIter, DynAsyncIter};
use crate::step::{drive, Step};

verus! {

/// Produces the integers of `[start, stop)` in order, suspending once per
/// request before the result resolves.
pub struct YieldingRange {
    start: u32,
    stop: u32,
}

impl YieldingRange {
    /// A producer over the bounds `[start, stop)`.
    pub fn new(start: u32, stop: u32) -> (r: YieldingRange)
        requires
            start <= stop,
        ensures
            r.wf(),
            r.remaining() == Seq::new((stop - start) as nat, |i: int| (start + i) as u32),
            r.hint() == Some((stop - start) as usize),
    {
        YieldingRange { start, stop }
    }
}

impl AsyncIter for YieldingRange {
    type Item = u32;

    closed spec fn wf(&self) -> bool {
        self.start <= self.stop
    }

    closed spec fn remaining(&self) -> Seq<u32> {
        Seq::new((self.stop - self.start) as nat, |i: int| (self.start + i) as u32)
    }

    closed spec fn hint(&self) -> Option<usize> {
        Some((self.stop - self.start) as usize)
    }

    fn next(&mut self) -> (fut: Step<Option<u32>>)
        ensures
            fut.yields() == 1,
    {
        if self.start == self.stop {
            Step::new(1, None)
        } else {
            let p = self.start;
            self.start = self.start + 1;
            proof {
                assert(final(self).remaining() =~= old(self).remaining().skip(1));
            }
            Step::new(1, Some(p))
        }
    }

    fn size_hint(&self) -> (fut: Step<Option<usize>>)
        ensures
            fut.yields() == 1,
    {
        let hint: usize = (self.stop - self.start) as usize;
        Step::new(1, Some(hint))
    }
}

/// This producer's size estimate is exact: in every well-formed state it
/// reports precisely the number of remaining items, so the estimate tracks
/// the producer's progress step for step.
pub proof fn lemma_hint_is_exact(r: YieldingRange)
    requires
        r.wf(),
    ensures
        r.hint() == Some(r.remaining().len() as usize),
{
}

/// A driver advancing through an owning heap-erased handle over a producer
/// with bounds `[start, stop)` observes exactly `start, start+1, …, stop-1`,
/// then `None` on every further request.
pub fn drain_owned_range(start: u32, stop: u32) -> (items: Vec<u32>)
    requires
        start <= stop,
    ensures
        items@ == Seq::new((stop - start) as nat, |i: int| (start + i) as u32),
{
    let range = YieldingRange::new(start, stop);
    let mut handle = DynAsyncIter::new(range);
    let items = drain(&mut handle);
    // Exhausted stays exhausted: every later request resolves to `None`.
    let after_end = drive(handle.next());
    assert(after_end is None);
    let again = drive(handle.next());
    assert(again is None);
    items
}

/// The same observation holds through an exclusive-borrow handle, and
/// disposal hands the producer back to its owner, exhausted.
pub fn drain_borrowed_range(start: u32, stop: u32) -> (items: Vec<u32>)
    requires
        start <= stop,
    ensures
        items@ == Seq::new((stop - start) as nat, |i: int| (start + i) as u32),
{
    let ghost goal = Seq::new((stop - start) as nat, |i: int| (start + i) as u32);
    let range = YieldingRange::new(start, stop);
    let mut handle = DynAsyncIter::from_ref_mut(range);
    let mut items: Vec<u32> = Vec::new();
    loop
        invariant
            handle.inner().wf(),
            !handle.inner().owns(),
            items@ + handle.inner().remaining() == goal,
        ensures
            !handle.inner().owns(),
            handle.inner().remaining().len() == 0,
            items@ == goal,
        decreases handle.inner().remaining().len(),
    {
        let fut = handle.get_mut().next();
        match drive(fut) {
            Some(x) => {
                items.push(x);
                proof {
                    assert(items@ + handle.inner().remaining() =~= goal);
                }
            },
            None => {
                proof {
                    assert(items@ + handle.inner().remaining() =~= items@);
                }
                break ;
            },
        }
    }
    // The handle never owned the producer: it comes back, exhausted.
    let range_back = handle.dispose();
    assert(range_back matches Some(r) && r.remaining().len() == 0);
    items
}

} // verus!
