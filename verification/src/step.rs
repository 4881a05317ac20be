//! The suspendable step computation that every capability call returns.
//!
//! A `Step` stands for one pending unit of work: it suspends a fixed number
//! of times (handing control back to whatever scheduler drives it) and then
//! resolves to its value.  The erasure layers never suspend on their own;
//! they only forward a producer's computation, so one fixed computation type
//! serves every call.

use vstd::prelude::*;

verus! {

/// One pending unit of work: a computation that suspends `yields()` times
/// and then resolves to `result()`.
pub struct Step<T> {
    pending: u32,
    value: T,
}

/// The outcome of polling a [`Step`]: either the computation suspended and is
/// handed back to be polled again, or it resolved.
pub enum PollStep<T> {
    Pending(Step<T>),
    Ready(T),
}

impl<T> Step<T> {
    /// The value this computation resolves to once driven to completion.
    pub closed spec fn result(self) -> T {
        self.value
    }

    /// How many more times this computation suspends before resolving.
    pub closed spec fn yields(self) -> u32 {
        self.pending
    }

    /// Build a computation that suspends `yields` times, then resolves to
    /// `value`.
    pub fn new(yields: u32, value: T) -> (s: Step<T>)
        ensures
            s.result() == value,
            s.yields() == yields,
    {
        Step { pending: yields, value }
    }

    /// Drive the computation by one scheduling step: it either suspends,
    /// handing itself back with one suspension fewer, or resolves.
    pub fn poll(self) -> (r: PollStep<T>)
        ensures
            self.yields() == 0 ==> r == PollStep::Ready(self.result()),
            self.yields() > 0 ==> (r matches PollStep::Pending(rest)
                && rest.result() == self.result()
                && rest.yields() == self.yields() - 1),
    {
        if self.pending == 0 {
            PollStep::Ready(self.value)
        } else {
            PollStep::Pending(Step { pending: self.pending - 1, value: self.value })
        }
    }
}

/// Poll a computation to completion and hand its value out.  This is the
/// whole obligation of a cooperative driver: between two polls it may run
/// any other work it likes.
pub fn drive<T>(fut: Step<T>) -> (r: T)
    ensures
        r == fut.result(),
{
    let mut cur = fut;
    loop
        invariant
            cur.result() == fut.result(),
        decreases cur.yields(),
    {
        match cur.poll() {
            PollStep::Ready(v) => {
                return v;
            }
            PollStep::Pending(rest) => {
                cur = rest;
            }
        }
    }
}

} // verus!
