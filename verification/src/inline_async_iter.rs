//! The zero-allocation erased sequence: the in-flight computation lives in
//! fixed storage inside the wrapper instead of a separate allocation.
//!
//! The advance slot holds at most one live computation at a time and is
//! overwritten — destroying the previous occupant — on every request.  The
//! size-estimate slot sits behind a runtime-checked exclusive-access cell:
//! the estimate is reachable through shared access, so a re-entrant request
//! while the previous computation is still live cannot be ruled out at the
//! type level and is refused with an explicit access violation instead.

use vstd::prelude::*;

use crate::async_iter::AsyncIter;
use crate::dyner::{AccessCell, AccessViolation, InlineFuture};
use crate::step::Step;

verus! {

/// Wraps a producer together with the fixed storage for its in-flight
/// computations.
pub struct InlineAsyncIterImpl<I: AsyncIter> {
    underlying_impl: I,
    next_future: InlineFuture<Option<I::Item>>,
    size_hint_future: AccessCell<Option<usize>>,
}

impl<I: AsyncIter> InlineAsyncIterImpl<I> {
    /// The wrapped producer.
    pub closed spec fn underlying(self) -> I {
        self.underlying_impl
    }

    /// The occupant of the advance slot, if any.
    pub closed spec fn next_slot(self) -> Option<Step<Option<I::Item>>> {
        self.next_future.occupant()
    }

    /// The occupant of the guarded size-estimate slot, if any.
    pub closed spec fn hint_slot(self) -> Option<Step<Option<usize>>> {
        self.size_hint_future.occupant()
    }

    /// Whether a size-estimate computation is still outstanding.
    pub open spec fn hint_busy(self) -> bool {
        self.hint_slot() is Some
    }

    pub open spec fn wf(self) -> bool {
        self.underlying().wf()
    }

    /// Wrap a producer; both slots start empty.
    pub fn new(underlying: I) -> (r: InlineAsyncIterImpl<I>)
        requires
            underlying.wf(),
        ensures
            r.wf(),
            r.underlying() == underlying,
            r.next_slot() is None,
            r.hint_slot() is None,
    {
        InlineAsyncIterImpl {
            underlying_impl: underlying,
            next_future: InlineFuture::new(),
            size_hint_future: AccessCell::new(),
        }
    }

    /// Seal the wrapper behind the erased handle type.
    pub fn as_dyn(self) -> (r: InlineDynAsyncIter<I>)
        ensures
            r.obj() == self,
    {
        InlineDynAsyncIter { obj: self }
    }

    /// Request production of the next item: the producer's computation is
    /// installed in the advance slot, explicitly destroying whatever occupied
    /// it before.  Poll the slot through [`Self::poll_next`].
    pub fn next(&mut self)
        requires
            old(self).wf(),
        ensures
            final(self).wf(),
            final(self).hint_slot() == old(self).hint_slot(),
            final(self).next_slot() matches Some(f) ==> ({
                &&& old(self).underlying().remaining().len() == 0 ==> f.result()
                    == None::<I::Item> && final(self).underlying().remaining() == old(
                    self,
                ).underlying().remaining()
                &&& old(self).underlying().remaining().len() > 0 ==> f.result() == Some(
                    old(self).underlying().remaining()[0],
                ) && final(self).underlying().remaining() == old(
                    self,
                ).underlying().remaining().skip(1)
            }),
            final(self).next_slot() is Some,
    {
        let fut = self.underlying_impl.next();
        self.next_future.install(fut);
    }

    /// Drive the advance slot by one scheduling step.  `None` while the
    /// computation suspends (or none is installed); once it resolves, its
    /// value comes out and the slot is left empty.
    pub fn poll_next(&mut self) -> (r: Option<Option<I::Item>>)
        ensures
            final(self).underlying() == old(self).underlying(),
            final(self).hint_slot() == old(self).hint_slot(),
            old(self).next_slot() is None ==> r is None && final(self).next_slot() is None,
            old(self).next_slot() matches Some(f) ==> ({
                &&& f.yields() > 0 ==> r is None && (final(self).next_slot() matches Some(g)
                    && g.result() == f.result()
                    && g.yields() == f.yields() - 1)
                &&& f.yields() == 0 ==> r == Some(f.result()) && final(self).next_slot() is None
            }),
    {
        self.next_future.poll()
    }

    /// Request a size estimate.  The producer's computation is installed in
    /// the guarded slot — unless the previous estimate's computation is still
    /// outstanding, which is a re-entrant access and is refused, leaving
    /// everything exactly as it was.
    pub fn size_hint(&mut self) -> (r: Result<(), AccessViolation>)
        requires
            old(self).wf(),
        ensures
            final(self).wf(),
            final(self).underlying() == old(self).underlying(),
            final(self).next_slot() == old(self).next_slot(),
            r is Err <==> old(self).hint_busy(),
            r is Err ==> final(self).hint_slot() == old(self).hint_slot(),
            r is Ok ==> (final(self).hint_slot() matches Some(f) && f.result() == old(
                self,
            ).underlying().hint()),
    {
        let fut = self.underlying_impl.size_hint();
        self.size_hint_future.try_install(fut)
    }

    /// Drive the size-estimate slot by one scheduling step; the estimate
    /// resolving releases the exclusive-access cell.
    pub fn poll_size_hint(&mut self) -> (r: Option<Option<usize>>)
        ensures
            final(self).underlying() == old(self).underlying(),
            final(self).next_slot() == old(self).next_slot(),
            old(self).hint_slot() is None ==> r is None && final(self).hint_slot() is None,
            old(self).hint_slot() matches Some(f) ==> ({
                &&& f.yields() > 0 ==> r is None && (final(self).hint_slot() matches Some(g)
                    && g.result() == f.result()
                    && g.yields() == f.yields() - 1)
                &&& f.yields() == 0 ==> r == Some(f.result()) && final(self).hint_slot() is None
            }),
    {
        self.size_hint_future.poll()
    }

    /// Cancel the outstanding advance computation, if any: the occupant is
    /// destroyed without being driven to completion.
    pub fn cancel_next(&mut self)
        ensures
            final(self).underlying() == old(self).underlying(),
            final(self).hint_slot() == old(self).hint_slot(),
            final(self).next_slot() is None,
    {
        self.next_future.discard();
    }

    /// Cancel the outstanding size-estimate computation, if any, releasing
    /// the exclusive-access cell.
    pub fn cancel_size_hint(&mut self)
        ensures
            final(self).underlying() == old(self).underlying(),
            final(self).next_slot() == old(self).next_slot(),
            final(self).hint_slot() is None,
    {
        self.size_hint_future.cancel();
    }
}

/// The erased handle over an inline wrapper: callers drive the sequence
/// through it without knowing the concrete producer.
pub struct InlineDynAsyncIter<I: AsyncIter> {
    obj: InlineAsyncIterImpl<I>,
}

impl<I: AsyncIter> InlineDynAsyncIter<I> {
    /// The wrapped inline object.
    pub closed spec fn obj(self) -> InlineAsyncIterImpl<I> {
        self.obj
    }

    pub open spec fn wf(self) -> bool {
        self.obj().wf()
    }

    /// Request production of the next item; see
    /// [`InlineAsyncIterImpl::next`].
    pub fn next(&mut self)
        requires
            old(self).wf(),
        ensures
            final(self).wf(),
            final(self).obj().hint_slot() == old(self).obj().hint_slot(),
            final(self).obj().next_slot() matches Some(f) ==> ({
                &&& old(self).obj().underlying().remaining().len() == 0 ==> f.result()
                    == None::<I::Item> && final(self).obj().underlying().remaining() == old(
                    self,
                ).obj().underlying().remaining()
                &&& old(self).obj().underlying().remaining().len() > 0 ==> f.result() == Some(
                    old(self).obj().underlying().remaining()[0],
                ) && final(self).obj().underlying().remaining() == old(
                    self,
                ).obj().underlying().remaining().skip(1)
            }),
            final(self).obj().next_slot() is Some,
    {
        self.obj.next()
    }

    /// Drive the advance slot by one scheduling step; see
    /// [`InlineAsyncIterImpl::poll_next`].
    pub fn poll_next(&mut self) -> (r: Option<Option<I::Item>>)
        ensures
            final(self).obj().underlying() == old(self).obj().underlying(),
            final(self).obj().hint_slot() == old(self).obj().hint_slot(),
            old(self).obj().next_slot() is None ==> r is None && final(self).obj().next_slot()
                is None,
            old(self).obj().next_slot() matches Some(f) ==> ({
                &&& f.yields() > 0 ==> r is None && (final(self).obj().next_slot() matches Some(g)
                    && g.result() == f.result()
                    && g.yields() == f.yields() - 1)
                &&& f.yields() == 0 ==> r == Some(f.result()) && final(self).obj().next_slot()
                    is None
            }),
    {
        self.obj.poll_next()
    }

    /// Request a size estimate, or signal a re-entrant access; see
    /// [`InlineAsyncIterImpl::size_hint`].
    pub fn size_hint(&mut self) -> (r: Result<(), AccessViolation>)
        requires
            old(self).wf(),
        ensures
            final(self).wf(),
            final(self).obj().underlying() == old(self).obj().underlying(),
            final(self).obj().next_slot() == old(self).obj().next_slot(),
            r is Err <==> old(self).obj().hint_busy(),
            r is Err ==> final(self).obj().hint_slot() == old(self).obj().hint_slot(),
            r is Ok ==> (final(self).obj().hint_slot() matches Some(f) && f.result() == old(
                self,
            ).obj().underlying().hint()),
    {
        self.obj.size_hint()
    }

    /// Drive the size-estimate slot by one scheduling step; see
    /// [`InlineAsyncIterImpl::poll_size_hint`].
    pub fn poll_size_hint(&mut self) -> (r: Option<Option<usize>>)
        ensures
            final(self).obj().underlying() == old(self).obj().underlying(),
            final(self).obj().next_slot() == old(self).obj().next_slot(),
            old(self).obj().hint_slot() is None ==> r is None && final(self).obj().hint_slot()
                is None,
            old(self).obj().hint_slot() matches Some(f) ==> ({
                &&& f.yields() > 0 ==> r is None && (final(self).obj().hint_slot() matches Some(g)
                    && g.result() == f.result()
                    && g.yields() == f.yields() - 1)
                &&& f.yields() == 0 ==> r == Some(f.result()) && final(self).obj().hint_slot()
                    is None
            }),
    {
        self.obj.poll_size_hint()
    }

    /// Cancel the outstanding advance computation, if any; see
    /// [`InlineAsyncIterImpl::cancel_next`].
    pub fn cancel_next(&mut self)
        ensures
            final(self).obj().underlying() == old(self).obj().underlying(),
            final(self).obj().hint_slot() == old(self).obj().hint_slot(),
            final(self).obj().next_slot() is None,
    {
        self.obj.cancel_next();
    }

    /// Cancel the outstanding size-estimate computation, if any; see
    /// [`InlineAsyncIterImpl::cancel_size_hint`].
    pub fn cancel_size_hint(&mut self)
        ensures
            final(self).obj().underlying() == old(self).obj().underlying(),
            final(self).obj().next_slot() == old(self).obj().next_slot(),
            final(self).obj().hint_slot() is None,
    {
        self.obj.cancel_size_hint();
    }
}

/// Poll the size-estimate slot until its occupant resolves.
fn poll_hint_to_completion<I: AsyncIter>(it: &mut InlineAsyncIterImpl<I>) -> (r: Option<usize>)
    requires
        old(it).hint_slot() is Some,
    ensures
        final(it).underlying() == old(it).underlying(),
        final(it).next_slot() == old(it).next_slot(),
        final(it).hint_slot() is None,
        old(it).hint_slot() matches Some(f) ==> r == f.result(),
{
    loop
        invariant
            it.underlying() == old(it).underlying(),
            it.next_slot() == old(it).next_slot(),
            it.hint_slot() matches Some(f) && f.result() == (match old(it).hint_slot() {
                Some(g) => g.result(),
                None => None,
            }),
        decreases (match it.hint_slot() {
            Some(f) => f.yields() as int,
            None => 0,
        }),
    {
        match it.poll_size_hint() {
            Some(v) => {
                return v;
            },
            None => {},
        }
    }
}

/// Idempotent observation: two size estimates with no advance between them,
/// each driven to completion before the next is requested, resolve to equal
/// values — the estimate observes the producer and changes nothing.
/// (Requesting the second one while the first is still outstanding is instead
/// refused as an access violation: see [`InlineAsyncIterImpl::size_hint`].)
pub fn observe_hint_twice<I: AsyncIter>(it: &mut InlineAsyncIterImpl<I>) -> (r: (
    Option<usize>,
    Option<usize>,
))
    requires
        old(it).wf(),
        !old(it).hint_busy(),
    ensures
        r.0 == r.1,
        r.0 == old(it).underlying().hint(),
{
    let _ = it.size_hint();
    let s1 = poll_hint_to_completion(it);
    let _ = it.size_hint();
    let s2 = poll_hint_to_completion(it);
    (s1, s2)
}

} // verus!
