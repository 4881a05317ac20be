//! Ownership guards and inline storage slots.
//!
//! [`Ref`] and [`RefMut`] are capability-restricting newtypes: a `Ref` grants
//! only shared access to what it wraps, a `RefMut` grants shared and exclusive
//! access but never lets the value be moved out.  The erasure layers seal
//! borrowed handles in these guards so that the exclusive-access operation of
//! the sequence capability is unreachable through a shared handle.
//!
//! [`InlineFuture`] and [`AccessCell`] are the two flavors of inline storage
//! for an in-flight computation: a slot that is either empty or holds exactly
//! one computation.  Installing into an `InlineFuture` destroys the previous
//! occupant; installing into an `AccessCell` while an occupant is still live
//! is an access violation, signalled explicitly instead of corrupting state.

use vstd::prelude::*;

use crate::step::{PollStep, Step};

verus! {

/// Grants shared access to the wrapped value, and nothing else.
pub struct Ref<T> {
    t: T,
}

impl<T> Ref<T> {
    /// The wrapped value.
    pub closed spec fn inner(self) -> T {
        self.t
    }

    pub fn new(t: T) -> (r: Ref<T>)
        ensures
            r.inner() == t,
    {
        Ref { t }
    }

    /// Shared access: the only access a `Ref` grants.
    pub fn get(&self) -> (r: &T)
        ensures
            *r == self.inner(),
    {
        &self.t
    }

    /// Crate-internal escape hatch for the disposal paths, which must move
    /// the wrapped value out once the guard itself is destroyed.
    pub(crate) fn take_inner(self) -> (t: T)
        ensures
            t == self.inner(),
    {
        self.t
    }
}

/// Grants shared (`&T`) and exclusive (`&mut T`) access to the wrapped value,
/// but never lets it be moved out.
pub struct RefMut<T> {
    t: T,
}

impl<T> RefMut<T> {
    /// The wrapped value.
    pub closed spec fn inner(self) -> T {
        self.t
    }

    pub fn new(t: T) -> (r: RefMut<T>)
        ensures
            r.inner() == t,
    {
        RefMut { t }
    }

    /// Shared access to the wrapped value.
    pub fn get(&self) -> (r: &T)
        ensures
            *r == self.inner(),
    {
        &self.t
    }

    /// Exclusive access to the wrapped value.
    pub fn get_mut(&mut self) -> (r: &mut T)
        ensures
            *r == old(self).inner(),
            final(self).inner() == *final(r),
    {
        &mut self.t
    }

    /// Crate-internal escape hatch for the disposal paths.
    pub(crate) fn take_inner(self) -> (t: T)
        ensures
            t == self.inner(),
    {
        self.t
    }
}

/// The fatal signal raised when the exclusive-access cell is asked for a
/// second computation while the first is still live.
#[derive(Clone, Copy, PartialEq, Eq, Debug)]
pub struct AccessViolation;

/// Fixed storage for one in-flight computation: empty, or occupied by exactly
/// one [`Step`].  Installing a new computation explicitly destroys the
/// previous occupant; polling the occupant to completion empties the slot.
pub struct InlineFuture<T> {
    slot: Option<Step<T>>,
}

impl<T> InlineFuture<T> {
    /// The computation currently stored in the slot, if any.
    pub closed spec fn occupant(self) -> Option<Step<T>> {
        self.slot
    }

    /// An empty slot.
    pub fn new() -> (s: InlineFuture<T>)
        ensures
            s.occupant() is None,
    {
        InlineFuture { slot: None }
    }

    /// Install a computation, destroying whatever occupied the slot before.
    pub fn install(&mut self, fut: Step<T>)
        ensures
            final(self).occupant() == Some(fut),
    {
        self.slot = Some(fut);
    }

    /// Destroy the occupant without driving it to completion (cancellation).
    pub fn discard(&mut self)
        ensures
            final(self).occupant() is None,
    {
        self.slot = None;
    }

    /// Drive the occupant by one scheduling step.  Returns `None` while the
    /// occupant suspends (or the slot is empty); once the occupant resolves,
    /// hands its value out and leaves the slot empty.
    pub fn poll(&mut self) -> (r: Option<T>)
        ensures
            old(self).occupant() is None ==> r is None && final(self).occupant() is None,
            old(self).occupant() matches Some(f) ==> ({
                &&& f.yields() > 0 ==> r is None && (final(self).occupant() matches Some(g)
                    && g.result() == f.result()
                    && g.yields() == f.yields() - 1)
                &&& f.yields() == 0 ==> r == Some(f.result()) && final(self).occupant() is None
            }),
    {
        match self.slot.take() {
            None => None,
            Some(fut) => match fut.poll() {
                PollStep::Ready(v) => Some(v),
                PollStep::Pending(rest) => {
                    self.slot = Some(rest);
                    None
                },
            },
        }
    }
}

/// A runtime-checked exclusive-access cell around an inline slot.  Unlike
/// [`InlineFuture`], installing while an occupant is still live does not
/// overwrite it: it is refused with an [`AccessViolation`], because the
/// capability this slot backs is reachable through shared access and
/// re-entrant calls cannot be prevented at the type level.
pub struct AccessCell<T> {
    slot: Option<Step<T>>,
}

impl<T> AccessCell<T> {
    /// The computation currently live in the cell, if any.
    pub closed spec fn occupant(self) -> Option<Step<T>> {
        self.slot
    }

    /// Whether an installed computation is still outstanding.
    pub open spec fn is_busy(self) -> bool {
        self.occupant() is Some
    }

    /// An idle cell.
    pub fn new() -> (s: AccessCell<T>)
        ensures
            s.occupant() is None,
    {
        AccessCell { slot: None }
    }

    /// Install a computation, or signal an access violation if the previous
    /// one has not been driven to completion.  On a violation the cell is
    /// left exactly as it was.
    pub fn try_install(&mut self, fut: Step<T>) -> (r: Result<(), AccessViolation>)
        ensures
            r is Err <==> old(self).is_busy(),
            r is Err ==> final(self).occupant() == old(self).occupant(),
            r is Ok ==> final(self).occupant() == Some(fut),
    {
        match self.slot {
            Some(_) => Err(AccessViolation),
            None => {
                self.slot = Some(fut);
                Ok(())
            },
        }
    }

    /// Drive the occupant by one scheduling step; resolving releases the cell.
    pub fn poll(&mut self) -> (r: Option<T>)
        ensures
            old(self).occupant() is None ==> r is None && final(self).occupant() is None,
            old(self).occupant() matches Some(f) ==> ({
                &&& f.yields() > 0 ==> r is None && (final(self).occupant() matches Some(g)
                    && g.result() == f.result()
                    && g.yields() == f.yields() - 1)
                &&& f.yields() == 0 ==> r == Some(f.result()) && final(self).occupant() is None
            }),
    {
        match self.slot.take() {
            None => None,
            Some(fut) => match fut.poll() {
                PollStep::Ready(v) => Some(v),
                PollStep::Pending(rest) => {
                    self.slot = Some(rest);
                    None
                },
            },
        }
    }

    /// Discard the occupant without driving it to completion, releasing the
    /// cell (cancellation is silent and resource-safe).
    pub fn cancel(&mut self)
        ensures
            final(self).occupant() is None,
    {
        self.slot = None;
    }
}

} // verus!
