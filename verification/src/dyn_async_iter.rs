//! A second formulation of the heap-erased handle, parameterized by a
//! strategy: the strategy picks the concrete types behind the erased handle,
//! and the handle itself only carries the tagged address word and forwards
//! the capability operations.

use vstd::prelude::*;

use crate::async_iter::{AsyncIter, FatPtr};
use crate::step::Step;

verus! {

/// Chooses the concrete types an erased handle is built over.
pub trait DynAsyncIterStrategy {
    type Producer: AsyncIter;
}

/// An erased handle over whatever producer the strategy names, with the
/// ownership tag folded into the low bit of its address word exactly as in
/// [`crate::async_iter::DynAsyncIter`].
pub struct DynAsyncIter<S: DynAsyncIterStrategy> {
    dyn_trait: S::Producer,
    fatptr: FatPtr,
}

impl<S: DynAsyncIterStrategy> DynAsyncIter<S> {
    /// The producer behind the handle.
    pub closed spec fn producer(self) -> S::Producer {
        self.dyn_trait
    }

    /// Whether this handle owns its producer.
    pub closed spec fn owns(self) -> bool {
        self.fatptr.spec_is_tagged()
    }

    /// Owning construction: the handle must reclaim the producer on disposal.
    pub fn new(value: S::Producer) -> (d: DynAsyncIter<S>)
        ensures
            d.producer() == value,
            d.owns(),
    {
        DynAsyncIter { dyn_trait: value, fatptr: FatPtr::new(0, 0).tagged() }
    }

    /// Observing construction: disposal hands the producer back.
    pub fn from_value(value: S::Producer) -> (d: DynAsyncIter<S>)
        ensures
            d.producer() == value,
            !d.owns(),
    {
        DynAsyncIter { dyn_trait: value, fatptr: FatPtr::new(0, 0) }
    }

    /// Destruction: an owning handle reclaims the producer exactly once; an
    /// observing handle never touches it.
    pub fn dispose(self) -> (r: Option<S::Producer>)
        ensures
            self.owns() ==> r is None,
            !self.owns() ==> r == Some(self.producer()),
    {
        if self.fatptr.is_tagged() {
            None
        } else {
            Some(self.dyn_trait)
        }
    }
}

impl<S: DynAsyncIterStrategy> AsyncIter for DynAsyncIter<S> {
    type Item = <S::Producer as AsyncIter>::Item;

    open spec fn wf(&self) -> bool {
        self.producer().wf()
    }

    open spec fn remaining(&self) -> Seq<Self::Item> {
        self.producer().remaining()
    }

    open spec fn hint(&self) -> Option<usize> {
        self.producer().hint()
    }

    fn next(&mut self) -> (fut: Step<Option<Self::Item>>)
        ensures
            final(self).owns() == old(self).owns(),
    {
        self.dyn_trait.next()
    }

    fn size_hint(&self) -> (fut: Step<Option<usize>>) {
        self.dyn_trait.size_hint()
    }
}

} // verus!
