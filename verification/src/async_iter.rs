//! The sequence capability and its heap-erased handle.
//!
//! [`AsyncIter`] is the capability contract: a producer of a suspending
//! sequence of values.  [`DynAsyncIter`] wraps any producer behind one handle
//! with an ownership tag folded into the low bit of an address word
//! ([`FatPtr`]): the bit is set exactly when the handle was constructed
//! through the owning path and must reclaim the producer on disposal.
//! Handles built from borrows come back sealed in the ownership guards of
//! [`crate::dyner`], so a shared handle has no path to the exclusive-access
//! operation.

use vstd::prelude::*;

use crate::dyner::{Ref, RefMut};
use crate::step::{drive, Step};

verus! {

/// The capability contract for cooperative, suspension-aware production of a
/// value sequence.  `next` requests production of the next item; `size_hint`
/// estimates how many items remain.  Both return a suspendable computation
/// that an external driver polls to completion.
pub trait AsyncIter: Sized {
    type Item;

    /// Well-formedness of the producer's state; constructors establish it and
    /// every operation preserves it.
    spec fn wf(&self) -> bool;

    /// The items still to be produced, in order.
    spec fn remaining(&self) -> Seq<Self::Item>;

    /// What a size estimate reports of the current state.
    spec fn hint(&self) -> Option<usize>;

    /// Request production of the next item.  Driving the returned computation
    /// to completion yields the head of the remaining sequence, or `None`
    /// once the sequence is exhausted — and an exhausted producer stays
    /// exhausted.
    fn next(&mut self) -> (fut: Step<Option<Self::Item>>)
        requires
            old(self).wf(),
        ensures
            final(self).wf(),
            old(self).remaining().len() == 0 ==> fut.result() == None::<Self::Item>
                && final(self).remaining() == old(self).remaining(),
            old(self).remaining().len() > 0 ==> fut.result() == Some(old(self).remaining()[0])
                && final(self).remaining() == old(self).remaining().skip(1),
    ;

    /// Estimate the remaining item count.  Requires only shared access, and
    /// therefore cannot change the producer's state.
    fn size_hint(&self) -> (fut: Step<Option<usize>>)
        requires
            self.wf(),
        ensures
            fut.result() == self.hint(),
    ;
}

/// The two address words of an erased handle, with the ownership tag folded
/// into the low bit of the data word.  A real address keeps alignment of at
/// least 2, so that bit is otherwise always zero; tagging and untagging never
/// touch what the address refers to.
#[derive(Clone, Copy)]
pub struct FatPtr {
    data: usize,
    vtable: usize,
}

impl FatPtr {
    /// The data word, tag bit included.
    pub closed spec fn data_word(self) -> usize {
        self.data
    }

    /// The companion dispatch word; never tagged.
    pub closed spec fn vtable_word(self) -> usize {
        self.vtable
    }

    /// The real address: the data word with the tag bit cleared.
    pub open spec fn base(self) -> usize {
        self.data_word() & !1usize
    }

    /// Whether the ownership tag is set.
    pub open spec fn spec_is_tagged(self) -> bool {
        self.data_word() & 1usize == 1usize
    }

    /// Wrap a pair of address words.  The data word must have the alignment
    /// guarantee that frees its low bit.
    pub fn new(data: usize, vtable: usize) -> (p: FatPtr)
        requires
            data % 2 == 0,
        ensures
            p.data_word() == data,
            p.vtable_word() == vtable,
            !p.spec_is_tagged(),
            p.base() == data,
    {
        proof {
            assert(data % 2 == 0 ==> (data & 1usize == 0usize && data & !1usize == data))
                by (bit_vector);
        }
        FatPtr { data, vtable }
    }

    /// Set the ownership tag; the real address is unchanged.
    pub fn tagged(self) -> (p: FatPtr)
        ensures
            p.data_word() == self.data_word() | 1usize,
            p.vtable_word() == self.vtable_word(),
            p.spec_is_tagged(),
            p.base() == self.base(),
    {
        proof {
            let d = self.data;
            assert((d | 1usize) & 1usize == 1usize && (d | 1usize) & !1usize == d & !1usize)
                by (bit_vector);
        }
        FatPtr { data: self.data | 1, vtable: self.vtable }
    }

    /// Clear the ownership tag, recovering the real address.
    pub fn untagged(self) -> (p: FatPtr)
        ensures
            p.data_word() == self.base(),
            p.vtable_word() == self.vtable_word(),
            !p.spec_is_tagged(),
            p.base() == self.base(),
    {
        proof {
            let d = self.data;
            assert((d & !1usize) & 1usize == 0usize && (d & !1usize) & !1usize == d & !1usize)
                by (bit_vector);
        }
        FatPtr { data: self.data & !1, vtable: self.vtable }
    }

    /// Read the ownership tag.
    pub fn is_tagged(self) -> (b: bool)
        ensures
            b == self.spec_is_tagged(),
    {
        self.data & 1 == 1
    }
}

/// Heap-erased dynamic sequence: one handle over any producer.  The low bit
/// of its tagged address word records whether this handle owns the producer
/// (set exactly on the owning construction path) and so must reclaim it on
/// disposal; an observing handle leaves the producer to its external owner.
pub struct DynAsyncIter<I: AsyncIter> {
    producer: I,
    fatptr: FatPtr,
}

impl<I: AsyncIter> DynAsyncIter<I> {
    /// The producer behind the handle.
    pub closed spec fn producer(self) -> I {
        self.producer
    }

    /// Whether this handle owns its producer.
    pub closed spec fn owns(self) -> bool {
        self.fatptr.spec_is_tagged()
    }

    /// Owning construction: takes the producer by value and marks the handle
    /// as its owner.
    pub fn new(value: I) -> (d: DynAsyncIter<I>)
        ensures
            d.producer() == value,
            d.owns(),
    {
        DynAsyncIter { producer: value, fatptr: FatPtr::new(0, 0).tagged() }
    }

    /// Shared-borrow construction: the tag stays clear and the handle comes
    /// back sealed in a [`Ref`], so only the shared-access operation is
    /// reachable through it.
    pub fn from_ref(value: I) -> (r: Ref<DynAsyncIter<I>>)
        ensures
            r.inner().producer() == value,
            !r.inner().owns(),
    {
        Ref::new(DynAsyncIter { producer: value, fatptr: FatPtr::new(0, 0) })
    }

    /// Exclusive-borrow construction: the tag stays clear and the handle
    /// comes back sealed in a [`RefMut`], exposing both operations but never
    /// letting the producer be moved out.
    pub fn from_ref_mut(value: I) -> (r: RefMut<DynAsyncIter<I>>)
        ensures
            r.inner().producer() == value,
            !r.inner().owns(),
    {
        RefMut::new(DynAsyncIter { producer: value, fatptr: FatPtr::new(0, 0) })
    }

    /// Destruction.  An owning handle reclaims the producer here, exactly
    /// once; an observing handle never touches it and hands it back to its
    /// external owner.
    pub fn dispose(self) -> (r: Option<I>)
        ensures
            self.owns() ==> r is None,
            !self.owns() ==> r == Some(self.producer()),
    {
        if self.fatptr.is_tagged() {
            None
        } else {
            Some(self.producer)
        }
    }
}

impl<I: AsyncIter> AsyncIter for DynAsyncIter<I> {
    type Item = I::Item;

    open spec fn wf(&self) -> bool {
        self.producer().wf()
    }

    open spec fn remaining(&self) -> Seq<I::Item> {
        self.producer().remaining()
    }

    open spec fn hint(&self) -> Option<usize> {
        self.producer().hint()
    }

    fn next(&mut self) -> (fut: Step<Option<I::Item>>)
        ensures
            final(self).owns() == old(self).owns(),
    {
        self.producer.next()
    }

    fn size_hint(&self) -> (fut: Step<Option<usize>>) {
        self.producer.size_hint()
    }
}

impl<I: AsyncIter> Ref<DynAsyncIter<I>> {
    /// Destroy a shared-borrow handle.  The producer was never owned by it,
    /// so it comes back out for its external owner; `None` only if the sealed
    /// handle had been built through the owning path.
    pub fn dispose(self) -> (r: Option<I>)
        ensures
            self.inner().owns() ==> r is None,
            !self.inner().owns() ==> r == Some(self.inner().producer()),
    {
        self.take_inner().dispose()
    }
}

impl<I: AsyncIter> RefMut<DynAsyncIter<I>> {
    /// Destroy an exclusive-borrow handle, handing the producer back to its
    /// external owner.
    pub fn dispose(self) -> (r: Option<I>)
        ensures
            self.inner().owns() ==> r is None,
            !self.inner().owns() ==> r == Some(self.inner().producer()),
    {
        self.take_inner().dispose()
    }
}

/// The external driver's loop: call `next` and poll the returned computation
/// to completion, until the producer reports exhaustion.  Observes exactly
/// the remaining items, in order, and leaves the producer exhausted.
pub fn drain<I: AsyncIter>(it: &mut I) -> (items: Vec<I::Item>)
    requires
        old(it).wf(),
    ensures
        final(it).wf(),
        items@ == old(it).remaining(),
        final(it).remaining().len() == 0,
{
    let mut items: Vec<I::Item> = Vec::new();
    loop
        invariant
            it.wf(),
            items@ + it.remaining() == old(it).remaining(),
        ensures
            it.wf(),
            items@ == old(it).remaining(),
            it.remaining().len() == 0,
        decreases it.remaining().len(),
    {
        let fut = it.next();
        match drive(fut) {
            Some(x) => {
                items.push(x);
                proof {
                    assert(items@ + it.remaining() =~= old(it).remaining());
                }
            },
            None => {
                proof {
                    assert(items@ + it.remaining() =~= items@);
                }
                break ;
            },
        }
    }
    items
}

} // verus!
