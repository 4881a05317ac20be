//! Generic pointer-kind erasure.
//!
//! A value can be reached through pointers of several kinds — an owned
//! allocation, a shared refcounted handle, a plain borrow, an exclusive
//! borrow — and an erased object over it must still release the original
//! resource correctly on destruction, exactly once, and only through the path
//! its kind demands.  The allocations and reference counts live in an
//! explicit [`Store`]; a pointer decomposes into its raw address while
//! [`Remember`] records which kind it was, so that the right reclaim path can
//! be rebuilt from the address alone when the erased object is destroyed.
//!
//! Destruction is observable: every released value reports the destruction
//! tokens it held, so a caller can count, with its own counters, that each
//! resource is reclaimed exactly once.

use vstd::prelude::*;

use crate::dyner::{Ref, RefMut};

verus! {

/// Which kind of pointer reached the erased value; decides the reclaim path
/// on destruction.
#[derive(Clone, Copy, PartialEq, Eq, Structural, Debug)]
pub enum PtrKind {
    /// An owned allocation: destruction frees it.
    Owned,
    /// A shared refcounted handle: destruction decrements the count and frees
    /// the entry only when the count reaches zero.
    Shared,
    /// A plain borrow: destruction never touches the value.
    Borrowed,
    /// An exclusive borrow: destruction never touches the value.
    Exclusive,
}

/// The small capability the erased target implements: it has a length and can
/// be mutated in place.  Destruction accounting runs through it too: a value
/// knows which destruction tokens it holds and which ones `modify` displaces.
pub trait Len: Sized {
    /// The length the capability reports.
    spec fn slen(&self) -> nat;

    /// The destruction tokens the value holds: ids of caller-supplied
    /// destruction counters that fire when the value is destroyed.
    spec fn spec_tokens(&self) -> Seq<usize>;

    /// How `modify` transforms the value.
    spec fn modify_rel(pre: Self, post: Self) -> bool;

    /// The tokens whose units `modify` destroys.
    spec fn displaced(&self) -> Seq<usize>;

    fn len(&self) -> (n: usize)
        ensures
            n as nat == self.slen(),
    ;

    /// Mutate the value in place, reporting the tokens of whatever units the
    /// mutation destroyed.
    fn modify(&mut self) -> (d: Vec<usize>)
        ensures
            Self::modify_rel(*old(self), *final(self)),
            d@ == old(self).displaced(),
            final(self).slen() == old(self).slen(),
    ;

    /// List the destruction tokens the value currently holds.
    fn tokens(&self) -> (t: Vec<usize>)
        ensures
            t@ == self.spec_tokens(),
    ;
}

/// One allocation in the store: its value, its strong count (meaningful for
/// the shared kind) and whether it is still live.
pub struct Entry<T> {
    pub value: T,
    pub strong: usize,
    pub live: bool,
}

/// The entry as it stands after being freed.
pub open spec fn entry_dead<T>(e: Entry<T>) -> Entry<T> {
    Entry { value: e.value, strong: 0, live: false }
}

/// The entry with one strong reference fewer.
pub open spec fn entry_dec<T>(e: Entry<T>) -> Entry<T> {
    Entry { value: e.value, strong: (e.strong - 1) as usize, live: e.live }
}

/// The entry with one strong reference more.
pub open spec fn entry_inc<T>(e: Entry<T>) -> Entry<T> {
    Entry { value: e.value, strong: (e.strong + 1) as usize, live: e.live }
}

/// The modeled heap: every value that pointers of any kind reach lives here,
/// addressed by index.  Freed entries stay dead; addresses are never reused.
pub struct Store<T> {
    entries: Vec<Entry<T>>,
}

impl<T> View for Store<T> {
    type V = Seq<Entry<T>>;

    closed spec fn view(&self) -> Seq<Entry<T>> {
        self.entries@
    }
}

impl<T> Store<T> {
    /// An empty store.
    pub fn new() -> (s: Store<T>)
        ensures
            s@ == Seq::<Entry<T>>::empty(),
    {
        Store { entries: Vec::new() }
    }

    /// Place a caller-owned local value in the store; the caller stays its
    /// owner and may later borrow it or read it back.
    pub fn local_new(&mut self, value: T) -> (addr: usize)
        ensures
            final(self)@ == old(self)@.push((Entry { value, strong: 0, live: true })),
            addr as int == old(self)@.len(),
    {
        let addr = self.entries.len();
        self.entries.push(Entry { value, strong: 0, live: true });
        addr
    }

    /// An owned allocation: the returned pointer owns the entry and must free
    /// it on destruction.
    pub fn box_new(&mut self, value: T) -> (p: Ptr)
        ensures
            final(self)@ == old(self)@.push((Entry { value, strong: 0, live: true })),
            p.spec_addr() as int == old(self)@.len(),
            p.spec_kind() == PtrKind::Owned,
    {
        let addr = self.entries.len();
        self.entries.push(Entry { value, strong: 0, live: true });
        Ptr { addr, kind: PtrKind::Owned }
    }

    /// A refcounted allocation with one strong reference.
    pub fn rc_new(&mut self, value: T) -> (p: Ptr)
        ensures
            final(self)@ == old(self)@.push((Entry { value, strong: 1, live: true })),
            p.spec_addr() as int == old(self)@.len(),
            p.spec_kind() == PtrKind::Shared,
    {
        let addr = self.entries.len();
        self.entries.push(Entry { value, strong: 1, live: true });
        Ptr { addr, kind: PtrKind::Shared }
    }

    /// Clone a shared pointer: bumps the entry's strong count.
    pub fn rc_clone(&mut self, p: &Ptr) -> (q: Ptr)
        requires
            p.spec_kind() == PtrKind::Shared,
            (p.spec_addr() as int) < old(self)@.len(),
            old(self)@[p.spec_addr() as int].live,
            old(self)@[p.spec_addr() as int].strong < usize::MAX,
        ensures
            final(self)@ == old(self)@.update(
                p.spec_addr() as int,
                entry_inc(old(self)@[p.spec_addr() as int]),
            ),
            q.spec_addr() == p.spec_addr(),
            q.spec_kind() == PtrKind::Shared,
    {
        let addr = p.addr;
        let e = self.entry_mut(addr);
        e.strong = e.strong + 1;
        Ptr { addr, kind: PtrKind::Shared }
    }

    /// Borrow a live entry (a plain reference).
    pub fn borrow(&self, addr: usize) -> (p: Ptr)
        requires
            (addr as int) < self@.len(),
            self@[addr as int].live,
        ensures
            p.spec_addr() == addr,
            p.spec_kind() == PtrKind::Borrowed,
    {
        Ptr { addr, kind: PtrKind::Borrowed }
    }

    /// Borrow a live entry exclusively (a mutable reference).
    pub fn borrow_mut(&self, addr: usize) -> (p: Ptr)
        requires
            (addr as int) < self@.len(),
            self@[addr as int].live,
        ensures
            p.spec_addr() == addr,
            p.spec_kind() == PtrKind::Exclusive,
    {
        Ptr { addr, kind: PtrKind::Exclusive }
    }

    /// Read a live entry's value (the external owner inspecting it).
    pub fn read(&self, addr: usize) -> (v: &T)
        requires
            (addr as int) < self@.len(),
            self@[addr as int].live,
        ensures
            *v == self@[addr as int].value,
    {
        &self.entries[addr].value
    }

    /// Exclusive access to one entry, for the erased operations.
    fn entry_mut(&mut self, addr: usize) -> (e: &mut Entry<T>)
        requires
            (addr as int) < old(self)@.len(),
        ensures
            *e == old(self)@[addr as int],
            final(self)@ == old(self)@.update(addr as int, *final(e)),
    {
        &mut self.entries[addr]
    }
}

/// A pointer-like value: a raw address in the store together with the kind of
/// access it grants.  Only the store's allocation and borrow operations
/// create these.
pub struct Ptr {
    addr: usize,
    kind: PtrKind,
}

impl Ptr {
    /// The raw address this pointer decomposes into.
    pub closed spec fn spec_addr(self) -> usize {
        self.addr
    }

    /// The ownership kind this pointer grants.
    pub closed spec fn spec_kind(self) -> PtrKind {
        self.kind
    }
}

/// Remembers, for a decomposed pointer, which kind it was, so that the
/// correct reclaim path can be reconstituted from the raw address alone when
/// the erased object is destroyed.
pub struct Remember {
    addr: usize,
    kind: PtrKind,
}

impl Remember {
    /// The remembered raw address.
    pub closed spec fn spec_addr(self) -> usize {
        self.addr
    }

    /// The remembered pointer kind.
    pub closed spec fn spec_kind(self) -> PtrKind {
        self.kind
    }

    /// Decompose a pointer into its raw address, remembering its kind.
    pub fn new(p: Ptr) -> (r: Remember)
        ensures
            r.spec_addr() == p.spec_addr(),
            r.spec_kind() == p.spec_kind(),
    {
        Remember { addr: p.addr, kind: p.kind }
    }
}

/// The erased object: one fixed type over a value reached through a pointer
/// of any kind.  It dispatches the capability operations to the target and,
/// on destruction, reconstitutes the remembered pointer kind and runs its
/// release semantics — exactly once, because destruction consumes the object.
pub struct DynLen {
    ptr: Remember,
}

impl DynLen {
    /// The address of the erased target.
    pub closed spec fn spec_addr(self) -> usize {
        self.ptr.spec_addr()
    }

    /// The remembered pointer kind.
    pub closed spec fn spec_kind(self) -> PtrKind {
        self.ptr.spec_kind()
    }

    /// The handle refers to a live entry of the store (and a shared handle to
    /// one whose count covers it).
    pub open spec fn valid<T>(self, s: Store<T>) -> bool {
        &&& (self.spec_addr() as int) < s@.len()
        &&& s@[self.spec_addr() as int].live
        &&& self.spec_kind() == PtrKind::Shared ==> s@[self.spec_addr() as int].strong >= 1
    }

    /// Erase a pointer of any kind behind a shared handle: only the read
    /// operations are reachable through the guard.
    pub fn from_ref(p: Ptr) -> (r: Ref<DynLen>)
        ensures
            r.inner().spec_addr() == p.spec_addr(),
            r.inner().spec_kind() == p.spec_kind(),
    {
        Ref::new(DynLen { ptr: Remember::new(p) })
    }

    /// Erase a pointer that grants exclusive access (an owned allocation or
    /// an exclusive borrow) behind a guard that also exposes mutation.
    pub fn from_mut(p: Ptr) -> (r: RefMut<DynLen>)
        requires
            p.spec_kind() == PtrKind::Owned || p.spec_kind() == PtrKind::Exclusive,
        ensures
            r.inner().spec_addr() == p.spec_addr(),
            r.inner().spec_kind() == p.spec_kind(),
    {
        RefMut::new(DynLen { ptr: Remember::new(p) })
    }

    /// The erased target's length.
    pub fn len<T: Len>(&self, s: &Store<T>) -> (n: usize)
        requires
            self.valid(*s),
        ensures
            n as nat == s@[self.spec_addr() as int].value.slen(),
    {
        s.entries[self.ptr.addr].value.len()
    }

    /// Mutate the erased target in place, reporting the destruction tokens of
    /// whatever units the mutation destroyed.
    pub fn modify<T: Len>(&mut self, s: &mut Store<T>) -> (d: Vec<usize>)
        requires
            old(self).valid(*old(s)),
        ensures
            *final(self) == *old(self),
            final(s)@.len() == old(s)@.len(),
            forall|j: int|
                0 <= j < old(s)@.len() && j != old(self).spec_addr() as int ==> final(s)@[j] == old(
                    s,
                )@[j],
            T::modify_rel(
                old(s)@[old(self).spec_addr() as int].value,
                final(s)@[old(self).spec_addr() as int].value,
            ),
            final(s)@[old(self).spec_addr() as int].strong == old(s)@[old(
                self,
            ).spec_addr() as int].strong,
            final(s)@[old(self).spec_addr() as int].live,
            d@ == old(s)@[old(self).spec_addr() as int].value.displaced(),
    {
        let e = s.entry_mut(self.ptr.addr);
        e.value.modify()
    }

    /// Destruction: reconstitute the remembered pointer kind and run its
    /// release semantics.  An owned entry is freed; a shared one loses one
    /// strong reference and is freed exactly when the count reaches zero; a
    /// borrowed or exclusively borrowed target is never touched.  Returns the
    /// destruction tokens of whatever this disposal freed.
    pub fn dispose<T: Len>(self, s: &mut Store<T>) -> (freed: Vec<usize>)
        requires
            self.valid(*old(s)),
        ensures
            self.spec_kind() == PtrKind::Borrowed || self.spec_kind() == PtrKind::Exclusive
                ==> final(s)@ == old(s)@ && freed@ == Seq::<usize>::empty(),
            self.spec_kind() == PtrKind::Owned ==> final(s)@ == old(s)@.update(
                self.spec_addr() as int,
                entry_dead(old(s)@[self.spec_addr() as int]),
            ) && freed@ == old(s)@[self.spec_addr() as int].value.spec_tokens(),
            self.spec_kind() == PtrKind::Shared ==> ({
                let e = old(s)@[self.spec_addr() as int];
                &&& e.strong > 1 ==> final(s)@ == old(s)@.update(
                    self.spec_addr() as int,
                    entry_dec(e),
                ) && freed@ == Seq::<usize>::empty()
                &&& e.strong == 1 ==> final(s)@ == old(s)@.update(
                    self.spec_addr() as int,
                    entry_dead(e),
                ) && freed@ == e.value.spec_tokens()
            }),
    {
        let addr = self.ptr.addr;
        match self.ptr.kind {
            PtrKind::Borrowed | PtrKind::Exclusive => Vec::new(),
            PtrKind::Owned => {
                let e = s.entry_mut(addr);
                let freed = e.value.tokens();
                e.strong = 0;
                e.live = false;
                freed
            },
            PtrKind::Shared => {
                let e = s.entry_mut(addr);
                if e.strong > 1 {
                    e.strong = e.strong - 1;
                    Vec::new()
                } else {
                    let freed = e.value.tokens();
                    e.strong = 0;
                    e.live = false;
                    freed
                }
            },
        }
    }
}

impl Ref<DynLen> {
    /// Destroy a shared erased handle: the guard is consumed and the
    /// remembered reclaim path runs exactly once.
    pub fn dispose<T: Len>(self, s: &mut Store<T>) -> (freed: Vec<usize>)
        requires
            self.inner().valid(*old(s)),
        ensures
            self.inner().spec_kind() == PtrKind::Borrowed || self.inner().spec_kind()
                == PtrKind::Exclusive ==> final(s)@ == old(s)@ && freed@
                == Seq::<usize>::empty(),
            self.inner().spec_kind() == PtrKind::Owned ==> final(s)@ == old(s)@.update(
                self.inner().spec_addr() as int,
                entry_dead(old(s)@[self.inner().spec_addr() as int]),
            ) && freed@ == old(s)@[self.inner().spec_addr() as int].value.spec_tokens(),
            self.inner().spec_kind() == PtrKind::Shared ==> ({
                let e = old(s)@[self.inner().spec_addr() as int];
                &&& e.strong > 1 ==> final(s)@ == old(s)@.update(
                    self.inner().spec_addr() as int,
                    entry_dec(e),
                ) && freed@ == Seq::<usize>::empty()
                &&& e.strong == 1 ==> final(s)@ == old(s)@.update(
                    self.inner().spec_addr() as int,
                    entry_dead(e),
                ) && freed@ == e.value.spec_tokens()
            }),
    {
        self.take_inner().dispose(s)
    }
}

impl RefMut<DynLen> {
    /// Destroy an exclusive erased handle: the guard is consumed and the
    /// remembered reclaim path runs exactly once.
    pub fn dispose<T: Len>(self, s: &mut Store<T>) -> (freed: Vec<usize>)
        requires
            self.inner().valid(*old(s)),
        ensures
            self.inner().spec_kind() == PtrKind::Borrowed || self.inner().spec_kind()
                == PtrKind::Exclusive ==> final(s)@ == old(s)@ && freed@
                == Seq::<usize>::empty(),
            self.inner().spec_kind() == PtrKind::Owned ==> final(s)@ == old(s)@.update(
                self.inner().spec_addr() as int,
                entry_dead(old(s)@[self.inner().spec_addr() as int]),
            ) && freed@ == old(s)@[self.inner().spec_addr() as int].value.spec_tokens(),
            self.inner().spec_kind() == PtrKind::Shared ==> ({
                let e = old(s)@[self.inner().spec_addr() as int];
                &&& e.strong > 1 ==> final(s)@ == old(s)@.update(
                    self.inner().spec_addr() as int,
                    entry_dec(e),
                ) && freed@ == Seq::<usize>::empty()
                &&& e.strong == 1 ==> final(s)@ == old(s)@.update(
                    self.inner().spec_addr() as int,
                    entry_dead(e),
                ) && freed@ == e.value.spec_tokens()
            }),
    {
        self.take_inner().dispose(s)
    }
}

/// Plain numeric contents for the erased capability: has a length, and
/// mutation zeroes the first element.  Holds no destruction tokens.
pub struct NumArray {
    items: Vec<u64>,
}

impl View for NumArray {
    type V = Seq<u64>;

    closed spec fn view(&self) -> Seq<u64> {
        self.items@
    }
}

impl NumArray {
    pub fn new(items: Vec<u64>) -> (r: NumArray)
        ensures
            r@ == items@,
    {
        NumArray { items }
    }

    /// Read one element.
    pub fn get(&self, i: usize) -> (x: u64)
        requires
            (i as int) < self@.len(),
        ensures
            x == self@[i as int],
    {
        self.items[i]
    }
}

impl Len for NumArray {
    open spec fn slen(&self) -> nat {
        self@.len()
    }

    open spec fn spec_tokens(&self) -> Seq<usize> {
        Seq::empty()
    }

    open spec fn modify_rel(pre: NumArray, post: NumArray) -> bool {
        post@ == if pre@.len() == 0 {
            pre@
        } else {
            pre@.update(0, 0u64)
        }
    }

    open spec fn displaced(&self) -> Seq<usize> {
        Seq::empty()
    }

    fn len(&self) -> (n: usize) {
        self.items.len()
    }

    fn modify(&mut self) -> (d: Vec<usize>) {
        if self.items.len() > 0 {
            self.items[0] = 0;
        }
        Vec::new()
    }

    fn tokens(&self) -> (t: Vec<usize>) {
        Vec::new()
    }
}

/// The destruction tokens held by a sequence of optional token slots, in
/// order.
pub open spec fn tokens_of(s: Seq<Option<usize>>) -> Seq<usize>
    decreases s.len(),
{
    if s.len() == 0 {
        Seq::empty()
    } else {
        tokens_of(s.drop_last()) + (match s.last() {
            Some(id) => seq![id],
            None => Seq::empty(),
        })
    }
}

/// Token-carrying contents for the erased capability: each `Some(id)` element
/// is one droppable unit wired to the caller's destruction counter `id`.
/// Mutation clears the first element, destroying whatever unit it held.
pub struct TokenArray {
    items: Vec<Option<usize>>,
}

impl View for TokenArray {
    type V = Seq<Option<usize>>;

    closed spec fn view(&self) -> Seq<Option<usize>> {
        self.items@
    }
}

impl TokenArray {
    pub fn new(items: Vec<Option<usize>>) -> (r: TokenArray)
        ensures
            r@ == items@,
    {
        TokenArray { items }
    }
}

impl Len for TokenArray {
    open spec fn slen(&self) -> nat {
        self@.len()
    }

    open spec fn spec_tokens(&self) -> Seq<usize> {
        tokens_of(self@)
    }

    open spec fn modify_rel(pre: TokenArray, post: TokenArray) -> bool {
        post@ == if pre@.len() == 0 {
            pre@
        } else {
            pre@.update(0, None::<usize>)
        }
    }

    open spec fn displaced(&self) -> Seq<usize> {
        if self@.len() > 0 {
            match self@[0] {
                Some(id) => seq![id],
                None => Seq::empty(),
            }
        } else {
            Seq::empty()
        }
    }

    fn len(&self) -> (n: usize) {
        self.items.len()
    }

    fn modify(&mut self) -> (d: Vec<usize>) {
        if self.items.len() > 0 {
            let first = self.items[0];
            self.items[0] = None;
            match first {
                Some(id) => {
                    let mut d: Vec<usize> = Vec::new();
                    d.push(id);
                    d
                },
                None => Vec::new(),
            }
        } else {
            Vec::new()
        }
    }

    fn tokens(&self) -> (t: Vec<usize>) {
        let mut t: Vec<usize> = Vec::new();
        let mut i: usize = 0;
        while i < self.items.len()
            invariant
                i <= self.items@.len(),
                t@ == tokens_of(self@.take(i as int)),
            decreases self.items@.len() - i,
        {
            proof {
                let s = self@;
                assert(s.take(i + 1).drop_last() =~= s.take(i as int));
                assert(s.take(i + 1).last() == s[i as int]);
            }
            match self.items[i] {
                Some(id) => {
                    t.push(id);
                    proof {
                        assert(t@ =~= tokens_of(self@.take(i + 1)));
                    }
                },
                None => {
                    proof {
                        assert(t@ =~= tokens_of(self@.take(i + 1)));
                    }
                },
            }
            i = i + 1;
        }
        proof {
            assert(self@.take(self@.len() as int) =~= self@);
        }
        t
    }
}

/// Erasing an owned allocation and destroying the erased object releases the
/// allocation exactly once: every destruction token the value held fires in
/// this one disposal, and the entry is dead afterwards, so no handle to it
/// can be valid again.
pub fn owned_release_round_trip<T: Len>(s: &mut Store<T>, value: T) -> (freed: Vec<usize>)
    ensures
        freed@ == value.spec_tokens(),
        final(s)@.len() == old(s)@.len() + 1,
        !final(s)@[old(s)@.len() as int].live,
{
    let p = s.box_new(value);
    let e = DynLen::from_mut(p);
    e.dispose(s)
}

/// Two erasures cloned from one shared refcounted source: each disposal
/// independently decrements the strong count, and the value is released
/// exactly when the count reaches zero — at the second disposal, not before.
pub fn shared_release_round_trip<T: Len>(s: &mut Store<T>, value: T) -> (freed: (
    Vec<usize>,
    Vec<usize>,
))
    ensures
        freed.0@ == Seq::<usize>::empty(),
        freed.1@ == value.spec_tokens(),
        final(s)@.len() == old(s)@.len() + 1,
        !final(s)@[old(s)@.len() as int].live,
{
    let p1 = s.rc_new(value);
    let p2 = s.rc_clone(&p1);
    let e1 = DynLen::from_ref(p1);
    let e2 = DynLen::from_ref(p2);
    let f1 = e1.dispose(s);
    let f2 = e2.dispose(s);
    (f1, f2)
}

/// Erasing a borrowed or exclusively borrowed target and destroying the
/// erased object immediately is always safe and never touches the value: the
/// store is exactly as it was.
pub fn borrowed_release_round_trip<T: Len>(s: &mut Store<T>, addr: usize) -> (freed: (
    Vec<usize>,
    Vec<usize>,
))
    requires
        (addr as int) < old(s)@.len(),
        old(s)@[addr as int].live,
    ensures
        final(s)@ == old(s)@,
        freed.0@ == Seq::<usize>::empty(),
        freed.1@ == Seq::<usize>::empty(),
{
    let shared = DynLen::from_ref(s.borrow(addr));
    let f0 = shared.dispose(s);
    let exclusive = DynLen::from_mut(s.borrow_mut(addr));
    let f1 = exclusive.dispose(s);
    (f0, f1)
}

} // verus!
