//! Shared allocations.

use core::marker::PhantomData;

use vstd::prelude::*;

verus! {

/// The memory from which shared allocations are made.
#[derive(Debug)]
pub struct Heap<T> {
    slots: Vec<Option<T>>,
}

/// A pointer to a boxed allocation. Copies of it point to the same allocation.
#[derive(Debug)]
pub struct BoxPtr<T> {
    addr: usize,
    marker: PhantomData<T>,
}

impl<T> View for Heap<T> {
    type V = Map<usize, T>;

    /// What lives at each address.
    closed spec fn view(&self) -> Map<usize, T> {
        Map::new(
            |addr: usize| 0 < addr <= self.slots@.len() && self.slots@[addr - 1] is Some,
            |addr: usize| self.slots@[addr - 1]->0,
        )
    }
}

impl<T> Heap<T> {
    /// How many allocations have been made so far. An address is never reused.
    pub closed spec fn issued(&self) -> nat {
        self.slots@.len()
    }

    /// The allocation is alive.
    pub open spec fn has(&self, ptr: BoxPtr<T>) -> bool {
        self@.dom().contains(ptr.addr())
    }

    /// What lives in the allocation.
    pub open spec fn at(&self, ptr: BoxPtr<T>) -> T {
        self@[ptr.addr()]
    }

    /// `self` differs from `before` at most in what lives in the allocation.
    pub open spec fn same_but(&self, before: &Heap<T>, ptr: BoxPtr<T>) -> bool {
        &&& self.has(ptr)
        &&& self@.remove(ptr.addr()) =~= before@.remove(ptr.addr())
        &&& self.issued() == before.issued()
    }

    /// `self` is `before` with the allocation given back.
    pub open spec fn freed(&self, before: &Heap<T>, ptr: BoxPtr<T>) -> bool {
        &&& self@ =~= before@.remove(ptr.addr())
        &&& self.issued() == before.issued()
    }

    /// Nothing was allocated, freed or changed.
    pub open spec fn same(&self, before: &Heap<T>) -> bool {
        &&& self@ =~= before@
        &&& self.issued() == before.issued()
    }

    /// An empty heap.
    pub fn new() -> (heap: Self)
        ensures
            heap@ == Map::<usize, T>::empty(),
            heap.issued() == 0,
    {
        let heap = Heap { slots: Vec::new() };
        assert(heap@ =~= Map::<usize, T>::empty());
        heap
    }

    /// Tell whether another allocation can be made.
    pub fn has_room(&self) -> (yes: bool)
        ensures
            yes == (self.issued() < usize::MAX),
    {
        self.slots.len() < usize::MAX
    }

    /// Tell whether an allocation is alive.
    pub fn contains(&self, ptr: BoxPtr<T>) -> (yes: bool)
        ensures
            yes == self.has(ptr),
    {
        ptr.addr > 0 && ptr.addr <= self.slots.len() && self.slots[ptr.addr - 1].is_some()
    }

    /// Pointers to all allocations that are alive, the oldest first.
    pub fn pointers(&self) -> (ptrs: Vec<BoxPtr<T>>)
        ensures
            forall|i: int| 0 <= i < ptrs@.len() ==> self.has(#[trigger] ptrs@[i]),
            forall|ptr: BoxPtr<T>| #[trigger] self.has(ptr) ==> ptrs@.contains(ptr),
            forall|i: int, j: int|
                0 <= i < j < ptrs@.len() ==> (#[trigger] ptrs@[i]).addr() < (
                #[trigger] ptrs@[j]).addr(),
    {
        let mut ptrs: Vec<BoxPtr<T>> = Vec::new();
        let mut addr: usize = 0;
        while addr < self.slots.len()
            invariant
                addr <= self.slots@.len(),
                forall|i: int|
                    0 <= i < ptrs@.len() ==> self.has(#[trigger] ptrs@[i]) && ptrs@[i].addr() <= addr,
                forall|ptr: BoxPtr<T>| #[trigger]
                    self.has(ptr) && ptr.addr() <= addr ==> ptrs@.contains(ptr),
                forall|i: int, j: int|
                    0 <= i < j < ptrs@.len() ==> (#[trigger] ptrs@[i]).addr() < (
                    #[trigger] ptrs@[j]).addr(),
            decreases self.slots@.len() - addr,
        {
            let ghost before = ptrs@;
            addr = addr + 1;
            let next = BoxPtr::from_ptr(addr);
            if self.contains(next) {
                ptrs.push(next);
                assert(ptrs@[before.len() as int] == next);
            }
            assert forall|ptr: BoxPtr<T>| #[trigger]
                self.has(ptr) && ptr.addr() <= addr implies ptrs@.contains(ptr) by {
                if ptr.addr() == addr {
                    ptr.lemma_addr_injective(next);
                } else {
                    let i = before.index_of(ptr);
                    assert(ptrs@[i] == ptr);
                }
            }
        }
        ptrs
    }
}

impl<T> Clone for BoxPtr<T> {
    fn clone(&self) -> (copy: Self)
        ensures
            copy == *self,
    {
        *self
    }
}

impl<T> Copy for BoxPtr<T> {

}

impl<T> BoxPtr<T> {
    /// The address pointed to.
    pub closed spec fn addr(self) -> usize {
        self.addr
    }

    /// Allocate a value.
    pub fn allocate(heap: &mut Heap<T>, value: T) -> (ptr: Self)
        requires
            old(heap).issued() < usize::MAX,
        ensures
            !old(heap).has(ptr),
            ptr.addr() != 0,
            final(heap)@ == old(heap)@.insert(ptr.addr(), value),
            final(heap).issued() == old(heap).issued() + 1,
    {
        BoxPtr::new(heap, Box::new(value))
    }

    /// Turn a boxed value into a shared allocation.
    pub fn new(heap: &mut Heap<T>, value: Box<T>) -> (ptr: Self)
        requires
            old(heap).issued() < usize::MAX,
        ensures
            !old(heap).has(ptr),
            ptr.addr() != 0,
            final(heap)@ == old(heap)@.insert(ptr.addr(), *value),
            final(heap).issued() == old(heap).issued() + 1,
    {
        let addr: usize = heap.slots.len() + 1;
        heap.slots.push(Some(*value));
        assert(heap@ =~= old(heap)@.insert(addr, *value));
        BoxPtr { addr, marker: PhantomData }
    }

    /// The address pointed to, which is never zero for an allocation that was made.
    pub fn as_ptr(&self) -> (addr: usize)
        ensures
            addr == self.addr(),
    {
        self.addr
    }

    /// The pointer with the given address.
    pub fn from_ptr(addr: usize) -> (ptr: Self)
        requires
            addr != 0,
        ensures
            ptr.addr() == addr,
    {
        BoxPtr { addr, marker: PhantomData }
    }

    /// Two pointers with the same address are the same pointer.
    pub proof fn lemma_addr_injective(self, other: Self)
        requires
            self.addr() == other.addr(),
        ensures
            self == other,
    {
    }

    /// Look at the allocation.
    pub fn to_ref(self, heap: &Heap<T>) -> (value: &T)
        requires
            heap.has(self),
        ensures
            *value == heap.at(self),
    {
        heap.slots[self.addr - 1].as_ref().unwrap()
    }

    /// Work on the allocation.
    pub fn to_mut(self, heap: &mut Heap<T>) -> (value: &mut T)
        requires
            old(heap).has(self),
        ensures
            *value == old(heap).at(self),
            final(heap)@ == old(heap)@.insert(self.addr(), *final(value)),
            final(heap).same_but(old(heap), self),
            final(heap).at(self) == *final(value),
    {
        heap.slots[self.addr - 1].as_mut().unwrap()
    }

    /// Unwrap the box pointed to. The allocation is gone afterwards.
    pub fn into_box(self, heap: &mut Heap<T>) -> (value: Box<T>)
        requires
            old(heap).has(self),
        ensures
            *value == old(heap).at(self),
            final(heap).freed(old(heap), self),
            !final(heap).has(self),
    {
        let mut slot: Option<T> = None;
        core::mem::swap(&mut slot, &mut heap.slots[self.addr - 1]);
        assert(heap@ =~= old(heap)@.remove(self.addr));
        Box::new(slot.unwrap())
    }

    /// Free the allocation.
    pub fn dealloc(self, heap: &mut Heap<T>)
        requires
            old(heap).has(self),
        ensures
            final(heap).freed(old(heap), self),
            !final(heap).has(self),
    {
        let _ = self.into_box(heap);
    }
}

/// What was allocated is given back as it was, and the heap is as it was before.
pub proof fn law_alloc_free<T>(before: Heap<T>, during: Heap<T>, after: Heap<T>, ptr: BoxPtr<T>, value: T)
    requires
        !before.has(ptr),
        during@ == before@.insert(ptr.addr(), value),
        after.freed(&during, ptr),
    ensures
        during.at(ptr) == value,
        after@ == before@,
{
    assert(after@ =~= before@);
}

/// What is allocated is at an address that nothing has been at before, and comes out
/// as it went in; nothing else is touched by that.
pub proof fn law_allocate<T>(
    heap: &mut Heap<T>,
    later: &mut Heap<T>,
    value: T,
    ptr: BoxPtr<T>,
    other: BoxPtr<T>,
    back: Box<T>,
)
    requires
        call_ensures(BoxPtr::<T>::allocate, (heap, value), ptr),
        *final(heap) == *later,
        call_ensures(BoxPtr::<T>::into_box, (ptr, later), back),
        old(heap).has(other),
    ensures
        !old(heap).has(ptr),
        final(heap).has(ptr),
        final(heap).at(ptr) == value,
        final(heap).at(other) == old(heap).at(other),
        *back == value,
        !final(later).has(ptr),
        final(later)@ == old(heap)@,
{
    assert(final(later)@ =~= old(heap)@);
}

/// What is changed in one place is changed there, and nowhere else.
pub proof fn law_to_mut<T>(ptr: BoxPtr<T>, heap: &mut Heap<T>, value: &mut T, other: BoxPtr<T>)
    requires
        call_ensures(BoxPtr::<T>::to_mut, (ptr, heap), value),
        heap.has(ptr),
        heap.has(other),
        other.addr() != ptr.addr(),
    ensures
        *old(value) == old(heap).at(ptr),
        final(heap).has(ptr),
        final(heap).at(ptr) == *final(value),
        final(heap).has(other),
        final(heap).at(other) == old(heap).at(other),
{
    assert(final(heap)@.remove(ptr.addr())[other.addr()] == old(heap)@[other.addr()]);
}

} // verus!
