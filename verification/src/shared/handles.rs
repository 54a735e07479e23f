//! The owner of a shared value and the borrows of it.

use vstd::prelude::*;

use crate::poll::{Poll, Turn};
use crate::shared::memory::{Mem, SharedInner};
use crate::shared::step::MAX_REFCOUNT;
use crate::util::{BoxPtr, Heap};

verus! {

/// The value in the allocation is as it was, its memory has come to be `mem`,
/// and nothing else has changed.
pub open spec fn updated<T, W>(
    after: Heap<SharedInner<T, W>>,
    before: Heap<SharedInner<T, W>>,
    ptr: BoxPtr<SharedInner<T, W>>,
    mem: Mem<W>,
) -> bool {
    &&& after.same_but(&before, ptr)
    &&& after.at(ptr).at_rest()
    &&& after.at(ptr).value() == before.at(ptr).value()
    &&& after.at(ptr)@ == mem
}

/// The owner, which had no borrows out, has the value to itself and does not
/// wait any more. Nothing but the value has changed.
pub open spec fn collected<T, W>(
    before: Lender<T, W>,
    after: Lender<T, W>,
    heap: Heap<SharedInner<T, W>>,
    now: Heap<SharedInner<T, W>>,
) -> bool {
    &&& after.link() == before.link()
    &&& !after.pending()
    &&& after.wf(now)
    &&& now.same_but(&heap, before.link())
    &&& now.at(before.link())@ == heap.at(before.link())@.try_result(before.pending()).1
}

/// The owner has come to wait with the waker.
pub open spec fn waits<T, W>(
    before: Lender<T, W>,
    after: Lender<T, W>,
    heap: Heap<SharedInner<T, W>>,
    now: Heap<SharedInner<T, W>>,
    waker: W,
) -> bool {
    &&& after.link() == before.link()
    &&& after.pending()
    &&& after.wf(now)
    &&& updated(
        now,
        heap,
        before.link(),
        heap.at(before.link())@.poll_result(before.pending(), waker).1,
    )
}

/// The owner, which has borrows out, has stopped waiting for them.
pub open spec fn stopped<T, W>(
    before: Lender<T, W>,
    after: Lender<T, W>,
    heap: Heap<SharedInner<T, W>>,
    now: Heap<SharedInner<T, W>>,
) -> bool {
    &&& after.link() == before.link()
    &&& !after.pending()
    &&& after.wf(now)
    &&& after.borrows(now) == before.borrows(heap)
    &&& updated(
        now,
        heap,
        before.link(),
        if before.pending() {
            heap.at(before.link())@.cancelled()
        } else {
            heap.at(before.link())@
        },
    )
}

/// A shared value which can be borrowed by multiple threads and later
/// collected.
#[derive(Debug)]
pub struct Lender<T, W> {
    inner: BoxPtr<SharedInner<T, W>>,
    pending: bool,
}

/// A borrow of a shared value, which notifies its source when dropped.
#[derive(Debug)]
pub struct Shared<T, W> {
    inner: BoxPtr<SharedInner<T, W>>,
}

/// A temporary reference to a shared value.
#[derive(Debug)]
pub struct SharedRef<T, W> {
    inner: BoxPtr<SharedInner<T, W>>,
}

impl<T, W> Lender<T, W> {
    /// The allocation of the value.
    pub closed spec fn link(self) -> BoxPtr<SharedInner<T, W>> {
        self.inner
    }

    /// The owner waits for the borrows to be returned.
    pub closed spec fn pending(self) -> bool {
        self.pending
    }

    /// The allocation is alive, and the owner finds it as it should be.
    pub open spec fn wf(self, heap: Heap<SharedInner<T, W>>) -> bool {
        &&& heap.has(self.link())
        &&& heap.at(self.link()).at_rest()
        &&& heap.at(self.link())@.lent(self.pending())
    }

    /// How many borrows are out.
    pub open spec fn borrows(self, heap: Heap<SharedInner<T, W>>) -> nat {
        heap.at(self.link())@.borrows(self.pending())
    }

    /// Share a value.
    pub fn new(heap: &mut Heap<SharedInner<T, W>>, value: T) -> (lender: Self)
        requires
            old(heap).issued() < usize::MAX,
        ensures
            lender.wf(*final(heap)),
            !lender.pending(),
            lender.borrows(*final(heap)) == 0,
            final(heap).at(lender.link()).value() == value,
            final(heap).at(lender.link())@.woken == Seq::<W>::empty(),
            !old(heap).has(lender.link()),
            final(heap)@.remove(lender.link().addr()) == old(heap)@,
            final(heap).issued() == old(heap).issued() + 1,
    {
        Lender { inner: SharedInner::boxed(heap, value), pending: false }
    }

    /// Obtain a mutable reference to the contained resource if there
    /// are no outstanding borrows.
    pub fn get_mut<'a>(&mut self, heap: &'a mut Heap<SharedInner<T, W>>) -> (value: Option<
        &'a mut T,
    >)
        requires
            old(self).wf(*old(heap)),
        ensures
            final(self).link() == old(self).link(),
            final(self).wf(*final(heap)),
            final(heap).same_but(old(heap), old(self).link()),
            final(heap).at(old(self).link())@ == old(heap).at(old(self).link())@.try_result(
                old(self).pending(),
            ).1,
            match value {
                Some(value) => {
                    &&& old(self).borrows(*old(heap)) == 0
                    &&& !final(self).pending()
                    &&& *value == old(heap).at(old(self).link()).value()
                    &&& *final(value) == final(heap).at(old(self).link()).value()
                },
                None => {
                    &&& old(self).borrows(*old(heap)) > 0
                    &&& final(self).pending() == old(self).pending()
                    &&& final(heap).at(old(self).link()).value() == old(heap).at(
                        old(self).link(),
                    ).value()
                },
            },
    {
        if self.try_collect(heap) {
            Some(self.get_mut_unchecked(heap))
        } else {
            None
        }
    }

    /// Obtain a mutable reference to the contained resource.
    pub fn get_mut_unchecked<'a>(&mut self, heap: &'a mut Heap<SharedInner<T, W>>) -> (value:
        &'a mut T)
        requires
            old(self).wf(*old(heap)),
            old(self).borrows(*old(heap)) == 0,
        ensures
            *final(self) == *old(self),
            final(self).wf(*final(heap)),
            final(heap).same_but(old(heap), old(self).link()),
            final(heap).at(old(self).link())@ == old(heap).at(old(self).link())@,
            *value == old(heap).at(old(self).link()).value(),
            *final(value) == final(heap).at(old(self).link()).value(),
    {
        self.inner.to_mut(heap).as_mut()
    }

    /// Unwrap the `Lender` when there are no outstanding references.
    pub fn into_inner(self, heap: &mut Heap<SharedInner<T, W>>) -> (value: T)
        requires
            self.wf(*old(heap)),
            self.borrows(*old(heap)) == 0,
        ensures
            value == old(heap).at(self.link()).value(),
            final(heap).freed(old(heap), self.link()),
            !final(heap).has(self.link()),
    {
        let inner = self.inner.into_box(heap);
        (*inner).into_inner()
    }

    /// Create a new shared reference to the contained value.
    pub fn borrow(&self, heap: &mut Heap<SharedInner<T, W>>) -> (shared: Shared<T, W>)
        requires
            self.wf(*old(heap)),
            old(heap).at(self.link())@.count <= MAX_REFCOUNT,
            !old(heap).at(self.link())@.returned(),
        ensures
            shared.link() == self.link(),
            shared.wf(*final(heap)),
            self.wf(*final(heap)),
            self.borrows(*final(heap)) == self.borrows(*old(heap)) + 1,
            updated(
                *final(heap),
                *old(heap),
                self.link(),
                old(heap).at(self.link())@.with_borrow(),
            ),
    {
        proof {
            heap.at(self.link())@.lemma_with_borrow(self.pending());
        }
        Shared::new(heap, self.inner)
    }

    /// Create a temporary reference to the contained value.
    pub fn borrow_ref(&self) -> (shared: SharedRef<T, W>)
        ensures
            shared.link() == self.link(),
    {
        SharedRef { inner: self.inner }
    }

    /// Get the current number of borrows.
    pub fn borrow_count(&self, heap: &Heap<SharedInner<T, W>>) -> (count: usize)
        requires
            self.wf(*heap),
        ensures
            count == self.borrows(*heap),
    {
        let inner = self.inner.to_ref(heap);
        if self.pending && inner.is_returned() {
            0
        } else {
            inner.borrow_count()
        }
    }

    /// Wait for all outstanding borrows to be dropped.
    pub fn collect<'c>(&'c mut self) -> (collect: Collect<'c, T, W>)
        ensures
            collect.lender() matches Some(lender) && *lender == *old(self) && *final(lender)
                == *final(self),
    {
        Collect(Some(self))
    }

    /// Wait for all outstanding borrows to be dropped and unwrap the value.
    pub fn collect_into(self) -> (collect: CollectInto<T, W>)
        ensures
            collect.lender() == Some(self),
    {
        CollectInto(Some(self))
    }

    /// The wakers called so far, oldest first, are handed out and forgotten.
    pub fn take_woken(&self, heap: &mut Heap<SharedInner<T, W>>) -> (woken: Vec<W>)
        requires
            self.wf(*old(heap)),
        ensures
            woken@ == old(heap).at(self.link())@.woken,
            updated(
                *final(heap),
                *old(heap),
                self.link(),
                Mem { woken: Seq::<W>::empty(), ..old(heap).at(self.link())@ },
            ),
    {
        self.inner.to_mut(heap).take_woken()
    }

    /// The lent resource.
    pub fn as_ref<'a>(&self, heap: &'a Heap<SharedInner<T, W>>) -> (value: &'a T)
        requires
            self.wf(*heap),
        ensures
            *value == heap.at(self.link()).value(),
    {
        self.inner.to_ref(heap).as_ref()
    }

    /// Obtain an owned copy of the lent resource.
    pub fn to_owned(&self, heap: &Heap<SharedInner<T, W>>) -> (value: T) where T: Clone
        requires
            self.wf(*heap),
        ensures
            cloned(heap.at(self.link()).value(), value),
    {
        self.as_ref(heap).clone()
    }

    /// Find out whether the borrows have been returned, and wait with the waker if not.
    pub fn poll_collect(&mut self, heap: &mut Heap<SharedInner<T, W>>, waker: W) -> (result: Poll<
        (),
    >)
        requires
            old(self).wf(*old(heap)),
        ensures
            final(self).link() == old(self).link(),
            final(self).pending() == (result is Pending),
            final(self).wf(*final(heap)),
            final(self).borrows(*final(heap)) == old(self).borrows(*old(heap)),
            (result is Ready) == (old(self).borrows(*old(heap)) == 0),
            updated(
                *final(heap),
                *old(heap),
                old(self).link(),
                old(heap).at(old(self).link())@.poll_result(old(self).pending(), waker).1,
            ),
    {
        let result = if self.pending {
            self.inner.to_mut(heap).resume_poll(waker)
        } else {
            self.inner.to_mut(heap).start_poll(waker)
        };
        self.pending = result.is_pending();
        result
    }

    /// Find out whether the borrows have been returned.
    pub fn try_collect(&mut self, heap: &mut Heap<SharedInner<T, W>>) -> (collected: bool)
        requires
            old(self).wf(*old(heap)),
        ensures
            final(self).link() == old(self).link(),
            final(self).pending() == (old(self).pending() && !collected),
            final(self).wf(*final(heap)),
            collected == (old(self).borrows(*old(heap)) == 0),
            updated(
                *final(heap),
                *old(heap),
                old(self).link(),
                old(heap).at(old(self).link())@.try_result(old(self).pending()).1,
            ),
    {
        if self.inner.to_mut(heap).try_collect(self.pending) {
            self.pending = false;
            true
        } else {
            false
        }
    }

    /// Stop waiting for the borrows to be returned.
    pub fn cancel_collect(&mut self, heap: &mut Heap<SharedInner<T, W>>)
        requires
            old(self).wf(*old(heap)),
        ensures
            final(self).link() == old(self).link(),
            !final(self).pending(),
            final(self).wf(*final(heap)),
            final(self).borrows(*final(heap)) == old(self).borrows(*old(heap)),
            updated(
                *final(heap),
                *old(heap),
                old(self).link(),
                if old(self).pending() {
                    old(heap).at(old(self).link())@.cancelled()
                } else {
                    old(heap).at(old(self).link())@
                },
            ),
    {
        if self.pending {
            let _ = self.inner.to_mut(heap).cancel_poll(true);
            self.pending = false;
        }
    }

    /// The owner goes away. The value goes with it if there are no borrows left.
    pub fn drop(self, heap: &mut Heap<SharedInner<T, W>>)
        requires
            self.wf(*old(heap)),
        ensures
            if self.borrows(*old(heap)) == 0 {
                final(heap).freed(old(heap), self.link())
            } else {
                updated(
                    *final(heap),
                    *old(heap),
                    self.link(),
                    old(heap).at(self.link())@.without_owner(self.pending()),
                )
            },
    {
        if self.inner.to_mut(heap).drop_lender(self.pending) {
            self.inner.dealloc(heap);
        }
    }
}

impl<T, W> PartialEq for Lender<T, W> {
    fn eq(&self, other: &Lender<T, W>) -> (same: bool) {
        self.inner.as_ptr() == other.inner.as_ptr()
    }
}

impl<T, W> vstd::std_specs::cmp::PartialEqSpecImpl for Lender<T, W> {
    open spec fn obeys_eq_spec() -> bool {
        true
    }

    /// Owners of the same value are equal.
    open spec fn eq_spec(&self, other: &Lender<T, W>) -> bool {
        self.link().addr() == other.link().addr()
    }
}

impl<T, W> Shared<T, W> {
    /// The allocation of the value.
    pub closed spec fn link(self) -> BoxPtr<SharedInner<T, W>> {
        self.inner
    }

    /// The allocation is alive, and the borrow finds it as it should be.
    pub open spec fn wf(self, heap: Heap<SharedInner<T, W>>) -> bool {
        &&& heap.has(self.link())
        &&& heap.at(self.link()).at_rest()
        &&& heap.at(self.link())@.borrowed()
    }

    fn new(heap: &mut Heap<SharedInner<T, W>>, inner: BoxPtr<SharedInner<T, W>>) -> (shared: Self)
        requires
            old(heap).has(inner),
            old(heap).at(inner).at_rest(),
            old(heap).at(inner)@.count <= MAX_REFCOUNT,
        ensures
            shared.link() == inner,
            updated(*final(heap), *old(heap), inner, old(heap).at(inner)@.with_borrow()),
    {
        inner.to_mut(heap).inc_count_ref();
        Shared { inner }
    }

    /// Get the current number of borrows, including this one.
    pub fn borrow_count(&self, heap: &Heap<SharedInner<T, W>>) -> (count: usize)
        requires
            self.wf(*heap),
        ensures
            count == heap.at(self.link())@.borrow_count(),
            forall|n: nat| #[trigger] heap.at(self.link())@.owned(n) ==> count == n,
            forall|n: nat| #[trigger] heap.at(self.link())@.orphaned(n) ==> count == n,
            forall|n: nat| #[trigger] heap.at(self.link())@.collecting(n) ==> count == n,
    {
        self.inner.to_ref(heap).borrow_count()
    }

    /// Create a temporary reference without increasing the borrow count.
    pub fn borrow_ref(&self) -> (shared: SharedRef<T, W>)
        ensures
            shared.link() == self.link(),
    {
        SharedRef { inner: self.inner }
    }

    /// The shared value.
    pub fn as_ref<'a>(&self, heap: &'a Heap<SharedInner<T, W>>) -> (value: &'a T)
        requires
            self.wf(*heap),
        ensures
            *value == heap.at(self.link()).value(),
    {
        self.inner.to_ref(heap).as_ref()
    }

    /// Add another borrow.
    pub fn clone(&self, heap: &mut Heap<SharedInner<T, W>>) -> (shared: Shared<T, W>)
        requires
            self.wf(*old(heap)),
            old(heap).at(self.link())@.count <= MAX_REFCOUNT,
        ensures
            shared.link() == self.link(),
            shared.wf(*final(heap)),
            updated(
                *final(heap),
                *old(heap),
                self.link(),
                old(heap).at(self.link())@.with_borrow(),
            ),
    {
        proof {
            heap.at(self.link())@.lemma_with_borrow_borrowed();
        }
        Shared::new(heap, self.inner)
    }

    /// Return the borrow. The value goes with it if it was the last one and
    /// the owner is gone.
    pub fn drop(self, heap: &mut Heap<SharedInner<T, W>>)
        requires
            self.wf(*old(heap)),
        ensures
            if old(heap).at(self.link())@.orphaned(1) {
                final(heap).freed(old(heap), self.link())
            } else {
                updated(
                    *final(heap),
                    *old(heap),
                    self.link(),
                    old(heap).at(self.link())@.without_borrow(),
                )
            },
    {
        if self.inner.to_mut(heap).dec_count_ref() {
            self.inner.dealloc(heap);
        }
    }
}

impl<T, W> Clone for SharedRef<T, W> {
    fn clone(&self) -> (copy: Self)
        ensures
            copy == *self,
    {
        *self
    }
}

impl<T, W> Copy for SharedRef<T, W> {

}

impl<T, W> SharedRef<T, W> {
    /// The allocation of the value.
    pub closed spec fn link(self) -> BoxPtr<SharedInner<T, W>> {
        self.inner
    }

    /// Get the current number of borrows.
    pub fn borrow_count(&self, heap: &Heap<SharedInner<T, W>>) -> (count: usize)
        requires
            heap.has(self.link()),
            heap.at(self.link()).at_rest(),
            heap.at(self.link())@.borrowed() || heap.at(self.link())@.lent(false),
        ensures
            count == heap.at(self.link())@.borrow_count(),
            forall|n: nat| #[trigger] heap.at(self.link())@.owned(n) ==> count == n,
            forall|n: nat| #[trigger] heap.at(self.link())@.orphaned(n) ==> count == n,
            forall|n: nat| #[trigger] heap.at(self.link())@.collecting(n) ==> count == n,
    {
        self.inner.to_ref(heap).borrow_count()
    }

    /// Construct a borrow of the referenced value.
    pub fn into_shared(self, heap: &mut Heap<SharedInner<T, W>>) -> (shared: Shared<T, W>)
        requires
            old(heap).has(self.link()),
            old(heap).at(self.link()).at_rest(),
            old(heap).at(self.link())@.borrowed() || old(heap).at(self.link())@.lent(false),
            old(heap).at(self.link())@.count <= MAX_REFCOUNT,
        ensures
            shared.link() == self.link(),
            shared.wf(*final(heap)),
            updated(
                *final(heap),
                *old(heap),
                self.link(),
                old(heap).at(self.link())@.with_borrow(),
            ),
    {
        proof {
            heap.at(self.link())@.lemma_with_borrow_borrowed();
        }
        Shared::new(heap, self.inner)
    }

    /// The shared value.
    pub fn as_ref<'a>(&self, heap: &'a Heap<SharedInner<T, W>>) -> (value: &'a T)
        requires
            heap.has(self.link()),
        ensures
            *value == heap.at(self.link()).value(),
    {
        self.inner.to_ref(heap).as_ref()
    }
}

/// Resolves when all outstanding borrows of the [`Lender`] have been returned.
#[derive(Debug)]
pub struct Collect<'c, T, W>(Option<&'c mut Lender<T, W>>);

impl<'c, T, W> Collect<'c, T, W> {
    /// The owner that waits.
    pub closed spec fn lender(self) -> Option<&'c mut Lender<T, W>> {
        self.0
    }

    /// Tell whether it has been resolved.
    pub fn is_terminated(&self) -> (done: bool)
        ensures
            done == (self.lender() is None),
    {
        self.0.is_none()
    }

    /// Resolve or abort the collection of the resource.
    pub fn resolve<'a>(self, heap: &'a mut Heap<SharedInner<T, W>>) -> (result: Result<
        &'a mut T,
        &'c mut Lender<T, W>,
    >)
        requires
            self.lender() matches Some(lender) && lender.wf(*old(heap)),
        ensures
            self.lender() matches Some(lender) && match result {
                Ok(value) => {
                    &&& lender.borrows(*old(heap)) == 0
                    &&& collected(*lender, *final(lender), *old(heap), *final(heap))
                    &&& *value == old(heap).at(lender.link()).value()
                    &&& *final(value) == final(heap).at(lender.link()).value()
                },
                Err(rest) => {
                    &&& lender.borrows(*old(heap)) > 0
                    &&& stopped(*lender, *rest, *old(heap), *final(heap))
                    &&& *final(rest) == *final(lender)
                },
            },
    {
        let lender = self.0.unwrap();
        if lender.try_collect(heap) {
            Ok(lender.get_mut_unchecked(heap))
        } else {
            lender.cancel_collect(heap);
            Err(lender)
        }
    }

    /// Find out whether the borrows have been returned, and wait with the waker if not.
    pub fn poll<'a>(&mut self, heap: &'a mut Heap<SharedInner<T, W>>, waker: W) -> (result: Poll<
        &'a mut T,
    >)
        requires
            old(self).lender() matches Some(lender) ==> lender.wf(*old(heap)),
        ensures
            old(self).lender() is None ==> {
                &&& result is Pending
                &&& final(self).lender() is None
                &&& final(heap).same(old(heap))
            },
            old(self).lender() matches Some(lender) ==> match result {
                Poll::Ready(value) => {
                    &&& lender.borrows(*old(heap)) == 0
                    &&& collected(*lender, *final(lender), *old(heap), *final(heap))
                    &&& *value == old(heap).at(lender.link()).value()
                    &&& *final(value) == final(heap).at(lender.link()).value()
                    &&& final(self).lender() is None
                },
                Poll::Pending => {
                    &&& lender.borrows(*old(heap)) > 0
                    &&& final(self).lender() matches Some(rest) && {
                        &&& waits(*lender, *rest, *old(heap), *final(heap), waker)
                        &&& *final(rest) == *final(lender)
                    }
                },
            },
    {
        match self.0.take() {
            Some(lender) => {
                match lender.poll_collect(heap, waker) {
                    Poll::Ready(()) => Poll::Ready(lender.get_mut_unchecked(heap)),
                    Poll::Pending => {
                        self.0 = Some(lender);
                        Poll::Pending
                    },
                }
            },
            None => Poll::Pending,
        }
    }

    /// One turn of waiting for the borrows to be returned. Once the time is up,
    /// the owner stops waiting, and is given back if a borrow is still out.
    pub fn wait<'a>(&mut self, heap: &'a mut Heap<SharedInner<T, W>>, turn: Turn<W>) -> (result:
        Poll<Result<&'a mut T, &'c mut Lender<T, W>>>)
        requires
            old(self).lender() matches Some(lender) && lender.wf(*old(heap)),
        ensures
            old(self).lender() matches Some(lender) && match (turn, result) {
                (_, Poll::Ready(Ok(value))) => {
                    &&& lender.borrows(*old(heap)) == 0
                    &&& collected(*lender, *final(lender), *old(heap), *final(heap))
                    &&& *value == old(heap).at(lender.link()).value()
                    &&& *final(value) == final(heap).at(lender.link()).value()
                    &&& final(self).lender() is None
                },
                (Turn::Wait(waker), Poll::Pending) => {
                    &&& lender.borrows(*old(heap)) > 0
                    &&& final(self).lender() matches Some(rest) && {
                        &&& waits(*lender, *rest, *old(heap), *final(heap), waker)
                        &&& *final(rest) == *final(lender)
                    }
                },
                (Turn::Expired, Poll::Ready(Err(rest))) => {
                    &&& lender.borrows(*old(heap)) > 0
                    &&& stopped(*lender, *rest, *old(heap), *final(heap))
                    &&& *final(rest) == *final(lender)
                    &&& final(self).lender() is None
                },
                _ => false,
            },
    {
        match turn {
            Turn::Wait(waker) => {
                match self.poll(heap, waker) {
                    Poll::Ready(value) => Poll::Ready(Ok(value)),
                    Poll::Pending => Poll::Pending,
                }
            },
            Turn::Expired => {
                let lender = self.0.take().unwrap();
                if lender.try_collect(heap) {
                    Poll::Ready(Ok(lender.get_mut_unchecked(heap)))
                } else {
                    lender.cancel_collect(heap);
                    Poll::Ready(Err(lender))
                }
            },
        }
    }

    /// Give up. The owner stops waiting.
    pub fn drop(self, heap: &mut Heap<SharedInner<T, W>>)
        requires
            self.lender() matches Some(lender) ==> lender.wf(*old(heap)),
        ensures
            self.lender() is None ==> final(heap).same(old(heap)),
            self.lender() matches Some(lender) ==> {
                &&& final(lender).link() == lender.link()
                &&& !final(lender).pending()
                &&& final(lender).wf(*final(heap))
                &&& final(lender).borrows(*final(heap)) == lender.borrows(*old(heap))
                &&& updated(
                    *final(heap),
                    *old(heap),
                    lender.link(),
                    if lender.pending() {
                        old(heap).at(lender.link())@.cancelled()
                    } else {
                        old(heap).at(lender.link())@
                    },
                )
            },
    {
        match self.0 {
            Some(lender) => {
                lender.cancel_collect(heap);
            },
            None => {},
        }
    }
}

/// Resolves when all outstanding borrows of the [`Lender`] have been returned.
#[derive(Debug)]
pub struct CollectInto<T, W>(Option<Lender<T, W>>);

impl<T, W> CollectInto<T, W> {
    /// The owner that waits.
    pub closed spec fn lender(self) -> Option<Lender<T, W>> {
        self.0
    }

    /// Tell whether it has been resolved.
    pub fn is_terminated(&self) -> (done: bool)
        ensures
            done == (self.lender() is None),
    {
        self.0.is_none()
    }

    /// Resolve or abort the collection of the resource.
    pub fn resolve(self, heap: &mut Heap<SharedInner<T, W>>) -> (result: Result<T, Lender<T, W>>)
        requires
            self.lender() matches Some(lender) && lender.wf(*old(heap)),
        ensures
            self.lender() matches Some(lender) && match result {
                Ok(value) => {
                    &&& lender.borrows(*old(heap)) == 0
                    &&& value == old(heap).at(lender.link()).value()
                    &&& final(heap).freed(old(heap), lender.link())
                },
                Err(rest) => {
                    &&& lender.borrows(*old(heap)) > 0
                    &&& stopped(lender, rest, *old(heap), *final(heap))
                },
            },
    {
        let mut lender = self.0.unwrap();
        if lender.try_collect(heap) {
            Ok(lender.into_inner(heap))
        } else {
            lender.cancel_collect(heap);
            Err(lender)
        }
    }

    /// Find out whether the borrows have been returned, and wait with the waker if not.
    pub fn poll(&mut self, heap: &mut Heap<SharedInner<T, W>>, waker: W) -> (result: Poll<T>)
        requires
            old(self).lender() matches Some(lender) ==> lender.wf(*old(heap)),
        ensures
            old(self).lender() is None ==> {
                &&& result is Pending
                &&& final(self).lender() is None
                &&& final(heap).same(old(heap))
            },
            old(self).lender() matches Some(lender) ==> match result {
                Poll::Ready(value) => {
                    &&& lender.borrows(*old(heap)) == 0
                    &&& value == old(heap).at(lender.link()).value()
                    &&& final(heap).freed(old(heap), lender.link())
                    &&& final(self).lender() is None
                },
                Poll::Pending => {
                    &&& lender.borrows(*old(heap)) > 0
                    &&& final(self).lender() matches Some(rest) && waits(
                        lender,
                        rest,
                        *old(heap),
                        *final(heap),
                        waker,
                    )
                },
            },
    {
        match self.0.take() {
            Some(lender) => {
                let mut lender = lender;
                match lender.poll_collect(heap, waker) {
                    Poll::Ready(()) => Poll::Ready(lender.into_inner(heap)),
                    Poll::Pending => {
                        self.0 = Some(lender);
                        Poll::Pending
                    },
                }
            },
            None => Poll::Pending,
        }
    }

    /// One turn of waiting for the borrows to be returned. Once the time is up,
    /// the owner stops waiting, and is given back if a borrow is still out.
    pub fn wait(&mut self, heap: &mut Heap<SharedInner<T, W>>, turn: Turn<W>) -> (result: Poll<
        Result<T, Lender<T, W>>,
    >)
        requires
            old(self).lender() matches Some(lender) && lender.wf(*old(heap)),
        ensures
            old(self).lender() matches Some(lender) && match (turn, result) {
                (_, Poll::Ready(Ok(value))) => {
                    &&& lender.borrows(*old(heap)) == 0
                    &&& value == old(heap).at(lender.link()).value()
                    &&& final(heap).freed(old(heap), lender.link())
                    &&& final(self).lender() is None
                },
                (Turn::Wait(waker), Poll::Pending) => {
                    &&& lender.borrows(*old(heap)) > 0
                    &&& final(self).lender() matches Some(rest) && waits(
                        lender,
                        rest,
                        *old(heap),
                        *final(heap),
                        waker,
                    )
                },
                (Turn::Expired, Poll::Ready(Err(rest))) => {
                    &&& lender.borrows(*old(heap)) > 0
                    &&& stopped(lender, rest, *old(heap), *final(heap))
                    &&& final(self).lender() is None
                },
                _ => false,
            },
    {
        match turn {
            Turn::Wait(waker) => {
                match self.poll(heap, waker) {
                    Poll::Ready(value) => Poll::Ready(Ok(value)),
                    Poll::Pending => Poll::Pending,
                }
            },
            Turn::Expired => {
                let mut lender = self.0.take().unwrap();
                if lender.try_collect(heap) {
                    Poll::Ready(Ok(lender.into_inner(heap)))
                } else {
                    lender.cancel_collect(heap);
                    Poll::Ready(Err(lender))
                }
            },
        }
    }

    /// Give up. The owner goes away.
    pub fn drop(self, heap: &mut Heap<SharedInner<T, W>>)
        requires
            self.lender() matches Some(lender) ==> lender.wf(*old(heap)),
        ensures
            match self.lender() {
                None => final(heap).same(old(heap)),
                Some(lender) => if lender.borrows(*old(heap)) == 0 {
                    final(heap).freed(old(heap), lender.link())
                } else {
                    updated(
                        *final(heap),
                        *old(heap),
                        lender.link(),
                        old(heap).at(lender.link())@.without_owner(lender.pending()),
                    )
                },
            },
    {
        match self.0 {
            Some(lender) => lender.drop(heap),
            None => {},
        }
    }
}

} // verus!
