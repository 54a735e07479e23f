//! Platform-independent locking primitives.

use core::marker::PhantomData;

use vstd::prelude::*;

use crate::error::LockError;
use crate::poll::Poll;
use crate::raw_lock::native::{
    GuardImpl, LockImpl, LockView, RawGuard, RawInit, RawLock, WaitPlan,
};
use crate::types::{Expiry, Instant};

verus! {

/// A combination of a mutex and a condition variable.
pub struct Lock<T> {
    raw: LockImpl,
    value: T,
    id: Ghost<int>,
}

/// The right to the value of a [`Lock`]. It holds no address: its operations
/// are handed the lock that it belongs to.
pub struct LockGuard<T> {
    guard: GuardImpl,
    marker: PhantomData<T>,
    id: Ghost<int>,
}

impl<T> View for Lock<T> {
    type V = LockView;

    closed spec fn view(&self) -> LockView {
        self.raw@
    }
}

impl<T> Lock<T> {
    /// The protected value.
    pub closed spec fn value(&self) -> T {
        self.value
    }

    /// Which lock it is. Nothing tells that two locks made apart are the same.
    pub closed spec fn id(&self) -> int {
        self.id@
    }

    /// No more threads have been woken than wait.
    pub open spec fn wf(&self) -> bool {
        self@.wf()
    }

    /// Create a new `Lock`.
    pub fn new(value: T) -> (lock: Self)
        ensures
            lock.value() == value,
            lock.wf(),
            lock@ == LockView::free(),
    {
        Lock { raw: LockImpl::new(), value, id: Ghost(vstd::pervasive::arbitrary()) }
    }

    /// Acquire exclusive access to the contained value, or wait until that
    /// can be tried again.
    pub fn lock(&mut self) -> (result: Poll<Result<LockGuard<T>, LockError>>)
        ensures
            match result {
                Poll::Pending => old(self)@.held,
                Poll::Ready(Err(err)) => !old(self)@.held && old(self)@.poisoned && err
                    == LockError::Poisoned,
                Poll::Ready(Ok(guard)) => !old(self)@.held && !old(self)@.poisoned
                    && guard.lock_id() == old(self).id(),
            },
            final(self)@ == (LockView {
                held: old(self)@.held || result matches Poll::Ready(Ok(_)),
                ..old(self)@
            }),
            final(self).value() == old(self).value(),
            final(self).id() == old(self).id(),
    {
        match self.raw.lock() {
            Poll::Ready(Ok(guard)) => Poll::Ready(Ok(LockGuard { guard, marker: PhantomData, id: self.id })),
            Poll::Ready(Err(err)) => Poll::Ready(Err(err)),
            Poll::Pending => Poll::Pending,
        }
    }

    /// Acquire exclusive access to the contained value, if that is possible at once.
    pub fn try_lock(&mut self) -> (result: Result<LockGuard<T>, LockError>)
        ensures
            match result {
                Err(err) => err == (if old(self)@.held {
                    LockError::Contended
                } else {
                    LockError::Poisoned
                }) && (old(self)@.held || old(self)@.poisoned),
                Ok(guard) => !old(self)@.held && !old(self)@.poisoned && guard.lock_id() == old(
                    self,
                ).id(),
            },
            final(self)@ == (LockView { held: old(self)@.held || result is Ok, ..old(self)@ }),
            final(self).value() == old(self).value(),
            final(self).id() == old(self).id(),
    {
        match self.raw.try_lock() {
            Ok(guard) => Ok(LockGuard { guard, marker: PhantomData, id: self.id }),
            Err(err) => Err(err),
        }
    }

    /// Go on once a wait has ended, for the given reason.
    pub fn wait_end(&mut self, timed_out: bool) -> (result: Poll<
        Result<(LockGuard<T>, bool), LockError>,
    >)
        requires
            old(self).wf(),
            old(self)@.waiters > 0,
        ensures
            final(self).wf(),
            final(self).value() == old(self).value(),
            final(self).id() == old(self).id(),
            match result {
                Poll::Pending => old(self)@.held && final(self)@ == old(self)@,
                Poll::Ready(Err(err)) => !old(self)@.held && old(self)@.poisoned && err
                    == LockError::Poisoned && final(self)@ == old(self)@.without_waiter(),
                Poll::Ready(Ok((guard, late))) => !old(self)@.held && !old(self)@.poisoned
                    && guard.lock_id() == old(self).id() && late == timed_out && final(self)@ == (LockView {
                    held: true,
                    ..old(self)@.without_waiter()
                }),
            },
    {
        match self.raw.wait_end(timed_out) {
            Poll::Ready(Ok((guard, late))) => Poll::Ready(
                Ok((LockGuard { guard, marker: PhantomData, id: self.id }, late)),
            ),
            Poll::Ready(Err(err)) => Poll::Ready(Err(err)),
            Poll::Pending => Poll::Pending,
        }
    }

    /// Unwrap the lock, returning the inner value.
    pub fn into_inner(self) -> (value: T)
        ensures
            value == self.value(),
    {
        self.value
    }
}

impl<T: Default> Default for Lock<T> {
    /// A lock around the default value.
    fn default() -> (lock: Self)
        ensures
            call_ensures(T::default, (), lock.value()),
            lock.wf(),
            lock@ == LockView::free(),
    {
        Lock::new(T::default())
    }
}

impl<T> From<T> for Lock<T> {
    /// A free lock around the value.
    fn from(value: T) -> (lock: Lock<T>)
        ensures
            lock.value() == value,
            lock.wf(),
            lock@ == LockView::free(),
    {
        Lock::new(value)
    }
}

/// Which lock is made is not a function of the value.
impl<T> vstd::std_specs::convert::FromSpecImpl<T> for Lock<T> {
    open spec fn obeys_from_spec() -> bool {
        false
    }

    open spec fn from_spec(value: T) -> Lock<T> {
        vstd::pervasive::arbitrary()
    }
}

impl<T> LockGuard<T> {
    /// Which lock the guard belongs to.
    pub closed spec fn lock_id(&self) -> int {
        self.id@
    }

    /// The protected value.
    pub fn get<'a>(&self, lock: &'a Lock<T>) -> (value: &'a T)
        requires
            self.lock_id() == lock.id(),
            lock@.held,
        ensures
            *value == lock.value(),
    {
        &lock.value
    }

    /// The protected value, to be changed.
    pub fn get_mut<'a>(&mut self, lock: &'a mut Lock<T>) -> (value: &'a mut T)
        requires
            old(self).lock_id() == old(lock).id(),
            old(lock)@.held,
        ensures
            final(self).lock_id() == old(self).lock_id(),
            final(lock).id() == old(lock).id(),
            *value == old(lock).value(),
            *final(value) == final(lock).value(),
            final(lock)@ == old(lock)@,
    {
        &mut lock.value
    }

    /// Wait on a lock guard with an optional timeout. If the time is up
    /// already, the guard is given back at once. Otherwise the lock is free
    /// while the thread waits.
    pub fn wait(self, lock: &mut Lock<T>, timeout: Expiry, now: Instant) -> (result: Option<
        (LockGuard<T>, bool),
    >)
        requires
            self.lock_id() == old(lock).id(),
            old(lock).wf(),
            old(lock)@.held,
            old(lock)@.waiters < usize::MAX,
        ensures
            final(lock).wf(),
            final(lock).value() == old(lock).value(),
            final(lock).id() == old(lock).id(),
            match result {
                Some((guard, timed_out)) => {
                    &&& guard.lock_id() == self.lock_id()
                    &&& timeout@ matches Some(exp) && exp@ < now@
                    &&& timed_out
                    &&& final(lock)@ == old(lock)@
                },
                None => {
                    &&& timeout@ matches Some(exp) ==> exp@ >= now@
                    &&& final(lock)@ == (LockView {
                        held: false,
                        waiters: old(lock)@.waiters + 1,
                        ..old(lock)@
                    })
                },
            },
    {
        let plan = WaitPlan::new(timeout.into_opt_instant(), now);
        match self.guard.wait(&mut lock.raw, plan) {
            Some((guard, timed_out)) => Some(
                (LockGuard { guard, marker: PhantomData, id: Ghost(lock.id()) }, timed_out),
            ),
            None => None,
        }
    }

    /// Give the lock back. It is poisoned if the thread is panicking.
    pub fn drop(self, lock: &mut Lock<T>, panicking: bool)
        requires
            self.lock_id() == old(lock).id(),
            old(lock)@.held,
        ensures
            final(lock).id() == old(lock).id(),
            final(lock)@ == (LockView {
                held: false,
                poisoned: old(lock)@.poisoned || panicking,
                ..old(lock)@
            }),
            final(lock).value() == old(lock).value(),
    {
        self.guard.unlock(&mut lock.raw, panicking);
    }
}

/// A lock is given to one at a time: another one is told that it is contended, until
/// the guard has been given back.
pub proof fn law_exclusive<T>(
    lock: &mut Lock<T>,
    taken: &mut Lock<T>,
    back: &mut Lock<T>,
    again: &mut Lock<T>,
    results: (
        Result<LockGuard<T>, LockError>,
        Result<LockGuard<T>, LockError>,
        Result<LockGuard<T>, LockError>,
    ),
)
    requires
        !lock@.held,
        !lock@.poisoned,
        call_ensures(Lock::<T>::try_lock, (lock,), results.0),
        *final(lock) == *taken,
        call_ensures(Lock::<T>::try_lock, (taken,), results.1),
        *final(taken) == *back,
        call_ensures(LockGuard::<T>::drop, (results.0->Ok_0, back, false), ()),
        *final(back) == *again,
        call_ensures(Lock::<T>::try_lock, (again,), results.2),
    ensures
        results.0 is Ok,
        results.1 matches Err(err) && err == LockError::Contended,
        results.2 is Ok,
        final(again).value() == old(lock).value(),
{
}

/// A lock that was given back by a thread that panicked is poisoned, for good.
pub proof fn law_poisoned<T>(
    lock: &mut Lock<T>,
    later: &mut Lock<T>,
    guard: LockGuard<T>,
    result: Poll<Result<LockGuard<T>, LockError>>,
)
    requires
        call_ensures(LockGuard::<T>::drop, (guard, lock, true), ()),
        *final(lock) == *later,
        call_ensures(Lock::<T>::lock, (later,), result),
    ensures
        result matches Poll::Ready(Err(err)) && err == LockError::Poisoned,
        final(later)@.poisoned,
{
}

/// Whoever wants a lock that is held waits for it.
pub proof fn law_lock_waits<T>(lock: &mut Lock<T>, result: Poll<Result<LockGuard<T>, LockError>>)
    requires
        call_ensures(Lock::<T>::lock, (lock,), result),
    ensures
        (result is Pending) == old(lock)@.held,
        !old(lock)@.held && !old(lock)@.poisoned ==> (result matches Poll::Ready(Ok(guard))
            && guard.lock_id() == old(lock).id()),
        result is Pending ==> final(lock)@ == old(lock)@,
{
}

/// A thread that waits on a guard does without the lock, and has it back when it goes
/// on. A signal that it was woken by is used up with that.
pub proof fn law_wait_and_go_on<T>(
    guard: LockGuard<T>,
    lock: &mut Lock<T>,
    later: &mut Lock<T>,
    timeout: Expiry,
    now: Instant,
    waited: Option<(LockGuard<T>, bool)>,
    timed_out: bool,
    result: Poll<Result<(LockGuard<T>, bool), LockError>>,
)
    requires
        lock.wf(),
        lock@.held,
        !lock@.poisoned,
        timeout@ is None,
        call_ensures(LockGuard::<T>::wait, (guard, lock, timeout, now), waited),
        *final(lock) == *later,
        call_ensures(Lock::<T>::wait_end, (later, timed_out), result),
    ensures
        waited is None,
        !final(lock)@.held,
        final(lock)@.waiters == old(lock)@.waiters + 1,
        result matches Poll::Ready(Ok((back, late))) && late == timed_out && back.lock_id() == old(
            lock,
        ).id(),
        final(later)@.held,
        final(later)@.waiters == old(lock)@.waiters,
        final(later)@.signals <= final(later)@.waiters,
        old(lock)@.signals > 0 ==> final(later)@.signals == old(lock)@.signals - 1,
        old(lock)@.signals == 0 ==> final(later)@.signals == 0,
        final(later).value() == old(lock).value(),
{
}

/// What is put into a lock is under it for whoever has the guard, and so is what that
/// one has changed it to; it comes out again in the end.
pub proof fn law_into_inner<T>(
    value: T,
    made: Lock<T>,
    lock: &mut Lock<T>,
    changed: &mut Lock<T>,
    got: Result<LockGuard<T>, LockError>,
    guard: &mut LockGuard<T>,
    place: &mut T,
    seen: &T,
    back: T,
)
    requires
        call_ensures(Lock::<T>::new, (value,), made),
        *lock == made,
        call_ensures(Lock::<T>::try_lock, (lock,), got),
        *final(lock) == *changed,
        *guard == got->Ok_0,
        call_ensures(LockGuard::<T>::get, (&*guard, &*changed), seen),
        call_ensures(LockGuard::<T>::get_mut, (guard, changed), place),
        call_ensures(Lock::<T>::into_inner, (*final(changed),), back),
    ensures
        got is Ok,
        *seen == value,
        *old(place) == value,
        back == *final(place),
{
}

} // verus!
