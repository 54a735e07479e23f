//! A lock with a condition variable.

use vstd::prelude::*;

use crate::error::LockError;
use crate::poll::Poll;
use crate::types::{Duration, Instant};

verus! {

/// What a thread that waits until a time is up is to do.
#[derive(Copy, Clone, Debug)]
pub enum WaitPlan {
    /// Nothing: the time is up already.
    Expired,
    /// Wait for some time.
    Until(Duration),
    /// Wait as long as it takes.
    Forever,
}

impl WaitPlan {
    /// How to wait until `timeout`.
    pub fn new(timeout: Option<Instant>, now: Instant) -> (plan: WaitPlan)
        ensures
            match timeout {
                None => plan is Forever,
                Some(exp) => if exp@ < now@ {
                    plan is Expired
                } else {
                    plan matches WaitPlan::Until(dur) && dur@ == exp@ - now@
                },
            },
    {
        match timeout {
            Some(exp) => {
                match exp.checked_duration_since(now) {
                    Some(dur) => WaitPlan::Until(dur),
                    None => WaitPlan::Expired,
                }
            },
            None => WaitPlan::Forever,
        }
    }
}

/// What is known of a lock.
pub struct LockView {
    /// A guard is out.
    pub held: bool,
    /// A guard was given back by a thread that panicked.
    pub poisoned: bool,
    /// How many threads wait on the condition variable.
    pub waiters: nat,
    /// How many of them have been woken.
    pub signals: nat,
}

impl LockView {
    /// A lock that nobody has used.
    pub open spec fn free() -> LockView {
        LockView { held: false, poisoned: false, waiters: 0, signals: 0 }
    }

    /// No more threads have been woken than wait.
    pub open spec fn wf(self) -> bool {
        self.signals <= self.waiters
    }

    /// One thread less waits. It takes a signal with it if there is one.
    pub open spec fn without_waiter(self) -> LockView {
        LockView {
            waiters: (self.waiters - 1) as nat,
            signals: if self.signals > 0 {
                (self.signals - 1) as nat
            } else {
                0
            },
            ..self
        }
    }
}

/// A lock that can be made.
pub trait RawInit: Sized {
    /// What is known of the lock.
    spec fn state(&self) -> LockView;

    /// A lock that is free.
    fn new() -> (lock: Self)
        ensures
            lock.state() == LockView::free(),
    ;
}

/// The right to what a lock protects.
pub trait RawGuard<L: RawInit>: Sized {
    /// Wait on the condition variable, unless the time is up. The lock is
    /// given back meanwhile.
    fn wait(self, lock: &mut L, plan: WaitPlan) -> (result: Option<(Self, bool)>)
        requires
            old(lock).state().wf(),
            old(lock).state().held,
            old(lock).state().waiters < usize::MAX,
        ensures
            match result {
                Some((_, timed_out)) => plan is Expired && timed_out && final(lock).state() == old(
                    lock,
                ).state(),
                None => !(plan is Expired) && final(lock).state() == (LockView {
                    held: false,
                    waiters: old(lock).state().waiters + 1,
                    ..old(lock).state()
                }),
            },
    ;
}

/// A lock that hands out guards.
pub trait HasGuard: RawInit {
    /// The right to what the lock protects.
    type Guard: RawGuard<Self>;
}

/// A lock and the condition variable that goes with it.
pub trait RawLock: HasGuard {
    /// Acquire the lock, or wait until that can be tried again.
    fn lock(&mut self) -> (result: Poll<Result<Self::Guard, LockError>>)
        ensures
            match result {
                Poll::Pending => old(self).state().held,
                Poll::Ready(Err(err)) => !old(self).state().held && old(self).state().poisoned
                    && err == LockError::Poisoned,
                Poll::Ready(Ok(_)) => !old(self).state().held && !old(self).state().poisoned,
            },
            final(self).state() == (LockView {
                held: old(self).state().held || result matches Poll::Ready(Ok(_)),
                ..old(self).state()
            }),
    ;

    /// Acquire the lock if that is possible at once.
    fn try_lock(&mut self) -> (result: Result<Self::Guard, LockError>)
        ensures
            match result {
                Err(err) => err == (if old(self).state().held {
                    LockError::Contended
                } else {
                    LockError::Poisoned
                }) && (old(self).state().held || old(self).state().poisoned),
                Ok(_) => !old(self).state().held && !old(self).state().poisoned,
            },
            final(self).state() == (LockView {
                held: old(self).state().held || result is Ok,
                ..old(self).state()
            }),
    ;

    /// Wake one of the threads that wait.
    fn notify_one(&mut self)
        requires
            old(self).state().wf(),
        ensures
            final(self).state() == (LockView {
                signals: if old(self).state().signals < old(self).state().waiters {
                    old(self).state().signals + 1
                } else {
                    old(self).state().signals
                },
                ..old(self).state()
            }),
    ;

    /// Wake all threads that wait.
    fn notify_all(&mut self)
        requires
            old(self).state().wf(),
        ensures
            final(self).state() == (LockView {
                signals: old(self).state().waiters,
                ..old(self).state()
            }),
    ;
}

/// The lock, worked on by one thread at a time.
#[derive(Debug)]
pub struct LockImpl {
    held: bool,
    poisoned: bool,
    waiters: usize,
    signals: usize,
}

/// The right to what the lock protects.
#[derive(Debug)]
pub struct GuardImpl {
    locked: (),
}

impl View for LockImpl {
    type V = LockView;

    closed spec fn view(&self) -> LockView {
        LockView {
            held: self.held,
            poisoned: self.poisoned,
            waiters: self.waiters as nat,
            signals: self.signals as nat,
        }
    }
}

impl LockImpl {
    /// Go on once a wait has ended, for the given reason. The lock is
    /// acquired again before the thread goes on.
    pub fn wait_end(&mut self, timed_out: bool) -> (result: Poll<
        Result<(GuardImpl, bool), LockError>,
    >)
        requires
            old(self)@.wf(),
            old(self)@.waiters > 0,
        ensures
            final(self)@.wf(),
            match result {
                Poll::Pending => old(self)@.held && final(self)@ == old(self)@,
                Poll::Ready(Err(err)) => !old(self)@.held && old(self)@.poisoned && err
                    == LockError::Poisoned && final(self)@ == old(self)@.without_waiter(),
                Poll::Ready(Ok((_, late))) => !old(self)@.held && !old(self)@.poisoned && late
                    == timed_out && final(self)@ == (LockView {
                    held: true,
                    ..old(self)@.without_waiter()
                }),
            },
    {
        if self.held {
            return Poll::Pending;
        }
        self.waiters = self.waiters - 1;
        if self.signals > 0 {
            self.signals = self.signals - 1;
        }
        match self.try_lock() {
            Ok(guard) => Poll::Ready(Ok((guard, timed_out))),
            Err(err) => Poll::Ready(Err(err)),
        }
    }
}

impl RawInit for LockImpl {
    open spec fn state(&self) -> LockView {
        self@
    }

    fn new() -> (lock: Self) {
        LockImpl { held: false, poisoned: false, waiters: 0, signals: 0 }
    }
}

impl HasGuard for LockImpl {
    type Guard = GuardImpl;
}

impl RawLock for LockImpl {
    fn lock(&mut self) -> (result: Poll<Result<GuardImpl, LockError>>) {
        match self.try_lock() {
            Ok(guard) => Poll::Ready(Ok(guard)),
            Err(LockError::Contended) => Poll::Pending,
            Err(err) => Poll::Ready(Err(err)),
        }
    }

    fn try_lock(&mut self) -> (result: Result<GuardImpl, LockError>) {
        if self.held {
            Err(LockError::Contended)
        } else if self.poisoned {
            Err(LockError::Poisoned)
        } else {
            self.held = true;
            Ok(GuardImpl { locked: () })
        }
    }

    fn notify_one(&mut self) {
        if self.signals < self.waiters {
            self.signals = self.signals + 1;
        }
    }

    fn notify_all(&mut self) {
        self.signals = self.waiters;
    }
}

impl GuardImpl {
    /// Give the lock back. It is poisoned if the thread is panicking.
    pub fn unlock(self, lock: &mut LockImpl, panicking: bool)
        requires
            old(lock)@.held,
        ensures
            final(lock)@ == (LockView {
                held: false,
                poisoned: old(lock)@.poisoned || panicking,
                ..old(lock)@
            }),
    {
        lock.held = false;
        lock.poisoned = lock.poisoned || panicking;
    }
}

impl RawGuard<LockImpl> for GuardImpl {
    fn wait(self, lock: &mut LockImpl, plan: WaitPlan) -> (result: Option<(GuardImpl, bool)>) {
        match plan {
            WaitPlan::Expired => Some((self, true)),
            _ => {
                lock.held = false;
                lock.waiters = lock.waiters + 1;
                None
            },
        }
    }
}

/// A thread waits for what is left until the time is up, and not at all once that has
/// passed; without a time it waits for as long as it takes.
pub proof fn law_wait_plan(timeout: Option<Instant>, now: Instant, plan: WaitPlan)
    requires
        call_ensures(WaitPlan::new, (timeout, now), plan),
    ensures
        timeout is None <==> plan is Forever,
        plan is Expired <==> (timeout matches Some(end) && end@ < now@),
        plan matches WaitPlan::Until(dur) ==> (timeout matches Some(end) && now@ + dur@ == end@),
{
}

/// One of the threads that wait is woken, if there is one that has not been woken yet.
pub proof fn law_notify_one(lock: &mut LockImpl)
    requires
        lock@.wf(),
        call_ensures(<LockImpl as RawLock>::notify_one, (lock,), ()),
    ensures
        old(lock)@.signals < old(lock)@.waiters ==> final(lock)@.signals == old(lock)@.signals + 1,
        old(lock)@.signals == old(lock)@.waiters ==> final(lock)@.signals == old(lock)@.signals,
        final(lock)@.waiters == old(lock)@.waiters,
        final(lock)@.held == old(lock)@.held,
        final(lock)@.poisoned == old(lock)@.poisoned,
{
}

/// All threads that wait are woken.
pub proof fn law_notify_all(lock: &mut LockImpl)
    requires
        lock@.wf(),
        call_ensures(<LockImpl as RawLock>::notify_all, (lock,), ()),
    ensures
        final(lock)@.signals == old(lock)@.waiters,
        final(lock)@.waiters == old(lock)@.waiters,
        final(lock)@.held == old(lock)@.held,
        final(lock)@.poisoned == old(lock)@.poisoned,
{
}

} // verus!
