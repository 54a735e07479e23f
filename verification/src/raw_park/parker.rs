//! A parker, worked on by one thread at a time.

use vstd::prelude::*;

use crate::error::LockError;
use crate::poll::Poll;
use crate::raw_park::state::ParkState;
use crate::raw_park::step::{Acts, At, Call, End, Means};
use crate::types::ParkResult;

verus! {

/// Parking and notification.
pub trait RawParker: Sized {
    /// The flags.
    spec fn flags(&self) -> ParkState;

    /// The flags that announce a wait.
    spec fn announcement(&self) -> ParkState;

    /// A thread waits, or is about to.
    spec fn parked(&self) -> bool;

    /// The thread that waits has been woken.
    spec fn woken(&self) -> bool;

    /// Take the parker into use. This fails if it is in use already.
    fn acquire(&mut self) -> (result: Result<(), LockError>)
        ensures
            result == (if old(self).flags().held {
                Err::<(), LockError>(LockError::Contended)
            } else {
                Ok(())
            }),
            final(self).flags() == (ParkState { held: true, ..old(self).flags() }),
            final(self).announcement() == old(self).announcement(),
            final(self).parked() == old(self).parked(),
            final(self).woken() == old(self).woken(),
    ;

    /// Give the parker back.
    fn release(&mut self) -> (result: Result<(), LockError>)
        requires
            old(self).flags().held,
        ensures
            result == Ok::<(), LockError>(()),
            final(self).flags() == (ParkState { held: false, ..old(self).flags() }),
            final(self).announcement() == old(self).announcement(),
            final(self).parked() == old(self).parked(),
            final(self).woken() == old(self).woken(),
    ;

    /// Start to park. If the thread has been notified, the notification is
    /// consumed and there is nothing to wait for. Otherwise the thread is to
    /// wait, and to be resumed.
    fn park(&mut self) -> (result: Poll<ParkResult>)
        requires
            !old(self).parked(),
        ensures
            result == (if old(self).flags().unpark {
                Poll::Ready(ParkResult::Skipped)
            } else {
                Poll::Pending
            }),
            final(self).flags() == (if old(self).flags().unpark {
                ParkState { unpark: false, ..old(self).flags() }
            } else {
                old(self).flags().union(old(self).announcement())
            }),
            final(self).announcement() == old(self).announcement(),
            final(self).parked() == (result is Pending),
            !final(self).woken(),
    ;

    /// Go on once a wait has ended: because the thread was woken, possibly
    /// for no reason, because the time is up, or because waiting failed. The
    /// thread is to wait again if it was woken for no reason.
    fn resume(&mut self, waited: Result<bool, LockError>) -> (result: Poll<
        Result<ParkResult, LockError>,
    >)
        requires
            old(self).parked(),
        ensures
            result == (match waited {
                Err(err) => Poll::Ready(Err::<ParkResult, LockError>(err)),
                Ok(timed_out) => if old(self).flags().unpark {
                    Poll::Ready(Ok(ParkResult::Unparked))
                } else if timed_out {
                    Poll::Ready(Ok(ParkResult::TimedOut))
                } else {
                    Poll::Pending
                },
            }),
            final(self).flags() == (if waited is Ok && result is Ready {
                ParkState { park: false, unpark: false, ..old(self).flags() }
            } else {
                old(self).flags()
            }),
            final(self).announcement() == old(self).announcement(),
            final(self).parked() == (result is Pending),
            !final(self).woken(),
    ;

    /// Notify. True if the thread had not been notified already. A thread that
    /// waits is woken.
    fn unpark(&mut self) -> (notified: bool)
        ensures
            notified == !old(self).flags().unpark,
            final(self).flags() == (ParkState { unpark: true, ..old(self).flags() }),
            final(self).announcement() == old(self).announcement(),
            final(self).parked() == old(self).parked(),
            final(self).woken() == (old(self).woken() || (notified && old(self).flags().park
                && old(self).parked())),
    ;
}

/// A parker.
#[derive(Debug)]
pub struct ParkImpl {
    means: Means,
    state: ParkState,
    waiting: Option<ParkState>,
    woken: bool,
}

impl ParkImpl {
    /// How a parked thread waits.
    pub closed spec fn means(&self) -> Means {
        self.means
    }

    /// A parker that is not in use.
    pub fn new(means: Means) -> (parker: Self)
        ensures
            parker.means() == means,
            parker.flags() == ParkState::flags(false, false, false, false),
            parker.announcement() == means.announcement(),
            !parker.parked(),
            !parker.woken(),
    {
        ParkImpl { means, state: ParkState::free(), waiting: None, woken: false }
    }

    /// Take one step of an operation.
    fn step(&mut self, at: At) -> (step: (Acts, At))
        ensures
            final(self).state == at.op_at(old(self).means).result(old(self).state),
            step == at.step_at(
                old(self).means,
                at.op_at(old(self).means).seen(old(self).state),
            ),
            final(self).means == old(self).means,
            final(self).waiting == old(self).waiting,
            final(self).woken == old(self).woken,
    {
        let seen = at.op(self.means).apply(&mut self.state);
        at.next(self.means, seen)
    }
}

impl RawParker for ParkImpl {
    closed spec fn flags(&self) -> ParkState {
        self.state
    }

    closed spec fn announcement(&self) -> ParkState {
        self.means.announcement()
    }

    closed spec fn parked(&self) -> bool {
        self.waiting is Some
    }

    closed spec fn woken(&self) -> bool {
        self.woken
    }

    fn acquire(&mut self) -> (result: Result<(), LockError>) {
        match self.step(Call::Acquire.begin()) {
            (_, At::End(End::Contended)) => Err(LockError::Contended),
            _ => Ok(()),
        }
    }

    fn release(&mut self) -> (result: Result<(), LockError>) {
        let _ = self.step(Call::Release.begin());
        Ok(())
    }

    fn park(&mut self) -> (result: Poll<ParkResult>) {
        self.woken = false;
        let (_, at) = self.step(Call::Park.begin());
        let (_, at) = self.step(at);
        match at {
            At::Waiting { expected } => {
                self.waiting = Some(expected);
                Poll::Pending
            },
            _ => Poll::Ready(ParkResult::Skipped),
        }
    }

    fn resume(&mut self, waited: Result<bool, LockError>) -> (result: Poll<
        Result<ParkResult, LockError>,
    >) {
        self.woken = false;
        let expected = self.waiting.take().unwrap();
        let timed_out: bool = match waited {
            Ok(timed_out) => timed_out,
            Err(err) => {
                return Poll::Ready(Err(err));
            },
        };
        let (_, at) = self.step(At::Waiting { expected }.woken(timed_out));
        if let At::Waiting { expected } = at {
            self.waiting = Some(expected);
            return Poll::Pending;
        }
        match self.step(at) {
            (_, At::End(End::Parked(result))) => Poll::Ready(Ok(result)),
            _ => Poll::Ready(Err(LockError::InvalidState)),
        }
    }

    fn unpark(&mut self) -> (notified: bool) {
        let (acts, at) = self.step(Call::Unpark.begin());
        if acts.notify && self.waiting.is_some() {
            self.woken = true;
        }
        matches!(at, At::End(End::Notified(true)))
    }
}

} // verus!
