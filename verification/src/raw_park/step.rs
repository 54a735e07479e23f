//! The operations of a parker, cut into steps.
//!
//! A step is one atomic operation on the flags together with what is done to
//! the lock after it. There are two ways to wait: on a condition variable,
//! whose lock keeps a notification from slipping in between the last look at
//! the flags and the wait, and on the word of flags itself, where the system
//! does not let the thread sleep unless the flags are as expected.

use vstd::prelude::*;

use crate::raw_park::state::{ParkOp, ParkSeen, ParkState};
use crate::types::ParkResult;

verus! {

/// How a parked thread waits.
#[derive(Copy, Clone, Debug, PartialEq, Eq, Structural)]
pub enum Means {
    /// On a condition variable.
    Condvar,
    /// On a condition variable. The thread announces itself by an exchange.
    CondvarExchange,
    /// On the word of flags.
    Futex,
}

/// An operation of a parker.
#[derive(Copy, Clone, Debug, PartialEq, Eq, Structural)]
pub enum Call {
    /// Take the parker into use.
    Acquire,
    /// Give the parker back.
    Release,
    /// Wait for a notification.
    Park,
    /// Notify.
    Unpark,
}

/// A point in an operation. All but `Waiting` and `End` name the atomic operation to come.
#[derive(Copy, Clone, Debug, PartialEq, Eq, Structural)]
pub enum At {
    /// Acquire: set the flag.
    AcquireBegin,
    /// Release: clear the flag.
    ReleaseBegin,
    /// Park: look for a notification.
    ParkBegin,
    /// Park: consume the notification.
    ParkConsume { seen: ParkState },
    /// Park: announce the wait.
    ParkAnnounce { seen: ParkState },
    /// Park: the thread sleeps, if the means is a futex only while the flags are as expected.
    Waiting { expected: ParkState },
    /// Park: the wait is over, look for a notification.
    ParkCheck { expected: ParkState, timed_out: bool },
    /// Park: the thread will not wait again, withdraw the announcement.
    ParkFinish { seen: ParkState },
    /// Unpark: set the flag.
    UnparkBegin,
    /// The operation is over.
    End(End),
}

/// How an operation ends.
#[derive(Copy, Clone, Debug, PartialEq, Eq, Structural)]
pub enum End {
    /// The parker is in use by this thread now.
    Acquired,
    /// The parker was in use.
    Contended,
    /// The parker is not in use any more.
    Released,
    /// The thread does not wait any more.
    Parked(ParkResult),
    /// The thread has been notified. True if it had not been notified already.
    Notified(bool),
    /// The flags made no sense.
    Invalid,
}

/// What is done to the lock after the atomic operation of a step.
#[derive(Copy, Clone, Debug, PartialEq, Eq, Structural)]
pub struct Acts {
    /// Initialise the lock.
    pub init: bool,
    /// Acquire the lock.
    pub lock: bool,
    /// Release the lock.
    pub unlock: bool,
    /// Acquire the lock and release it again.
    pub pass: bool,
    /// Wake the thread that waits.
    pub notify: bool,
}

impl Acts {
    /// Nothing.
    pub open spec fn idle() -> Acts {
        Acts { init: false, lock: false, unlock: false, pass: false, notify: false }
    }

    /// Do nothing.
    pub fn none() -> (acts: Acts)
        ensures
            acts == Acts::idle(),
    {
        Acts { init: false, lock: false, unlock: false, pass: false, notify: false }
    }
}

impl Means {
    /// The means has a lock.
    pub open spec fn locks(self) -> bool {
        !(self is Futex)
    }

    /// The thread announces itself by an exchange.
    pub open spec fn exchanges(self) -> bool {
        !(self is Condvar)
    }

    /// The flags that announce a wait.
    pub open spec fn announcement(self) -> ParkState {
        ParkState::flags(self is Condvar, false, true, false)
    }
}

impl Call {
    /// Where the call begins.
    pub open spec fn start(self) -> At {
        match self {
            Call::Acquire => At::AcquireBegin,
            Call::Release => At::ReleaseBegin,
            Call::Park => At::ParkBegin,
            Call::Unpark => At::UnparkBegin,
        }
    }

    /// Where the call begins.
    pub fn begin(self) -> (at: At)
        ensures
            at == self.start(),
    {
        match self {
            Call::Acquire => At::AcquireBegin,
            Call::Release => At::ReleaseBegin,
            Call::Park => At::ParkBegin,
            Call::Unpark => At::UnparkBegin,
        }
    }
}

impl At {
    /// The atomic operation that a point stands before.
    pub open spec fn op_at(self, means: Means) -> ParkOp {
        match self {
            At::AcquireBegin => ParkOp::SetFlags(ParkState::flags(false, true, false, false)),
            At::ReleaseBegin => ParkOp::ClearFlags(ParkState::flags(false, true, false, false)),
            At::ParkConsume { seen } => ParkOp::Swap(
                seen.minus(ParkState::flags(false, false, false, true)),
            ),
            At::ParkAnnounce { seen } => if means.exchanges() {
                ParkOp::Cas { from: seen, to: seen.union(means.announcement()) }
            } else {
                ParkOp::SetFlags(means.announcement())
            },
            At::ParkFinish { seen } => ParkOp::Swap(
                seen.minus(ParkState::flags(false, false, true, true)),
            ),
            At::UnparkBegin => ParkOp::SetFlags(ParkState::flags(false, false, false, true)),
            _ => ParkOp::Load,
        }
    }

    /// What is done to the lock after the atomic operation of a point, and
    /// the point after that.
    pub open spec fn step_at(self, means: Means, seen: ParkSeen) -> (Acts, At) {
        let state = seen.state;
        match self {
            At::AcquireBegin => (
                Acts::idle(),
                At::End(
                    if state.held {
                        End::Contended
                    } else {
                        End::Acquired
                    },
                ),
            ),
            At::ReleaseBegin => (Acts::idle(), At::End(End::Released)),
            At::ParkBegin => if state.unpark {
                (Acts::idle(), At::ParkConsume { seen: state })
            } else {
                (
                    Acts { init: means is Condvar && !state.init, lock: means.locks(), ..Acts::idle() },
                    At::ParkAnnounce { seen: state },
                )
            },
            At::ParkConsume { .. } => (Acts::idle(), At::End(End::Parked(ParkResult::Skipped))),
            At::ParkAnnounce { .. } => if !means.exchanges() && !state.unpark {
                (Acts::idle(), At::Waiting { expected: state.union(means.announcement()) })
            } else if means.exchanges() && seen.ok {
                (Acts::idle(), At::Waiting { expected: state.union(means.announcement()) })
            } else if state.unpark {
                (
                    Acts { unlock: means.locks(), ..Acts::idle() },
                    At::ParkConsume {
                        seen: if means.exchanges() {
                            state
                        } else {
                            state.union(means.announcement())
                        },
                    },
                )
            } else {
                (Acts { unlock: means.locks(), ..Acts::idle() }, At::End(End::Invalid))
            },
            At::ParkCheck { expected, timed_out } => if timed_out || state.unpark {
                (Acts::idle(), At::ParkFinish { seen: state })
            } else {
                (Acts::idle(), At::Waiting { expected })
            },
            At::ParkFinish { .. } => (
                Acts { unlock: means.locks(), ..Acts::idle() },
                At::End(
                    End::Parked(
                        if state.unpark {
                            ParkResult::Unparked
                        } else {
                            ParkResult::TimedOut
                        },
                    ),
                ),
            ),
            At::UnparkBegin => (
                if state.park && !state.unpark {
                    Acts { pass: means.locks(), notify: true, ..Acts::idle() }
                } else {
                    Acts::idle()
                },
                At::End(End::Notified(!state.unpark)),
            ),
            At::Waiting { .. } => (Acts::idle(), self),
            At::End(_) => (Acts::idle(), self),
        }
    }

    /// The atomic operation to perform next.
    pub fn op(self, means: Means) -> (op: ParkOp)
        ensures
            op == self.op_at(means),
    {
        let none = ParkState::free();
        match self {
            At::AcquireBegin => ParkOp::SetFlags(ParkState { held: true, ..none }),
            At::ReleaseBegin => ParkOp::ClearFlags(ParkState { held: true, ..none }),
            At::ParkConsume { seen } => ParkOp::Swap(
                seen.without(ParkState { unpark: true, ..none }),
            ),
            At::ParkAnnounce { seen } => {
                match means {
                    Means::Condvar => ParkOp::SetFlags(
                        ParkState { init: true, park: true, ..none },
                    ),
                    _ => ParkOp::Cas {
                        from: seen,
                        to: seen.with(ParkState { park: true, ..none }),
                    },
                }
            },
            At::ParkFinish { seen } => ParkOp::Swap(
                seen.without(ParkState { park: true, unpark: true, ..none }),
            ),
            At::UnparkBegin => ParkOp::SetFlags(ParkState { unpark: true, ..none }),
            At::ParkBegin | At::ParkCheck { .. } | At::Waiting { .. } | At::End(_) => ParkOp::Load,
        }
    }

    /// What to do to the lock once the atomic operation has reported `seen`,
    /// and the point reached then.
    pub fn next(self, means: Means, seen: ParkSeen) -> (step: (Acts, At))
        ensures
            step == self.step_at(means, seen),
    {
        let state = seen.state;
        let locks: bool = !matches!(means, Means::Futex);
        match self {
            At::AcquireBegin => {
                if state.held {
                    (Acts::none(), At::End(End::Contended))
                } else {
                    (Acts::none(), At::End(End::Acquired))
                }
            },
            At::ReleaseBegin => (Acts::none(), At::End(End::Released)),
            At::ParkBegin => {
                if state.unpark {
                    // consume notification
                    (Acts::none(), At::ParkConsume { seen: state })
                } else {
                    let init: bool = matches!(means, Means::Condvar) && !state.init;
                    (Acts { init, lock: locks, ..Acts::none() }, At::ParkAnnounce { seen: state })
                }
            },
            At::ParkConsume { .. } => (Acts::none(), At::End(End::Parked(ParkResult::Skipped))),
            At::ParkAnnounce { .. } => {
                let unlock = Acts { unlock: locks, ..Acts::none() };
                match means {
                    Means::Condvar => {
                        let expected = state.with(
                            ParkState { init: true, park: true, ..ParkState::free() },
                        );
                        if state.unpark {
                            (unlock, At::ParkConsume { seen: expected })
                        } else {
                            (Acts::none(), At::Waiting { expected })
                        }
                    },
                    _ => {
                        if seen.ok {
                            let expected = state.with(ParkState { park: true, ..ParkState::free() });
                            (Acts::none(), At::Waiting { expected })
                        } else if state.unpark {
                            (unlock, At::ParkConsume { seen: state })
                        } else {
                            (unlock, At::End(End::Invalid))
                        }
                    },
                }
            },
            At::ParkCheck { expected, timed_out } => {
                if timed_out || state.unpark {
                    (Acts::none(), At::ParkFinish { seen: state })
                } else {
                    (Acts::none(), At::Waiting { expected })
                }
            },
            At::ParkFinish { .. } => {
                let result = if state.unpark {
                    ParkResult::Unparked
                } else {
                    ParkResult::TimedOut
                };
                (Acts { unlock: locks, ..Acts::none() }, At::End(End::Parked(result)))
            },
            At::UnparkBegin => {
                let end = At::End(End::Notified(!state.unpark));
                if state.park && !state.unpark {
                    // acquire the lock because the parking thread could be interrupted
                    // between setting the state and waiting
                    (Acts { pass: locks, notify: true, ..Acts::none() }, end)
                } else {
                    (Acts::none(), end)
                }
            },
            At::Waiting { .. } => (Acts::none(), self),
            At::End(_) => (Acts::none(), self),
        }
    }

    /// A thread that waits has been told to look again, because it was woken
    /// or because the time is up.
    pub fn woken(self, timed_out: bool) -> (at: At)
        ensures
            at == (match self {
                At::Waiting { expected } => At::ParkCheck { expected, timed_out },
                _ => self,
            }),
    {
        match self {
            At::Waiting { expected } => At::ParkCheck { expected, timed_out },
            _ => self,
        }
    }
}

} // verus!
