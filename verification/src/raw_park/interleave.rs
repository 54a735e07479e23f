//! A thread that parks, and any number of threads that notify it at the same time.
//!
//! The threads take their steps in any order, the wait may end for no reason
//! or because the time is up. No notification is lost or reported twice, and
//! a notified thread does not sleep on: somebody is about to wake it.

use vstd::prelude::*;

use crate::raw_park::state::ParkState;
use crate::raw_park::step::{At, End, Means};
use crate::types::ParkResult;

verus! {

/// The parking thread's relation to the lock.
pub enum Hold {
    /// It neither has it nor asks for it.
    Apart,
    /// It asks for it.
    Asks,
    /// It has it.
    Has,
}

/// A parker with the threads at work on it.
pub struct System {
    /// How the thread waits.
    pub means: Means,
    /// The flags.
    pub state: ParkState,
    /// The point that the parking thread has reached, if it parks.
    pub at: Option<At>,
    /// Its relation to the lock.
    pub lock: Hold,
    /// It sleeps.
    pub asleep: bool,
    /// It sleeps, and has been woken.
    pub roused: bool,
    /// How many notifiers are about to pass through the lock.
    pub passing: nat,
    /// How many notifiers are about to wake the thread.
    pub notifying: nat,
    /// How many notifications have been made. One that found the thread
    /// notified already is not counted.
    pub sent: nat,
    /// How many parks have reported a notification.
    pub got: nat,
}

/// Something that happens in the system.
pub enum Move {
    /// The thread starts to park.
    Park,
    /// The parking thread takes a step.
    Step,
    /// The parking thread acquires the lock.
    Lock,
    /// The parking thread falls asleep. The lock is released with that.
    Sleep,
    /// The sleep is over.
    Wake { timed_out: bool },
    /// The park is over.
    End,
    /// A notifier sets the flag.
    Unpark,
    /// A notifier passes through the lock.
    Pass,
    /// A notifier wakes the thread.
    Notify,
}

impl System {
    /// A parker that nobody has used.
    pub open spec fn init(self) -> bool {
        &&& self.state == ParkState::flags(false, self.state.held, false, false)
        &&& self.at is None
        &&& self.lock is Apart
        &&& !self.asleep
        &&& self.passing == 0
        &&& self.notifying == 0
        &&& self.sent == 0
        &&& self.got == 0
    }

    /// The move can be made.
    pub open spec fn enabled(self, m: Move) -> bool {
        match m {
            Move::Park => self.at is None,
            Move::Step => !(self.lock is Asks) && (self.at matches Some(at) && !(at is Waiting)
                && !(at is End)),
            Move::Lock => self.lock is Asks,
            Move::Sleep => !(self.lock is Asks) && !self.asleep && (self.at matches Some(at)
                && at is Waiting),
            Move::Wake { .. } => self.asleep,
            Move::End => self.at matches Some(at) && at is End,
            Move::Unpark => true,
            Move::Pass => self.passing > 0 && !(self.lock is Has),
            Move::Notify => self.notifying > 0,
        }
    }

    /// The system after a move.
    pub open spec fn after(self, m: Move) -> System {
        match m {
            Move::Park => System { at: Some(At::ParkBegin), ..self },
            Move::Step => match self.at {
                Some(at) => {
                    let op = at.op_at(self.means);
                    let (acts, next) = at.step_at(self.means, op.seen(self.state));
                    System {
                        state: op.result(self.state),
                        at: Some(next),
                        lock: if acts.lock {
                            Hold::Asks
                        } else if acts.unlock {
                            Hold::Apart
                        } else {
                            self.lock
                        },
                        got: if next == At::End(End::Parked(ParkResult::Skipped)) || next
                            == At::End(End::Parked(ParkResult::Unparked)) {
                            self.got + 1
                        } else {
                            self.got
                        },
                        ..self
                    }
                },
                None => self,
            },
            Move::Lock => System { lock: Hold::Has, ..self },
            Move::Sleep => match self.at {
                Some(At::Waiting { expected }) => if !self.means.locks() && self.state != expected {
                    System { at: Some(At::ParkCheck { expected, timed_out: false }), ..self }
                } else {
                    System { asleep: true, roused: false, lock: Hold::Apart, ..self }
                },
                _ => self,
            },
            Move::Wake { timed_out } => match self.at {
                Some(At::Waiting { expected }) => System {
                    asleep: false,
                    at: Some(At::ParkCheck { expected, timed_out }),
                    lock: if self.means.locks() {
                        Hold::Asks
                    } else {
                        Hold::Apart
                    },
                    ..self
                },
                _ => self,
            },
            Move::End => System { at: None, ..self },
            Move::Unpark => {
                let op = At::UnparkBegin.op_at(self.means);
                let (acts, next) = At::UnparkBegin.step_at(self.means, op.seen(self.state));
                System {
                    state: op.result(self.state),
                    sent: if next == At::End(End::Notified(true)) {
                        self.sent + 1
                    } else {
                        self.sent
                    },
                    passing: if acts.pass {
                        self.passing + 1
                    } else {
                        self.passing
                    },
                    notifying: if acts.notify && !acts.pass {
                        self.notifying + 1
                    } else {
                        self.notifying
                    },
                    ..self
                }
            },
            Move::Pass => System {
                passing: (self.passing - 1) as nat,
                notifying: self.notifying + 1,
                ..self
            },
            Move::Notify => System {
                notifying: (self.notifying - 1) as nat,
                roused: self.roused || self.asleep,
                ..self
            },
        }
    }

    /// The flags are as they were seen, but that a notification may have come.
    pub open spec fn stable(self, seen: ParkState) -> bool {
        self.state == (ParkState { unpark: self.state.unpark, ..seen }) && (seen.unpark
            ==> self.state.unpark)
    }

    /// Somebody is about to wake the thread, or has woken it.
    pub open spec fn wake_due(self) -> bool {
        self.roused || self.passing > 0 || self.notifying > 0
    }

    /// What holds at all times.
    pub open spec fn inv(self) -> bool {
        &&& self.sent == self.got + (if self.state.unpark {
            1nat
        } else {
            0
        })
        &&& !self.means.locks() ==> self.lock is Apart
        &&& self.asleep ==> (self.at matches Some(at) && at is Waiting) && self.lock is Apart
        &&& self.asleep && self.state.unpark ==> self.wake_due()
        &&& match self.at {
            None => self.lock is Apart,
            Some(at) => match at {
                At::ParkBegin => self.lock is Apart,
                At::ParkConsume { seen } => self.lock is Apart && seen.unpark && self.state == seen,
                At::ParkAnnounce { seen } => !seen.unpark && self.stable(seen)
                    && self.means.locks() == !(self.lock is Apart),
                At::Waiting { expected } => expected.park && !expected.unpark && self.stable(
                    expected,
                ) && (self.asleep || (self.lock is Has) == self.means.locks())
                    && (!self.asleep && self.means.locks() && self.state.unpark ==> self.passing
                    > 0),
                At::ParkCheck { expected, .. } => expected.park && !expected.unpark && self.stable(
                    expected,
                ) && self.means.locks() == !(self.lock is Apart),
                At::ParkFinish { seen } => seen.park && self.stable(seen) && (self.lock is Has)
                    == self.means.locks(),
                At::End(End::Parked(_)) => self.lock is Apart,
                _ => false,
            },
        }
    }
}

/// A parker that nobody has used is in order.
pub proof fn law_init(s: System)
    requires
        s.init(),
    ensures
        s.inv(),
{
}

/// Whatever happens next, everything stays in order.
pub proof fn law_move(s: System, m: Move)
    requires
        s.inv(),
        s.enabled(m),
    ensures
        s.after(m).inv(),
{
}

/// A course of events: from an unused parker on, each state follows from the
/// one before by a move.
pub open spec fn course(states: Seq<System>, moves: Seq<Move>) -> bool {
    &&& states.len() == moves.len() + 1
    &&& states[0].init()
    &&& forall|i: int|
        #![trigger moves[i]]
        0 <= i < moves.len() ==> states[i].enabled(moves[i]) && states[i + 1] == states[i].after(
            moves[i],
        )
}

/// The invariant holds in every state of every course of events.
pub proof fn law_always(states: Seq<System>, moves: Seq<Move>, i: int)
    requires
        course(states, moves),
        0 <= i < states.len(),
    ensures
        states[i].inv(),
    decreases i,
{
    if i == 0 {
        law_init(states[0]);
    } else {
        law_always(states, moves, i - 1);
        assert(states[i - 1].enabled(moves[i - 1]));
        law_move(states[i - 1], moves[i - 1]);
    }
}

/// Every notification is reported by one park, or is still to be reported;
/// and no park reports one that was not made.
pub proof fn law_reported_once(states: Seq<System>, moves: Seq<Move>, i: int)
    requires
        course(states, moves),
        0 <= i < states.len(),
    ensures
        states[i].sent == states[i].got + (if states[i].state.unpark {
            1nat
        } else {
            0
        }),
{
    law_always(states, moves, i);
}

/// A thread that has been notified does not sleep on: it has been woken, or a
/// notifier is on the way to wake it.
pub proof fn law_not_asleep(states: Seq<System>, moves: Seq<Move>, i: int)
    requires
        course(states, moves),
        0 <= i < states.len(),
    ensures
        states[i].asleep && states[i].state.unpark ==> states[i].wake_due(),
{
    law_always(states, moves, i);
}

/// The flags always make sense to the parking thread. It finds the
/// notification that it is about to consume.
pub proof fn law_valid(states: Seq<System>, moves: Seq<Move>, i: int)
    requires
        course(states, moves),
        0 <= i < states.len(),
    ensures
        !(states[i].at matches Some(At::End(End::Invalid))),
        states[i].at matches Some(At::ParkConsume { seen }) ==> states[i].state == seen,
{
    law_always(states, moves, i);
}

/// A park reports that the time is up only if no notification has come.
pub proof fn law_timed_out(s: System)
    requires
        s.inv(),
        s.enabled(Move::Step),
        s.after(Move::Step).at == Some(At::End(End::Parked(ParkResult::TimedOut))),
    ensures
        !s.state.unpark,
        s.sent == s.got,
{
}

} // verus!
