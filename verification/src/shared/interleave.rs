//! The owner of a shared value and any number of borrows at work at the same time.
//!
//! The owner and the borrows take their steps in any order, and exchanges
//! fail spuriously or not. The waker cell is never emptied or filled twice,
//! the owner is told that it has the value to itself only once every borrow
//! has been returned, no call for the owner is lost, and the value is freed
//! once, by whoever goes last.

use vstd::prelude::*;

use crate::shared::memory::Mem;
use crate::shared::step::{Acts, At, Call, End, MAX_REFCOUNT};

verus! {

/// What the owner is doing.
pub enum Owner<W> {
    /// Nothing at present. It may be waiting for the borrows to be returned.
    Idle { waits: bool },
    /// An operation.
    Busy { waits: bool, call: Call, at: At, own: Option<W> },
    /// It is gone.
    Gone,
}

/// A borrow that has found itself to be the last one, and is telling the owner.
pub enum Teller {
    /// There is none.
    Absent,
    /// It is not counted any more.
    Uncounted,
    /// The owner has given up waiting meanwhile: it is counted again.
    Counted,
}

/// A shared value with the parties at work on it.
pub struct System<W> {
    /// The memory beside the value.
    pub mem: Mem<W>,
    /// The value has been freed.
    pub freed: bool,
    /// How many borrows are out, apart from the teller.
    pub held: nat,
    /// The borrow that is telling the owner.
    pub teller: Teller,
    /// The owner.
    pub owner: Owner<W>,
    /// The waker that the owner last came to wait with.
    pub asked: Option<W>,
}

/// Something that happens in the system.
pub enum Move<W> {
    /// The owner hands out a borrow.
    Borrow,
    /// A borrow is cloned.
    Clone,
    /// A borrow is returned: it is discounted.
    Return,
    /// The last borrow, having called the owner, lets it go on.
    Tell,
    /// The owner starts an operation.
    Begin { call: Call, own: Option<W> },
    /// The owner takes a step.
    Step { spurious: bool },
    /// The owner's operation is over.
    End,
}

impl<W> System<W> {
    /// A value that has just been shared.
    pub open spec fn init(self) -> bool {
        &&& self.mem.owned(0)
        &&& !self.freed
        &&& self.held == 0
        &&& self.teller is Absent
        &&& self.owner == Owner::<W>::Idle { waits: false }
    }

    /// How many borrows the counter counts.
    pub open spec fn counted(self) -> nat {
        if self.teller is Counted {
            self.held + 1
        } else {
            self.held
        }
    }

    /// No borrow is left.
    pub open spec fn all_returned(self) -> bool {
        self.held == 0 && self.teller is Absent
    }

    /// The owner has nothing more to do with the value.
    pub open spec fn owner_left(self) -> bool {
        match self.owner {
            Owner::Gone => true,
            Owner::Busy { at: At::End(end), .. } => end is Free || end is Kept || end is HandedOver,
            _ => false,
        }
    }

    /// The owner may start the operation.
    pub open spec fn may_call(self, call: Call, own: Option<W>) -> bool {
        self.owner matches Owner::Idle { waits } && match call {
            Call::IncCountRef | Call::DecCountRef => false,
            Call::TryCollect { pending } => pending == waits,
            Call::StartPoll => !waits && own is Some,
            Call::ResumePoll => waits && own is Some,
            Call::CancelPoll { reset } => waits && reset,
            Call::DropLender { pending } => pending == waits,
        }
    }

    /// The move can be made.
    pub open spec fn enabled(self, m: Move<W>) -> bool {
        match m {
            Move::Borrow => self.owner == (Owner::<W>::Idle { waits: false }) && self.mem.count
                <= MAX_REFCOUNT,
            Move::Clone => self.held > 0 && self.mem.count <= MAX_REFCOUNT,
            Move::Return => self.held > 0,
            Move::Tell => !(self.teller is Absent),
            Move::Begin { call, own } => self.may_call(call, own),
            Move::Step { .. } => self.owner matches Owner::Busy { at, .. } && !(at is End),
            Move::End => self.owner matches Owner::Busy { at, .. } && at is End,
        }
    }

    /// A step of a borrow, as `(accesses, next point, memory)`.
    pub open spec fn borrow_step(self, call: Call, at: At) -> (Acts, At, Mem<W>) {
        let (acts, next) = self.mem.step_at(call, at, false);
        (acts, next, self.mem.after_op(call, at, false).acts_mem(acts, None))
    }

    /// The step of the move finds the value alive and the waker cell as it needs it.
    pub open spec fn safe(self, m: Move<W>) -> bool {
        match m {
            Move::Borrow | Move::Clone => !self.freed,
            Move::Return => {
                let (acts, next, mem) = self.borrow_step(Call::DecCountRef, At::DecBegin);
                &&& !self.freed
                &&& self.mem.after_op(Call::DecCountRef, At::DecBegin, false).acts_ok(acts, None)
                &&& next matches At::End(End::Free) ==> mem.waker is None && self.held == 1
                    && self.teller is Absent && self.owner_left()
            },
            Move::Tell => !self.freed,
            Move::Step { spurious } => self.owner matches Owner::Busy { call, at, own, .. } ==> {
                let (acts, next) = self.mem.step_at(call, at, spurious);
                let met = self.mem.after_op(call, at, spurious);
                &&& !self.freed
                &&& met.acts_ok(acts, own)
                &&& !(next matches At::End(End::Invalid))
                &&& !(next matches At::End(End::Overflow))
                &&& next matches At::End(End::Free) ==> met.acts_mem(acts, own).waker is None
                    && self.all_returned()
            },
            _ => true,
        }
    }

    /// The system after a move.
    pub open spec fn after(self, m: Move<W>) -> System<W> {
        match m {
            Move::Borrow | Move::Clone => System {
                mem: self.borrow_step(Call::IncCountRef, At::IncBegin).2,
                held: self.held + 1,
                ..self
            },
            Move::Return => {
                let (acts, next, mem) = self.borrow_step(Call::DecCountRef, At::DecBegin);
                System {
                    mem,
                    freed: self.freed || next == At::End(End::Free),
                    held: (self.held - 1) as nat,
                    teller: if next is DecNotify {
                        Teller::Uncounted
                    } else {
                        self.teller
                    },
                    ..self
                }
            },
            Move::Tell => {
                let (acts, next, mem) = self.borrow_step(Call::DecCountRef, At::DecNotify);
                System {
                    mem,
                    held: if next is End {
                        self.held
                    } else {
                        self.held + 1
                    },
                    teller: Teller::Absent,
                    ..self
                }
            },
            Move::Begin { call, own } => match self.owner {
                Owner::Idle { waits } => System {
                    owner: Owner::Busy { waits, call, at: call.start(), own },
                    ..self
                },
                _ => self,
            },
            Move::Step { spurious } => match self.owner {
                Owner::Busy { waits, call, at, own } => {
                    let (acts, next) = self.mem.step_at(call, at, spurious);
                    let met = self.mem.after_op(call, at, spurious);
                    System {
                        mem: met.acts_mem(acts, own),
                        freed: self.freed || next == At::End(End::Free),
                        held: self.held,
                        teller: if at is CancelNotify && at.op_at(call).seen(
                            self.mem.count,
                            spurious,
                        ).ok {
                            Teller::Counted
                        } else {
                            self.teller
                        },
                        owner: Owner::Busy { waits, call, at: next, own: met.acts_own(acts, own) },
                        asked: if acts.store_waker || acts.wake_own {
                            own
                        } else {
                            self.asked
                        },
                    }
                },
                _ => self,
            },
            Move::End => match self.owner {
                Owner::Busy { waits, call, at: At::End(end), .. } => System {
                    owner: match end {
                        End::Free | End::Kept | End::HandedOver => Owner::Gone,
                        End::Ready | End::Cancelled { .. } => Owner::Idle { waits: false },
                        End::Pending => Owner::Idle { waits: waits || call is StartPoll },
                        _ => Owner::Idle { waits },
                    },
                    ..self
                },
                _ => self,
            },
        }
    }

    /// The owner counts in full.
    pub open spec fn owned(self) -> bool {
        &&& self.mem.count == 3 + 2 * self.counted()
        &&& self.mem.waker is None
        &&& !(self.teller is Uncounted)
    }

    /// The owner counts in full, and its waker is stored.
    pub open spec fn holding(self) -> bool {
        &&& self.mem.count == 3 + 2 * self.counted()
        &&& self.mem.waker is Some
        &&& self.mem.waker == self.asked
        &&& !(self.teller is Uncounted)
    }

    /// The owner's waker has been called.
    pub open spec fn called(self) -> bool {
        &&& self.asked is Some
        &&& self.mem.woken.len() > 0
        &&& self.mem.woken.last() == self.asked->0
    }

    /// All borrows have been returned, and the owner has not noticed yet.
    pub open spec fn returned(self) -> bool {
        self.mem.returned() && self.all_returned()
    }

    /// The owner waits: for borrows, for the last one to let it go on, or no more.
    pub open spec fn waiting(self) -> bool {
        ||| {
            &&& self.counted() > 0
            &&& self.mem.count == 1 + 2 * self.counted()
            &&& self.mem.waker is Some
            &&& self.mem.waker == self.asked
            &&& !(self.teller is Uncounted)
        }
        ||| {
            &&& self.held == 0
            &&& self.teller is Uncounted
            &&& self.mem.count == 1
            &&& self.mem.waker is None
            &&& self.called()
        }
        ||| self.returned() && self.called()
    }

    /// The owner is gone.
    pub open spec fn orphaned(self) -> bool {
        &&& !(self.teller is Uncounted)
        &&& self.mem.waker is None
        &&& if self.freed {
            self.all_returned()
        } else {
            self.counted() > 0 && self.mem.count == 2 * self.counted()
        }
    }

    /// No borrow is left, and the owner's count has been taken away.
    pub open spec fn alone(self) -> bool {
        self.all_returned() && self.mem.count == 1 && self.mem.waker is None
    }

    /// The phase that the owner is in, if it waits or does not wait.
    pub open spec fn phase(self, waits: bool) -> bool {
        if waits {
            self.waiting()
        } else {
            self.owned()
        }
    }

    /// What holds at all times.
    pub open spec fn inv(self) -> bool {
        &&& 2 * self.counted() <= MAX_REFCOUNT + 2
        &&& match self.owner {
            Owner::Idle { waits } => !self.freed && self.phase(waits),
            Owner::Gone => self.orphaned(),
            Owner::Busy { waits, call, at, own } => {
                &&& !(at is End) ==> !self.freed
                &&& match at {
                    At::TryBegin => call == (Call::TryCollect { pending: waits }) && self.phase(
                        waits,
                    ),
                    At::TrySwap => call is TryCollect && waits && self.returned(),
                    At::StartBegin => call is StartPoll && !waits && own is Some && self.owned(),
                    At::StartRelease => call is StartPoll && !waits && self.holding(),
                    At::StartReset => call is StartPoll && !waits && self.alone(),
                    At::ResumeBegin => call is ResumePoll && waits && own is Some && self.waiting(),
                    At::ResumeHold { count } => call is ResumePoll && waits && own is Some && count
                        > 2 && count <= MAX_REFCOUNT + 4 && self.waiting(),
                    At::ResumeRelease => call is ResumePoll && waits && self.holding(),
                    At::ResumeReset => call is ResumePoll && waits && (self.returned()
                        || self.alone()),
                    At::CancelBegin => self.cancels(call, waits) && self.waiting(),
                    At::CancelReset => self.cancels(call, waits) && call.resets()
                        && self.returned(),
                    At::CancelNotify => self.cancels(call, waits) && self.waiting(),
                    At::CancelHold { count } => self.cancels(call, waits) && count > 2 && count
                        <= MAX_REFCOUNT + 4 && self.waiting(),
                    At::DropRelease => call is DropLender && self.owned(),
                    At::End(end) => match end {
                        End::Ready => !self.freed && self.all_returned() && self.owned(),
                        End::Pending => !self.freed && match call {
                            Call::TryCollect { .. } => self.phase(waits),
                            Call::StartPoll => self.waiting(),
                            Call::ResumePoll => waits && self.waiting(),
                            _ => false,
                        },
                        End::Cancelled { .. } => !self.freed && self.owned(),
                        End::Free => self.freed && self.orphaned(),
                        End::Kept => self.orphaned(),
                        End::HandedOver => self.orphaned(),
                        _ => false,
                    },
                    _ => false,
                }
            },
        }
    }

    /// The call stops a wait.
    pub open spec fn cancels(self, call: Call, waits: bool) -> bool {
        &&& waits
        &&& match call {
            Call::CancelPoll { reset } => reset,
            Call::DropLender { pending } => pending,
            _ => false,
        }
    }
}

/// A fresh value is in order.
pub proof fn law_init<W>(s: System<W>)
    requires
        s.init(),
    ensures
        s.inv(),
{
}

/// Whatever the borrows do next is safe, and leaves everything in order.
pub proof fn law_borrow_move<W>(s: System<W>, m: Move<W>)
    requires
        s.inv(),
        s.enabled(m),
        m is Borrow || m is Clone || m is Return || m is Tell,
    ensures
        s.safe(m),
        s.after(m).inv(),
{
    assert(!s.freed ==> s.mem.count <= MAX_REFCOUNT + 5);
}

/// Whatever the owner does next is safe, and leaves everything in order.
pub proof fn law_owner_move<W>(s: System<W>, m: Move<W>)
    requires
        s.inv(),
        s.enabled(m),
        m is Begin || m is Step || m is End,
    ensures
        s.safe(m),
        s.after(m).inv(),
{
    assert(!s.freed ==> s.mem.count <= MAX_REFCOUNT + 5);
}

/// A course of events: from a value that has just been shared on, each state
/// follows from the one before by a move.
pub open spec fn course<W>(states: Seq<System<W>>, moves: Seq<Move<W>>) -> bool {
    &&& states.len() == moves.len() + 1
    &&& states[0].init()
    &&& forall|i: int|
        #![trigger moves[i]]
        0 <= i < moves.len() ==> states[i].enabled(moves[i]) && states[i + 1] == states[i].after(
            moves[i],
        )
}

/// The invariant holds in every state of every course of events.
pub proof fn law_always<W>(states: Seq<System<W>>, moves: Seq<Move<W>>, i: int)
    requires
        course(states, moves),
        0 <= i < states.len(),
    ensures
        states[i].inv(),
    decreases i,
{
    if i == 0 {
        law_init(states[0]);
    } else {
        law_always(states, moves, i - 1);
        let before = states[i - 1];
        let m = moves[i - 1];
        assert(before.enabled(m));
        if m is Begin || m is Step || m is End {
            law_owner_move(before, m);
        } else {
            law_borrow_move(before, m);
        }
    }
}

/// No step ever meets a value that has been freed, nor a waker cell that is
/// not as it should be.
pub proof fn law_safe<W>(states: Seq<System<W>>, moves: Seq<Move<W>>, i: int)
    requires
        course(states, moves),
        0 <= i < moves.len(),
    ensures
        states[i].safe(moves[i]),
{
    law_always(states, moves, i);
    let m = moves[i];
    if m is Begin || m is Step || m is End {
        law_owner_move(states[i], m);
    } else {
        law_borrow_move(states[i], m);
    }
}

/// The owner is told that it has the value to itself only when every borrow
/// has been returned.
pub proof fn law_ready<W>(states: Seq<System<W>>, moves: Seq<Move<W>>, i: int)
    requires
        course(states, moves),
        0 <= i < states.len(),
    ensures
        (states[i].owner matches Owner::Busy { at: At::End(End::Ready), .. })
            ==> states[i].all_returned(),
{
    law_always(states, moves, i);
}

/// No call for the owner is lost: an owner that waits has its waker stored
/// for the borrows that are out, or its waker has been called.
pub proof fn law_called<W>(states: Seq<System<W>>, moves: Seq<Move<W>>, i: int)
    requires
        course(states, moves),
        0 <= i < states.len(),
        states[i].owner == (Owner::<W>::Idle { waits: true }),
    ensures
        states[i].asked is Some,
        states[i].called() || (states[i].counted() > 0 && states[i].mem.waker == states[i].asked),
        states[i].held == 0 && !(states[i].teller is Counted) ==> states[i].called(),
{
    law_always(states, moves, i);
}

/// The value is freed by whoever goes last, and by nobody before.
pub proof fn law_freed<W>(states: Seq<System<W>>, moves: Seq<Move<W>>, i: int)
    requires
        course(states, moves),
        0 <= i < states.len(),
    ensures
        states[i].freed == (states[i].owner_left() && states[i].all_returned()),
{
    law_always(states, moves, i);
}

/// Once the value has been freed, nobody touches it any more.
pub proof fn law_freed_once<W>(states: Seq<System<W>>, moves: Seq<Move<W>>, i: int)
    requires
        course(states, moves),
        0 <= i < moves.len(),
        states[i].freed,
    ensures
        moves[i] is End,
        states[i + 1].freed,
{
    law_always(states, moves, i);
    assert(states[i].enabled(moves[i]));
}

} // verus!
