//! The two sides of a channel at work at the same time.
//!
//! A writer and a reader take their steps in any order, exchanges fail
//! spuriously or not, and no step waits for the other side. Either side may
//! detach at any time, and the reader may cancel. The cells are never used by
//! both at once, and no cell is emptied twice or filled twice. The values come
//! out once each, in the order in which they went in; one that the reader does
//! not take is handed back to the writer or dropped. A side is told that the
//! other one is gone only when the other one is done with the channel, and one
//! of them, not both, is told to free it.

use vstd::prelude::*;

use crate::channel::memory::{Local, Mem};
use crate::channel::state::State;
use crate::channel::step::{At, Call, End};

verus! {

/// What one side is doing.
pub enum Side<T, W> {
    /// Nothing at present.
    Idle,
    /// An operation.
    Busy { call: Call, at: At, local: Local<T, W> },
    /// Nothing any more. It may have been told that the other side was gone
    /// before, and has freed the channel then.
    Gone { told: bool },
}

/// The side that has detached first, if one has.
pub enum Left {
    /// Neither has.
    Nobody,
    /// The writer has.
    Writer,
    /// The reader has.
    Reader,
}

impl Left {
    /// The given side.
    pub open spec fn side(is_writer: bool) -> Left {
        if is_writer {
            Left::Writer
        } else {
            Left::Reader
        }
    }
}

/// A channel with the two sides at work on it.
pub struct System<T, W> {
    /// The writer sends a single value, and marks it as the last.
    pub once: bool,
    /// The shared memory.
    pub mem: Mem<T, W>,
    /// The stored waker, if there is one, is the writer's.
    pub writers: bool,
    /// The side that sends.
    pub writer: Side<T, W>,
    /// The side that receives.
    pub reader: Side<T, W>,
    /// The side that has detached first.
    pub left: Left,
    /// The values published so far.
    pub sent: Seq<T>,
    /// The values that the reader has taken so far.
    pub received: Seq<T>,
    /// The values that the writer has taken back so far.
    pub returned: Seq<T>,
    /// The values that have been dropped so far.
    pub dropped: Seq<T>,
}

/// Something that happens in the system.
pub enum Move<T, W> {
    /// The writer starts to write a value.
    Write { value: T, waker: Option<W> },
    /// The writer starts to flush.
    Flush { own: W },
    /// The writer starts to detach.
    WriterDetach,
    /// The writer takes a step.
    WriterStep { spurious: bool },
    /// The writer's operation is over.
    WriterEnd,
    /// The reader starts to read.
    Read { waker: Option<W> },
    /// The reader starts to cancel.
    Cancel,
    /// The reader starts to detach.
    ReaderDetach,
    /// The reader takes a step.
    ReaderStep { spurious: bool },
    /// The reader's operation is over.
    ReaderEnd,
}

impl<T, W> Side<T, W> {
    /// The point reached in the operation under way.
    pub open spec fn point(self) -> Option<At> {
        match self {
            Side::Busy { at, .. } => Some(at),
            _ => None,
        }
    }

    /// It will take no step any more in the operation under way, if there is one.
    pub open spec fn still(self) -> bool {
        self is Gone || (self.point() matches Some(at) && at is End)
    }

    /// The operation that is over has told the side that the other one is gone.
    pub open spec fn told(self) -> bool {
        self.point() matches Some(At::End(end)) && match end {
            End::Refused { dropped } => dropped,
            End::SentLast | End::Recovered | End::Returned => true,
            End::Flushed { dropped } => dropped,
            End::Got { dropped } => dropped,
            End::Empty { dropped } => dropped,
            End::Detached { last } => last,
            _ => false,
        }
    }

    /// The operation that is over was the side's last one.
    pub open spec fn parts(self) -> bool {
        self matches Side::Busy { call, at: At::End(end), .. } && match call {
            Call::Write { waker, finalize } => finalize && (!waker || self.told()),
            Call::Flush { finalize } => finalize && !(end is Pending),
            Call::Read { or_cancel, .. } => self.told() || (or_cancel && end is Empty),
            Call::Drop { .. } => true,
        }
    }

    /// The side after the operation under way.
    pub open spec fn ended(self) -> Side<T, W> {
        if self.parts() {
            Side::Gone { told: self.told() }
        } else {
            Side::Idle
        }
    }

    /// The channel is to be freed, or has been freed, by this side.
    pub open spec fn frees(self) -> bool {
        ||| self matches Side::Gone { told } && told
        ||| self.point() == Some(At::End(End::Detached { last: true }))
    }

    /// The writer has the value cell to itself: it has filled the cell and not said so yet.
    pub open spec fn fills_value(self) -> bool {
        self.point() matches Some(at) && (at is WriteFast || at is WriteLock)
    }

    /// The writer has the waker cell to itself.
    pub open spec fn writer_locks(self) -> bool {
        self.point() matches Some(at) && (at is WriteStored || at is WriteRetract
            || at is WriteUnlock || at is FlushStored || at is FlushRetract || at is DropUnlock)
    }

    /// The writer is about to take back the value that the reader has left.
    pub open spec fn recovers(self) -> bool {
        self.point() == Some(At::WriteLeft)
    }

    /// The reader has the value cell to itself: it has emptied the cell and not said so yet.
    pub open spec fn empties_value(self) -> bool {
        self.point() matches Some(at) && at is ReadUnlock
    }

    /// The reader has the waker cell to itself.
    pub open spec fn reader_locks(self) -> bool {
        self.point() matches Some(at) && (at is ReadStored || at is ReadRetract || at is ReadForget
            || (at matches At::ReadUnlock { unlock } && unlock.wlock) || at is DropUnlock)
    }

    /// The reader has announced itself.
    pub open spec fn reader_announced(self) -> bool {
        self.point() matches Some(at) && (at is ReadStored || at is ReadRetract || at is ReadForget
            || at is ReadUnlock)
    }
}

impl<T, W> System<T, W> {
    /// A fresh channel.
    pub open spec fn init(self) -> bool {
        &&& self.mem.state == State::flags(true, false, false, false, false)
        &&& self.mem.value is None
        &&& self.mem.waker is None
        &&& self.writer is Idle
        &&& self.reader is Idle
        &&& self.left is Nobody
        &&& self.sent == Seq::<T>::empty()
        &&& self.received == Seq::<T>::empty()
        &&& self.returned == Seq::<T>::empty()
        &&& self.dropped == Seq::<T>::empty()
    }

    /// The move can be made. A writer that sends once writes once.
    pub open spec fn may_begin(self, m: Move<T, W>) -> bool {
        match m {
            Move::Write { .. } => self.writer is Idle && (self.once ==> self.sent.len() == 0),
            Move::Flush { .. } => self.writer is Idle && self.sent.len() > 0,
            Move::WriterDetach => self.writer is Idle,
            Move::WriterStep { .. } => self.writer.point() matches Some(at) && !(at is End),
            Move::WriterEnd => self.writer.point() matches Some(at) && at is End,
            Move::Read { .. } => self.reader is Idle,
            Move::Cancel => self.reader is Idle,
            Move::ReaderDetach => self.reader is Idle,
            Move::ReaderStep { .. } => self.reader.point() matches Some(at) && !(at is End),
            Move::ReaderEnd => self.reader.point() matches Some(at) && at is End,
        }
    }

    /// The side's next step finds the cells as it needs them.
    pub open spec fn step_ok(self, side: Side<T, W>, spurious: bool) -> bool {
        side matches Side::Busy { call, at, local } ==> self.mem.after_op(
            call,
            at,
            spurious,
        ).acts_ok(self.mem.step_at(call, at, spurious).0, local)
    }

    /// A waker that the side's next step takes is the other side's; one that it
    /// takes back is its own, and so is one that it drops, unless the other side is gone.
    pub open spec fn wakers_ok(self, side: Side<T, W>, is_writer: bool, spurious: bool) -> bool {
        side matches Side::Busy { call, at, local } ==> {
            let acts = self.mem.step_at(call, at, spurious).0;
            &&& acts.take_waker ==> self.writers != is_writer
            &&& acts.reclaim_waker ==> self.writers == is_writer
            &&& acts.drop_waker ==> self.writers == is_writer || self.left == Left::side(!is_writer)
        }
    }

    /// The side after its next step.
    pub open spec fn side_after(self, side: Side<T, W>, spurious: bool) -> Side<T, W> {
        match side {
            Side::Busy { call, at, local } => Side::Busy {
                call,
                at: self.mem.step_at(call, at, spurious).1,
                local: self.mem.after_op(call, at, spurious).acts_local(
                    self.mem.step_at(call, at, spurious).0,
                    local,
                ),
            },
            _ => side,
        }
    }

    /// The memory after a side's next step.
    pub open spec fn mem_after(self, side: Side<T, W>, spurious: bool) -> Mem<T, W> {
        match side {
            Side::Busy { call, at, local } => self.mem.after_op(call, at, spurious).acts_mem(
                self.mem.step_at(call, at, spurious).0,
                local,
            ),
            _ => self.mem,
        }
    }

    /// The side's next step stores a waker.
    pub open spec fn stores_waker(self, side: Side<T, W>, spurious: bool) -> bool {
        side matches Side::Busy { call, at, local } && self.mem.step_at(
            call,
            at,
            spurious,
        ).0.store_waker
    }

    /// The side's next step moves a value out of the cell.
    pub open spec fn takes_value(self, side: Side<T, W>, spurious: bool) -> bool {
        self.mem.value is Some && self.mem_after(side, spurious).value is None
    }

    /// Who has detached first after a side's next step.
    pub open spec fn left_after(self, side: Side<T, W>, is_writer: bool, spurious: bool) -> Left {
        if self.mem.state.active && !self.mem_after(side, spurious).state.active {
            Left::side(is_writer)
        } else {
            self.left
        }
    }

    /// A side that starts an operation.
    pub open spec fn busy(call: Call, value: Option<T>, waker: Option<W>) -> Side<T, W> {
        Side::Busy { call, at: call.start(), local: Local { value, waker, taken: None } }
    }

    /// The system after a move.
    pub open spec fn after(self, m: Move<T, W>) -> System<T, W> {
        match m {
            Move::Write { value, waker } => System {
                writer: Self::busy(
                    Call::Write { waker: waker is Some, finalize: self.once },
                    Some(value),
                    waker,
                ),
                ..self
            },
            Move::Flush { own } => System {
                writer: Self::busy(Call::Flush { finalize: self.once }, None, Some(own)),
                ..self
            },
            Move::WriterDetach => System {
                writer: Self::busy(Call::Drop { is_writer: true }, None, None),
                ..self
            },
            Move::Read { waker } => System {
                reader: Self::busy(
                    Call::Read { waker: waker is Some, or_cancel: false },
                    None,
                    waker,
                ),
                ..self
            },
            Move::Cancel => System {
                reader: Self::busy(Call::Read { waker: false, or_cancel: true }, None, None),
                ..self
            },
            Move::ReaderDetach => System {
                reader: Self::busy(Call::Drop { is_writer: false }, None, None),
                ..self
            },
            Move::WriterStep { spurious } => {
                let taken = if self.takes_value(self.writer, spurious) {
                    seq![self.mem.value->0]
                } else {
                    Seq::empty()
                };
                let drops = self.writer matches Side::Busy { call, .. } && call is Drop;
                System {
                    mem: self.mem_after(self.writer, spurious),
                    writers: self.writers || self.stores_waker(self.writer, spurious),
                    writer: self.side_after(self.writer, spurious),
                    left: self.left_after(self.writer, true, spurious),
                    sent: if !self.mem.state.loaded && self.mem_after(
                        self.writer,
                        spurious,
                    ).state.loaded {
                        self.sent.push(self.mem.value->0)
                    } else {
                        self.sent
                    },
                    returned: if drops {
                        self.returned
                    } else {
                        self.returned + taken
                    },
                    dropped: if drops {
                        self.dropped + taken
                    } else {
                        self.dropped
                    },
                    ..self
                }
            },
            Move::ReaderStep { spurious } => {
                let taken = if self.takes_value(self.reader, spurious) {
                    seq![self.mem.value->0]
                } else {
                    Seq::empty()
                };
                let drops = self.reader matches Side::Busy { call, .. } && call is Drop;
                System {
                    mem: self.mem_after(self.reader, spurious),
                    writers: self.writers && !self.stores_waker(self.reader, spurious),
                    reader: self.side_after(self.reader, spurious),
                    left: self.left_after(self.reader, false, spurious),
                    received: if drops {
                        self.received
                    } else {
                        self.received + taken
                    },
                    dropped: if drops {
                        self.dropped + taken
                    } else {
                        self.dropped
                    },
                    ..self
                }
            },
            Move::WriterEnd => System { writer: self.writer.ended(), ..self },
            Move::ReaderEnd => System { reader: self.reader.ended(), ..self },
        }
    }

    /// What holds of the writer at the end of an operation.
    pub open spec fn writer_end(self, call: Call, end: End) -> bool {
        match end {
            End::Sent => call is Write && (self.left is Writer) == (self.once
                && !call->Write_waker),
            End::SentLast => call is Write && self.once && !call->Write_waker && self.left is Reader && self.mem.value is None,
            End::Refused { dropped } => call is Write && !(self.left is Writer) && (dropped
                ==> self.left is Reader) && (self.once ==> dropped && self.sent.len() == 0),
            End::Recovered => call is Write && self.left is Reader && self.mem.value is None,
            End::Flushed { dropped } => call is Flush && if dropped {
                self.left is Reader && self.mem.value is None
            } else {
                (self.left is Writer) == self.once
            },
            End::Returned => call is Flush && self.left is Reader && self.mem.value is None,
            End::Pending => call is Flush && !(self.left is Writer),
            End::Detached { last } => call is Drop && self.left == Left::side(!last),
            _ => false,
        }
    }

    /// What holds of the writer's own data at each point of its operation.
    pub open spec fn writer_inv(self) -> bool {
        match self.writer {
            Side::Busy { call, at, local } => {
                &&& match call {
                    Call::Write { finalize, .. } => finalize == self.once,
                    Call::Flush { finalize } => finalize == self.once,
                    Call::Drop { is_writer } => is_writer,
                    _ => false,
                }
                &&& !(at is End) ==> !(self.left is Writer)
                &&& match at {
                    At::WriteBegin => call is Write && local.value is Some && local.taken is None
                        && (local.waker is Some) == call->Write_waker && (self.once
                        ==> self.sent.len() == 0),
                    At::WriteSync => call is Write && self.left is Reader && (self.once
                        ==> self.sent.len() == 0),
                    At::WriteFast { seen } => call is Write && !call->Write_waker
                        && local.value is None && local.taken is None && local.waker is None
                        && seen.active && !seen.loaded && !seen.wake && (self.once ==> self.sent.len() == 0),
                    At::WriteLock => call is Write && local.value is None && local.taken is None
                        && (local.waker is Some) == call->Write_waker && (self.once
                        ==> self.sent.len() == 0),
                    At::WriteStored { prev } => call is Write && call->Write_waker
                        && local.value is None && local.waker is None && prev.active && !prev.rlock
                        && !prev.wlock && self.sent.len() > 0,
                    At::WriteRetract => call is Write && call->Write_waker && local.value is None
                        && self.sent.len() > 0,
                    At::WriteUnlock => call is Write && !call->Write_waker && local.value is None
                        && self.sent.len() > 0,
                    At::WriteFinal => call is Write && !call->Write_waker && self.once
                        && local.value is None && self.sent.len() > 0,
                    At::WriteLeft => call is Write && local.value is None && self.left is Reader && self.mem.state.loaded && self.sent.len() > 0,
                    At::FlushBegin => call is Flush && local.value is None && local.waker is Some
                        && self.sent.len() > 0,
                    At::FlushSync => call is Flush && !self.mem.state.loaded && self.sent.len() > 0,
                    At::FlushLeft => call is Flush && local.value is None && self.left is Reader && self.mem.state.loaded && self.sent.len() > 0,
                    At::FlushLock { prev } => call is Flush && local.value is None
                        && local.waker is Some && prev.active && prev.loaded && !prev.rlock
                        && !prev.wlock && self.sent.len() > 0,
                    At::FlushStored { prev } => call is Flush && local.value is None
                        && local.waker is None && prev.active && prev.loaded && !prev.rlock
                        && !prev.wlock && self.sent.len() > 0,
                    At::FlushRetract => call is Flush && local.value is None && local.waker is Some
                        && self.sent.len() > 0,
                    At::DropLock => call is Drop && local.value is None && local.taken is None
                        && local.waker is None,
                    At::DropMark { prev } => call is Drop && local.value is None
                        && local.taken is None && local.waker is None && prev.active && prev.wlock,
                    At::DropUnlock => call is Drop && local.value is None && local.waker is None,
                    At::End(end) => self.writer_end(call, end),
                    _ => false,
                }
            },
            Side::Idle => !(self.left is Writer),
            Side::Gone { told } => self.left == Left::side(!told),
        }
    }

    /// What holds of the reader at the end of an operation.
    pub open spec fn reader_end(self, call: Call, end: End) -> bool {
        match end {
            End::Got { dropped } => call is Read && if dropped {
                self.left is Writer && self.mem.value is None
            } else {
                !(self.left is Reader)
            },
            End::Empty { dropped } => call is Read && if dropped {
                self.left is Writer && self.mem.value is None && !self.mem.state.loaded
            } else {
                (self.left is Reader) == call->Read_or_cancel
            },
            End::Pending => call is Read && !call->Read_or_cancel && !(self.left is Reader),
            End::Detached { last } => call is Drop && self.left == Left::side(last),
            _ => false,
        }
    }

    /// What holds of the reader's own data at each point of its operation.
    pub open spec fn reader_inv(self) -> bool {
        match self.reader {
            Side::Busy { call, at, local } => {
                &&& match call {
                    Call::Read { waker, or_cancel } => or_cancel ==> !waker,
                    Call::Drop { is_writer } => !is_writer,
                    _ => false,
                }
                &&& !(at is End) ==> !(self.left is Reader)
                &&& match at {
                    At::ReadBegin => call is Read && local.value is None && local.taken is None && (
                    local.waker is Some) == call->Read_waker,
                    At::ReadTail { prev } => call is Read && local.value is None && self.mem.state
                        == prev && !prev.active && prev.loaded,
                    At::ReadLock { prev, waker } => call is Read && local.value is None
                        && local.taken is None && (local.waker is Some) == waker && prev.active
                        && prev.loaded && (call->Read_or_cancel ==> !waker),
                    At::ReadUnlock { unlock } => call is Read && local.value is Some && unlock
                        == State::flags(false, true, unlock.wlock, true, unlock.wlock),
                    At::ReadCancel { prev, waker } => call is Read && call->Read_or_cancel
                        && local.value is None && local.taken is None && local.waker is None
                        && !waker && prev.active && !prev.loaded,
                    At::ReadWait { prev, waker } => call is Read && !call->Read_or_cancel
                        && local.value is None && local.taken is None && (local.waker is Some)
                        == waker && prev.active && !prev.loaded && !prev.wlock && !prev.rlock,
                    At::ReadStored { prev } => call is Read && !call->Read_or_cancel
                        && local.value is None && local.taken is None && local.waker is None
                        && prev.active && !prev.loaded && !prev.wlock && !prev.rlock,
                    At::ReadRetract => call is Read && !call->Read_or_cancel && local.value is None
                        && local.taken is None && local.waker is None,
                    At::ReadForget => call is Read && !call->Read_or_cancel && local.value is None
                        && local.taken is None && local.waker is None,
                    At::DropLock => call is Drop && local.value is None && local.taken is None
                        && local.waker is None,
                    At::DropMark { prev } => call is Drop && local.value is None
                        && local.taken is None && local.waker is None && prev.active && prev.wlock,
                    At::DropUnlock => call is Drop && local.value is None && local.waker is None,
                    At::End(end) => self.reader_end(call, end),
                    _ => false,
                }
            },
            Side::Idle => !(self.left is Reader),
            Side::Gone { told } => self.left == Left::side(told),
        }
    }

    /// What holds of the locks.
    pub open spec fn lock_inv(self) -> bool {
        &&& !(self.writer.writer_locks() && self.reader.reader_locks())
        &&& !self.writer.recovers() ==> self.mem.state.wlock == (self.writer.writer_locks()
            || self.reader.reader_locks())
        &&& self.mem.state.rlock == self.reader.reader_announced()
    }

    /// What holds of the waker cell.
    pub open spec fn waker_inv(self) -> bool {
        let stored_w = self.writer.point() matches Some(at) && (at is WriteStored
            || at is FlushStored);
        let stored_r = self.reader.point() matches Some(at) && at is ReadStored;
        let emptied_w = (self.writer.writer_locks() && !stored_w) || self.writer.recovers();
        let emptied_r = self.reader.reader_locks() && !stored_r;
        let locked = self.writer.writer_locks() || self.reader.reader_locks();
        &&& stored_w ==> self.mem.waker is Some && self.writers && self.mem.state.wake
        &&& stored_r ==> self.mem.waker is Some && !self.writers && self.mem.state.wake
        &&& emptied_w || emptied_r ==> self.mem.waker is None
        &&& !locked && !self.writer.recovers() ==> self.mem.state.wake == (self.mem.waker is Some)
        &&& !locked && self.mem.waker is Some ==> self.writers == self.mem.state.loaded
        &&& self.reader.empties_value() && !self.writer.writer_locks() ==> self.mem.waker is None
        &&& (!self.mem.state.active || self.writer.point() == Some(At::WriteFinal))
            && self.mem.state.loaded && !stored_r && !stored_w ==> self.mem.waker is None
    }

    /// What holds of the value cell.
    pub open spec fn value_inv(self) -> bool {
        &&& self.writer.fills_value() ==> !self.mem.state.loaded
        &&& self.reader.empties_value() ==> self.mem.state.loaded && self.received.len() > 0
        &&& (self.mem.value is Some) == (self.writer.fills_value() || (self.mem.state.loaded
            && !self.reader.empties_value()))
    }

    /// The published value that is in the cell, if there is one.
    pub open spec fn in_transit(self) -> Seq<T> {
        if self.mem.value is Some && !self.writer.fills_value() {
            seq![self.mem.value->0]
        } else {
            Seq::empty()
        }
    }

    /// What has become of the values. Only the last one may not be received.
    pub open spec fn account(self) -> bool {
        &&& self.sent =~= self.received + self.returned + self.dropped + self.in_transit()
        &&& self.returned.len() + self.dropped.len() + self.in_transit().len() <= 1
        &&& self.returned.len() > 0 ==> self.left is Reader && !self.writer.fills_value()
        &&& self.dropped.len() > 0 ==> self.over()
    }

    /// One side has freed the channel, or is about to.
    pub open spec fn over(self) -> bool {
        self.writer.frees() || self.reader.frees()
    }

    /// The invariant of the system.
    pub open spec fn inv(self) -> bool {
        &&& self.mem.state.active == (self.left is Nobody)
        &&& self.writer_inv()
        &&& self.reader_inv()
        &&& self.account()
        &&& if self.over() {
            self.mem.value is None
        } else {
            &&& self.lock_inv()
            &&& self.waker_inv()
            &&& self.value_inv()
        }
    }
}

/// A fresh channel meets the invariant.
pub proof fn law_init<T, W>(sys: System<T, W>)
    requires
        sys.init(),
    ensures
        sys.inv(),
{
}

#[verifier::spinoff_prover]
#[verifier::rlimit(60)]
proof fn lemma_write_publish<T, W>(sys: System<T, W>, spurious: bool)
    requires
        sys.inv(),
        sys.writer.point() matches Some(at) && (at is WriteBegin || at is WriteSync || at is WriteFast),
    ensures
        sys.step_ok(sys.writer, spurious),
        sys.wakers_ok(sys.writer, true, spurious),
        sys.after(Move::WriterStep { spurious }).inv(),
{
    let next = sys.after(Move::WriterStep { spurious });
    assert(!sys.over());
    assert(next.mem.state.active == (next.left is Nobody));
    assert(next.writer_inv());
    assert(next.reader_inv());
    assert(next.account());
    if !next.over() {
        assert(next.lock_inv());
        assert(next.waker_inv());
        assert(next.value_inv());
    }
}

#[verifier::spinoff_prover]
#[verifier::rlimit(60)]
proof fn lemma_write_lock<T, W>(sys: System<T, W>, spurious: bool)
    requires
        sys.inv(),
        sys.writer.point() matches Some(at) && (at is WriteLock),
    ensures
        sys.step_ok(sys.writer, spurious),
        sys.wakers_ok(sys.writer, true, spurious),
        sys.after(Move::WriterStep { spurious }).inv(),
{
    let next = sys.after(Move::WriterStep { spurious });
    assert(!sys.over());
    assert(next.mem.state.active == (next.left is Nobody));
    assert(next.writer_inv());
    assert(next.reader_inv());
    assert(next.account());
    if !next.over() {
        assert(next.lock_inv());
        assert(next.waker_inv());
        assert(next.value_inv());
    }
}

#[verifier::spinoff_prover]
#[verifier::rlimit(60)]
proof fn lemma_write_unlock<T, W>(sys: System<T, W>, spurious: bool)
    requires
        sys.inv(),
        sys.writer.point() matches Some(at) && (at is WriteStored || at is WriteRetract || at is WriteUnlock || at is WriteFinal || at is WriteLeft),
    ensures
        sys.step_ok(sys.writer, spurious),
        sys.wakers_ok(sys.writer, true, spurious),
        sys.after(Move::WriterStep { spurious }).inv(),
{
    let next = sys.after(Move::WriterStep { spurious });
    assert(!sys.over());
    assert(next.mem.state.active == (next.left is Nobody));
    assert(next.writer_inv());
    assert(next.reader_inv());
    assert(next.account());
    if !next.over() {
        assert(next.lock_inv());
        assert(next.waker_inv());
        assert(next.value_inv());
    }
}

#[verifier::spinoff_prover]
#[verifier::rlimit(60)]
proof fn lemma_flush<T, W>(sys: System<T, W>, spurious: bool)
    requires
        sys.inv(),
        sys.writer.point() matches Some(at) && (at is FlushBegin || at is FlushSync || at is FlushLeft || at is FlushLock),
    ensures
        sys.step_ok(sys.writer, spurious),
        sys.wakers_ok(sys.writer, true, spurious),
        sys.after(Move::WriterStep { spurious }).inv(),
{
    let next = sys.after(Move::WriterStep { spurious });
    assert(!sys.over());
    assert(next.mem.state.active == (next.left is Nobody));
    assert(next.writer_inv());
    assert(next.reader_inv());
    assert(next.account());
    if !next.over() {
        assert(next.lock_inv());
        assert(next.waker_inv());
        assert(next.value_inv());
    }
}

#[verifier::spinoff_prover]
#[verifier::rlimit(60)]
proof fn lemma_flush_unlock<T, W>(sys: System<T, W>, spurious: bool)
    requires
        sys.inv(),
        sys.writer.point() matches Some(at) && (at is FlushStored || at is FlushRetract),
    ensures
        sys.step_ok(sys.writer, spurious),
        sys.wakers_ok(sys.writer, true, spurious),
        sys.after(Move::WriterStep { spurious }).inv(),
{
    let next = sys.after(Move::WriterStep { spurious });
    assert(!sys.over());
    assert(next.mem.state.active == (next.left is Nobody));
    assert(next.writer_inv());
    assert(next.reader_inv());
    assert(next.account());
    if !next.over() {
        assert(next.lock_inv());
        assert(next.waker_inv());
        assert(next.value_inv());
    }
}

#[verifier::spinoff_prover]
#[verifier::rlimit(60)]
proof fn lemma_writer_drop<T, W>(sys: System<T, W>, spurious: bool)
    requires
        sys.inv(),
        sys.writer.point() matches Some(at) && (at is DropLock || at is DropMark || at is DropUnlock),
    ensures
        sys.step_ok(sys.writer, spurious),
        sys.wakers_ok(sys.writer, true, spurious),
        sys.after(Move::WriterStep { spurious }).inv(),
{
    let next = sys.after(Move::WriterStep { spurious });
    assert(!sys.over());
    assert(next.mem.state.active == (next.left is Nobody));
    assert(next.writer_inv());
    assert(next.reader_inv());
    assert(next.account());
    if !next.over() {
        assert(next.lock_inv());
        assert(next.waker_inv());
        assert(next.value_inv());
    }
}

#[verifier::spinoff_prover]
#[verifier::rlimit(60)]
proof fn lemma_read<T, W>(sys: System<T, W>, spurious: bool)
    requires
        sys.inv(),
        sys.reader.point() matches Some(at) && (at is ReadBegin || at is ReadTail || at is ReadCancel),
    ensures
        sys.step_ok(sys.reader, spurious),
        sys.wakers_ok(sys.reader, false, spurious),
        sys.after(Move::ReaderStep { spurious }).inv(),
{
    let next = sys.after(Move::ReaderStep { spurious });
    assert(!sys.over());
    assert(next.mem.state.active == (next.left is Nobody));
    assert(next.writer_inv());
    assert(next.reader_inv());
    assert(next.account());
    if !next.over() {
        assert(next.lock_inv());
        assert(next.waker_inv());
        assert(next.value_inv());
    }
}

#[verifier::spinoff_prover]
#[verifier::rlimit(60)]
proof fn lemma_read_lock<T, W>(sys: System<T, W>, spurious: bool)
    requires
        sys.inv(),
        sys.reader.point() matches Some(at) && (at is ReadLock || at is ReadUnlock),
    ensures
        sys.step_ok(sys.reader, spurious),
        sys.wakers_ok(sys.reader, false, spurious),
        sys.after(Move::ReaderStep { spurious }).inv(),
{
    let next = sys.after(Move::ReaderStep { spurious });
    assert(!sys.over());
    assert(next.mem.state.active == (next.left is Nobody));
    assert(next.writer_inv());
    assert(next.reader_inv());
    assert(next.account());
    if !next.over() {
        assert(next.lock_inv());
        assert(next.waker_inv());
        assert(next.value_inv());
    }
}

#[verifier::spinoff_prover]
#[verifier::rlimit(60)]
proof fn lemma_read_wait<T, W>(sys: System<T, W>, spurious: bool)
    requires
        sys.inv(),
        sys.reader.point() matches Some(at) && (at is ReadWait || at is ReadStored),
    ensures
        sys.step_ok(sys.reader, spurious),
        sys.wakers_ok(sys.reader, false, spurious),
        sys.after(Move::ReaderStep { spurious }).inv(),
{
    let next = sys.after(Move::ReaderStep { spurious });
    assert(!sys.over());
    assert(next.mem.state.active == (next.left is Nobody));
    assert(next.writer_inv());
    assert(next.reader_inv());
    assert(next.account());
    if !next.over() {
        assert(next.lock_inv());
        assert(next.waker_inv());
        assert(next.value_inv());
    }
}

#[verifier::spinoff_prover]
#[verifier::rlimit(60)]
proof fn lemma_read_retract<T, W>(sys: System<T, W>, spurious: bool)
    requires
        sys.inv(),
        sys.reader.point() matches Some(at) && (at is ReadRetract || at is ReadForget),
    ensures
        sys.step_ok(sys.reader, spurious),
        sys.wakers_ok(sys.reader, false, spurious),
        sys.after(Move::ReaderStep { spurious }).inv(),
{
    let next = sys.after(Move::ReaderStep { spurious });
    assert(!sys.over());
    assert(next.mem.state.active == (next.left is Nobody));
    assert(next.writer_inv());
    assert(next.reader_inv());
    assert(next.account());
    if !next.over() {
        assert(next.lock_inv());
        assert(next.waker_inv());
        assert(next.value_inv());
    }
}

#[verifier::spinoff_prover]
#[verifier::rlimit(60)]
proof fn lemma_reader_drop<T, W>(sys: System<T, W>, spurious: bool)
    requires
        sys.inv(),
        sys.reader.point() matches Some(at) && (at is DropLock || at is DropMark || at is DropUnlock),
    ensures
        sys.step_ok(sys.reader, spurious),
        sys.wakers_ok(sys.reader, false, spurious),
        sys.after(Move::ReaderStep { spurious }).inv(),
{
    let next = sys.after(Move::ReaderStep { spurious });
    assert(!sys.over());
    assert(next.mem.state.active == (next.left is Nobody));
    assert(next.writer_inv());
    assert(next.reader_inv());
    assert(next.account());
    if !next.over() {
        assert(next.lock_inv());
        assert(next.waker_inv());
        assert(next.value_inv());
    }
}

/// Whatever the writer does next, it finds the cells as it needs them, and the invariant holds on.
pub proof fn law_writer_step<T, W>(sys: System<T, W>, spurious: bool)
    requires
        sys.inv(),
        sys.may_begin(Move::WriterStep { spurious }),
    ensures
        sys.step_ok(sys.writer, spurious),
        sys.wakers_ok(sys.writer, true, spurious),
        sys.after(Move::WriterStep { spurious }).inv(),
{
    let at = sys.writer.point()->0;
    if at is WriteBegin || at is WriteSync || at is WriteFast {
        lemma_write_publish(sys, spurious);
    } else if at is WriteLock {
        lemma_write_lock(sys, spurious);
    } else if at is WriteStored || at is WriteRetract || at is WriteUnlock || at is WriteFinal || at is WriteLeft {
        lemma_write_unlock(sys, spurious);
    } else if at is FlushBegin || at is FlushSync || at is FlushLeft || at is FlushLock {
        lemma_flush(sys, spurious);
    } else if at is FlushStored || at is FlushRetract {
        lemma_flush_unlock(sys, spurious);
    } else {
        lemma_writer_drop(sys, spurious);
    }
}

/// Whatever the reader does next, it finds the cells as it needs them, and the invariant holds on.
pub proof fn law_reader_step<T, W>(sys: System<T, W>, spurious: bool)
    requires
        sys.inv(),
        sys.may_begin(Move::ReaderStep { spurious }),
    ensures
        sys.step_ok(sys.reader, spurious),
        sys.wakers_ok(sys.reader, false, spurious),
        sys.after(Move::ReaderStep { spurious }).inv(),
{
    let at = sys.reader.point()->0;
    if at is ReadBegin || at is ReadTail || at is ReadCancel {
        lemma_read(sys, spurious);
    } else if at is ReadLock || at is ReadUnlock {
        lemma_read_lock(sys, spurious);
    } else if at is ReadWait || at is ReadStored {
        lemma_read_wait(sys, spurious);
    } else if at is ReadRetract || at is ReadForget {
        lemma_read_retract(sys, spurious);
    } else {
        lemma_reader_drop(sys, spurious);
    }
}

/// Whatever happens next, the invariant holds on.
#[verifier::spinoff_prover]
#[verifier::rlimit(40)]
pub proof fn law_move<T, W>(sys: System<T, W>, m: Move<T, W>)
    requires
        sys.inv(),
        sys.may_begin(m),
    ensures
        sys.after(m).inv(),
{
    match m {
        Move::WriterStep { spurious } => {
            law_writer_step(sys, spurious);
        },
        Move::ReaderStep { spurious } => {
            law_reader_step(sys, spurious);
        },
        _ => {},
    }
}

/// A course of events: from a fresh channel on, each state follows from the one before by a move.
pub open spec fn course<T, W>(states: Seq<System<T, W>>, moves: Seq<Move<T, W>>) -> bool {
    &&& states.len() == moves.len() + 1
    &&& states[0].init()
    &&& forall|i: int|
        #![trigger moves[i]]
        0 <= i < moves.len() ==> states[i].may_begin(moves[i]) && states[i + 1]
            == states[i].after(moves[i])
}

/// The invariant holds in every state of every course of events.
pub proof fn law_always<T, W>(states: Seq<System<T, W>>, moves: Seq<Move<T, W>>, i: int)
    requires
        course(states, moves),
        0 <= i < states.len(),
    ensures
        states[i].inv(),
    decreases i,
{
    if i == 0 {
        law_init(states[0]);
    } else {
        law_always(states, moves, i - 1);
        assert(states[i - 1].may_begin(moves[i - 1]));
        law_move(states[i - 1], moves[i - 1]);
    }
}

/// At no time do both sides use the value cell, nor the waker cell.
pub proof fn law_exclusive<T, W>(states: Seq<System<T, W>>, moves: Seq<Move<T, W>>, i: int)
    requires
        course(states, moves),
        0 <= i < states.len(),
    ensures
        !(states[i].writer.fills_value() && states[i].reader.empties_value()),
        !(states[i].writer.writer_locks() && states[i].reader.reader_locks()),
{
    law_always(states, moves, i);
}

/// The values come out in the order in which they were published, each of them
/// once, and at most one is in transit.
pub proof fn law_in_order<T, W>(states: Seq<System<T, W>>, moves: Seq<Move<T, W>>, i: int)
    requires
        course(states, moves),
        0 <= i < states.len(),
    ensures
        states[i].received.is_prefix_of(states[i].sent),
        states[i].sent.len() <= states[i].received.len() + 1,
{
    law_always(states, moves, i);
}

/// Every value that was published has been received, or handed back to the
/// writer, or dropped, or is still in transit, exactly one of these; and only
/// the last one can be other than received.
pub proof fn law_accounted<T, W>(states: Seq<System<T, W>>, moves: Seq<Move<T, W>>, i: int)
    requires
        course(states, moves),
        0 <= i < states.len(),
    ensures
        states[i].sent == states[i].received + states[i].returned + states[i].dropped
            + states[i].in_transit(),
        states[i].returned.len() + states[i].dropped.len() + states[i].in_transit().len() <= 1,
        states[i].over() ==> states[i].sent == states[i].received + states[i].returned
            + states[i].dropped,
{
    law_always(states, moves, i);
    let s = states[i];
    if s.over() {
        assert(s.sent =~= s.received + s.returned + s.dropped);
    }
}

/// A write never meets a word that makes no sense.
pub proof fn law_write_ends<T, W>(states: Seq<System<T, W>>, moves: Seq<Move<T, W>>, i: int)
    requires
        course(states, moves),
        0 <= i < states.len(),
    ensures
        states[i].writer.point() matches Some(At::End(end)) ==> !(end is Invalid),
{
    law_always(states, moves, i);
}

/// A value is taken back by the writer only when the reader is gone.
pub proof fn law_taken_back<T, W>(states: Seq<System<T, W>>, moves: Seq<Move<T, W>>, i: int)
    requires
        course(states, moves),
        0 <= i < states.len(),
        states[i].returned.len() > 0,
    ensures
        states[i].reader.still(),
        states[i].left is Reader,
{
    law_always(states, moves, i);
}

/// Between operations the channel is at rest, unless it has been freed: what
/// holds of an operation that is not interrupted holds of one that starts then.
pub proof fn law_at_rest<T, W>(states: Seq<System<T, W>>, moves: Seq<Move<T, W>>, i: int)
    requires
        course(states, moves),
        0 <= i < states.len(),
        states[i].writer.point() is None,
        states[i].reader.point() is None,
        !states[i].over(),
    ensures
        states[i].mem.quiet(),
{
    law_always(states, moves, i);
}

/// When a side is told that the other one is gone, the other one is done with
/// the channel: it takes no step any more, and the channel can be freed. The
/// other one is not told so.
pub proof fn law_told_last<T, W>(states: Seq<System<T, W>>, moves: Seq<Move<T, W>>, i: int)
    requires
        course(states, moves),
        0 <= i < states.len(),
    ensures
        states[i].reader.told() ==> states[i].writer.still() && !states[i].writer.told(),
        states[i].writer.told() ==> states[i].reader.still() && !states[i].reader.told(),
{
    law_always(states, moves, i);
}

/// When both sides are gone, exactly one of them has been told to free the channel.
pub proof fn law_freed_once<T, W>(states: Seq<System<T, W>>, moves: Seq<Move<T, W>>, i: int)
    requires
        course(states, moves),
        0 <= i < states.len(),
        states[i].writer is Gone,
        states[i].reader is Gone,
    ensures
        states[i].writer->told != states[i].reader->told,
{
    law_always(states, moves, i);
}

/// A reader that is told that there is nothing more to come has got every value
/// that was published.
pub proof fn law_nothing_left<T, W>(states: Seq<System<T, W>>, moves: Seq<Move<T, W>>, i: int)
    requires
        course(states, moves),
        0 <= i < states.len(),
        states[i].reader.point() == Some(At::End(End::Empty { dropped: true })),
    ensures
        states[i].received == states[i].sent,
{
    law_always(states, moves, i);
    let s = states[i];
    assert(s.sent =~= s.received);
}

} // verus!
