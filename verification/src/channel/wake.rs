//! No call is lost: a side of a channel that waits is called once there is
//! something for it to do.

use vstd::prelude::*;

use crate::channel::interleave::{Move, Side, System};
use crate::channel::state::State;
use crate::channel::step::{At, Call, End};

verus! {

/// One side's wish to be called.
pub struct Wish<W> {
    /// The waker that came with the operation.
    pub asked: Option<W>,
    /// That waker has been called since.
    pub called: bool,
    /// The operation is over, and has left the side to wait.
    pub waits: bool,
}

impl<W> Wish<W> {
    /// An operation starts.
    pub open spec fn begin(asked: Option<W>) -> Wish<W> {
        Wish { asked, called: false, waits: false }
    }

    /// A waker is called.
    pub open spec fn call(self, waker: Option<W>) -> Wish<W> {
        Wish { called: self.called || (waker is Some && waker == self.asked), ..self }
    }
}

/// A channel, its two sides, and what they wait for.
pub struct Watch<T, W> {
    /// The channel and its two sides.
    pub sys: System<T, W>,
    /// The writer's wish.
    pub writer: Wish<W>,
    /// The reader's wish.
    pub reader: Wish<W>,
}

impl<T, W> Watch<T, W> {
    /// A fresh channel.
    pub open spec fn init(self) -> bool {
        &&& self.sys.init()
        &&& self.writer == Wish::begin(None::<W>)
        &&& self.reader == Wish::begin(None::<W>)
    }

    /// The waker of its own that a side calls in its next step.
    pub open spec fn own_called(self, side: Side<T, W>, spurious: bool) -> Option<W> {
        match side {
            Side::Busy { call, at, local } => {
                let acts = self.sys.mem.step_at(call, at, spurious).0;
                if !acts.wake_own {
                    None
                } else if acts.reclaim_waker {
                    self.sys.mem.waker
                } else {
                    local.waker
                }
            },
            _ => None,
        }
    }

    /// The other side's waker that a side calls in its next step.
    pub open spec fn other_called(self, side: Side<T, W>, spurious: bool) -> Option<W> {
        match side {
            Side::Busy { call, at, local } => {
                let acts = self.sys.mem.step_at(call, at, spurious).0;
                if !acts.wake_taken {
                    None
                } else if acts.take_waker {
                    self.sys.mem.waker
                } else {
                    local.taken
                }
            },
            _ => None,
        }
    }

    /// The operation of the writer that is over has left it to wait.
    pub open spec fn writer_left(self) -> bool {
        match self.sys.writer {
            Side::Busy { call: Call::Write { waker, .. }, at: At::End(End::Sent), .. } => waker,
            Side::Busy { call: Call::Flush { .. }, at: At::End(End::Pending), .. } => true,
            _ => false,
        }
    }

    /// The operation of the reader that is over has left it to wait.
    pub open spec fn reader_left(self) -> bool {
        self.sys.reader.point() == Some(At::End(End::Pending))
    }

    /// What has become of it after a move.
    pub open spec fn after(self, m: Move<T, W>) -> Watch<T, W> {
        let next = Watch { sys: self.sys.after(m), ..self };
        match m {
            Move::Write { waker, .. } => Watch { writer: Wish::begin(waker), ..next },
            Move::Flush { own } => Watch { writer: Wish::begin(Some(own)), ..next },
            Move::WriterDetach => Watch { writer: Wish::begin(None::<W>), ..next },
            Move::Read { waker } => Watch { reader: Wish::begin(waker), ..next },
            Move::Cancel => Watch { reader: Wish::begin(None::<W>), ..next },
            Move::ReaderDetach => Watch { reader: Wish::begin(None::<W>), ..next },
            Move::WriterStep { spurious } => Watch {
                writer: self.writer.call(self.own_called(self.sys.writer, spurious)),
                reader: self.reader.call(self.other_called(self.sys.writer, spurious)),
                ..next
            },
            Move::ReaderStep { spurious } => Watch {
                reader: self.reader.call(self.own_called(self.sys.reader, spurious)),
                writer: self.writer.call(self.other_called(self.sys.reader, spurious)),
                ..next
            },
            Move::WriterEnd => Watch {
                writer: Wish { waits: self.writer_left(), ..self.writer },
                ..next
            },
            Move::ReaderEnd => Watch {
                reader: Wish { waits: self.reader_left(), ..self.reader },
                ..next
            },
        }
    }

    /// The writer waits to be told that its value has been read.
    pub open spec fn writer_waits(self) -> bool {
        self.writer_left() || (self.sys.writer is Idle && self.writer.waits)
    }

    /// The reader waits for a value, and does so with a waker.
    pub open spec fn reader_waits(self) -> bool {
        &&& self.reader_left() || (self.sys.reader is Idle && self.reader.waits)
        &&& self.reader.asked is Some
    }

    /// The writer's waker is stored beside the value, is about to be called by
    /// the reader, or has been called.
    pub open spec fn writer_served(self) -> bool {
        ||| self.writer.called
        ||| {
            &&& self.sys.mem.waker is Some
            &&& self.sys.mem.waker == self.writer.asked
            &&& self.sys.writers
            &&& self.sys.mem.state.active
            &&& self.sys.mem.state.loaded
            &&& !self.sys.mem.state.wlock
            &&& !self.sys.mem.state.rlock
        }
        ||| {
            &&& self.sys.reader matches Side::Busy { at, local, .. } && (at is ReadUnlock
                || at is DropUnlock) && local.taken is Some && local.taken == self.writer.asked
            &&& self.sys.mem.state.loaded
        }
    }

    /// The reader's waker is stored for the next value, is about to be called
    /// by the writer, or has been called.
    pub open spec fn reader_served(self) -> bool {
        ||| self.reader.called
        ||| {
            &&& self.sys.mem.waker is Some
            &&& self.sys.mem.waker == self.reader.asked
            &&& !self.sys.writers
            &&& self.sys.mem.state.active
            &&& !self.sys.mem.state.loaded
            &&& !self.sys.mem.state.wlock
        }
        ||| {
            &&& self.sys.writer matches Side::Busy { at, local, .. } && local.taken is Some
                && local.taken == self.reader.asked && match at {
                At::WriteStored { prev } => self.sys.mem.state == prev.union(
                    State::flags(false, true, true, false, true),
                ),
                At::WriteUnlock => true,
                At::DropUnlock => true,
                _ => false,
            }
        }
    }

    /// What holds of the writer's waker during an operation.
    pub open spec fn writer_own(self) -> bool {
        match self.sys.writer {
            Side::Busy { call, at, local } => {
                &&& local.waker is Some ==> local.waker == self.writer.asked
                &&& at is WriteStored || at is FlushStored ==> self.sys.mem.waker
                    == self.writer.asked
                &&& at is WriteRetract ==> local.waker is Some
            },
            _ => true,
        }
    }

    /// What holds of the reader's waker during an operation.
    pub open spec fn reader_own(self) -> bool {
        match self.sys.reader {
            Side::Busy { call, at, local } => {
                &&& local.waker is Some ==> local.waker == self.reader.asked
                &&& at is ReadBegin ==> local.waker == self.reader.asked
                &&& at is ReadStored ==> self.sys.mem.waker == self.reader.asked
                &&& self.reader.asked is Some && local.waker is None ==> match at {
                    At::ReadLock { .. } => self.sys.mem.state.loaded,
                    At::ReadWait { .. } | At::ReadForget => false,
                    _ => true,
                }
            },
            _ => true,
        }
    }

    /// What holds at all times.
    pub open spec fn inv(self) -> bool {
        &&& self.sys.inv()
        &&& self.writer_own()
        &&& self.reader_own()
        &&& self.writer_waits() ==> self.writer_served()
        &&& self.reader_waits() && (self.sys.once ==> self.sys.received.len() == 0)
            ==> self.reader_served()
    }
}

/// A fresh channel meets the invariant.
pub proof fn law_init<T, W>(w: Watch<T, W>)
    requires
        w.init(),
    ensures
        w.inv(),
{
    crate::channel::interleave::law_init(w.sys);
}

#[verifier::spinoff_prover]
#[verifier::rlimit(60)]
proof fn lemma_writer_step<T, W>(w: Watch<T, W>, spurious: bool)
    requires
        w.inv(),
        w.sys.may_begin(Move::WriterStep { spurious }),
    ensures
        w.after(Move::WriterStep { spurious }).inv(),
{
    crate::channel::interleave::law_writer_step(w.sys, spurious);
    let next = w.after(Move::WriterStep { spurious });
    assert(next.writer_own());
    assert(next.reader_own());
    assert(next.writer_waits() ==> next.writer_served());
}

#[verifier::spinoff_prover]
#[verifier::rlimit(60)]
proof fn lemma_reader_step<T, W>(w: Watch<T, W>, spurious: bool)
    requires
        w.inv(),
        w.sys.may_begin(Move::ReaderStep { spurious }),
    ensures
        w.after(Move::ReaderStep { spurious }).inv(),
{
    crate::channel::interleave::law_reader_step(w.sys, spurious);
    let next = w.after(Move::ReaderStep { spurious });
    assert(next.writer_own());
    assert(next.reader_own());
    assert(next.writer_waits() ==> next.writer_served());
}

/// Whatever happens next, the invariant holds on.
#[verifier::spinoff_prover]
#[verifier::rlimit(60)]
pub proof fn law_move<T, W>(w: Watch<T, W>, m: Move<T, W>)
    requires
        w.inv(),
        w.sys.may_begin(m),
    ensures
        w.after(m).inv(),
{
    crate::channel::interleave::law_move(w.sys, m);
    match m {
        Move::WriterStep { spurious } => {
            lemma_writer_step(w, spurious);
        },
        Move::ReaderStep { spurious } => {
            lemma_reader_step(w, spurious);
        },
        _ => {},
    }
}

/// A course of events: from a fresh channel on, each state follows from the one before by a move.
pub open spec fn course<T, W>(states: Seq<Watch<T, W>>, moves: Seq<Move<T, W>>) -> bool {
    &&& states.len() == moves.len() + 1
    &&& states[0].init()
    &&& forall|i: int|
        #![trigger moves[i]]
        0 <= i < moves.len() ==> states[i].sys.may_begin(moves[i]) && states[i + 1]
            == states[i].after(moves[i])
}

/// The invariant holds in every state of every course of events.
pub proof fn law_always<T, W>(states: Seq<Watch<T, W>>, moves: Seq<Move<T, W>>, i: int)
    requires
        course(states, moves),
        0 <= i < states.len(),
    ensures
        states[i].inv(),
    decreases i,
{
    if i == 0 {
        law_init(states[0]);
    } else {
        law_always(states, moves, i - 1);
        assert(states[i - 1].sys.may_begin(moves[i - 1]));
        law_move(states[i - 1], moves[i - 1]);
    }
}

/// A writer that waits for its value to be read is called: its waker is
/// stored beside the value, and once the value or the reader is gone it has
/// been called, or the reader has it in hand and calls it with its next step.
pub proof fn law_writer_called<T, W>(states: Seq<Watch<T, W>>, moves: Seq<Move<T, W>>, i: int)
    requires
        course(states, moves),
        0 <= i < states.len(),
        states[i].writer_waits(),
    ensures
        states[i].writer_served(),
        !states[i].sys.mem.state.loaded ==> states[i].writer.called,
        !states[i].sys.mem.state.active ==> states[i].writer.called,
{
    law_always(states, moves, i);
}

/// A reader that waits for a value is called: its waker is stored until there
/// is a value or the writer is gone, and then it has been called, or the writer
/// has it in hand and calls it with its next step. This is not so of a reader
/// that waits for more than the only value that will come.
pub proof fn law_reader_called<T, W>(states: Seq<Watch<T, W>>, moves: Seq<Move<T, W>>, i: int)
    requires
        course(states, moves),
        0 <= i < states.len(),
        states[i].reader_waits(),
        states[i].sys.once ==> states[i].sys.received.len() == 0,
    ensures
        states[i].reader_served(),
        states[i].sys.mem.state.loaded && !states[i].sys.mem.state.wlock
            ==> states[i].reader.called,
        !states[i].sys.mem.state.active ==> states[i].reader.called,
{
    law_always(states, moves, i);
}

} // verus!
