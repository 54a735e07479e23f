//! The operations on a channel, cut into steps.
//!
//! Each side works on the channel through atomic operations on the state word.
//! Between two of them it may touch the value cell and the waker cell. A step
//! is one atomic operation together with the cell accesses that follow it.
//! What the next step is depends on nothing but the operation, the point
//! reached in it, and the word that was seen.

use vstd::prelude::*;

use crate::channel::state::{Op, Seen, State};

verus! {

/// An operation on a channel, with the arguments that its control flow depends on.
#[derive(Copy, Clone, Debug, PartialEq, Eq, Structural)]
pub enum Call {
    /// Load a value, with or without a waker to be told when it has been read.
    Write { waker: bool, finalize: bool },
    /// Find out whether the loaded value has been read.
    Flush { finalize: bool },
    /// Take the loaded value, or leave a waker to be told when there is one.
    Read { waker: bool, or_cancel: bool },
    /// Detach one side.
    Drop { is_writer: bool },
}

/// A point in an operation. All but `End` name the atomic operation to come.
#[derive(Copy, Clone, Debug, PartialEq, Eq, Structural)]
pub enum At {
    /// Write: read the word.
    WriteBegin,
    /// Write: the reader has gone; synchronize with it before giving up.
    WriteSync,
    /// Write: no waker is involved; publish the value in one exchange.
    WriteFast { seen: State },
    /// Write: publish the value and lock the waker cell.
    WriteLock,
    /// Write: the writer's waker is stored; unlock the waker cell.
    WriteStored { prev: State },
    /// Write: the reader came first; give the waker cell back empty.
    WriteRetract,
    /// Write: there is no waker to leave; unlock the waker cell.
    WriteUnlock,
    /// Write: the reader holds the waker cell; the value is the last, so detach.
    WriteFinal,
    /// Write: the reader has gone and left the value.
    WriteLeft,
    /// Flush: read the word.
    FlushBegin,
    /// Flush: the value was read, and the waker cell is locked by this side.
    FlushReset { prev: State },
    /// Flush: the value was read.
    FlushSync,
    /// Flush: the reader has gone and left the value.
    FlushLeft,
    /// Flush: lock the waker cell.
    FlushLock { prev: State },
    /// Flush: the writer's waker is stored; unlock the waker cell.
    FlushStored { prev: State },
    /// Flush: the reader came first; give the waker cell back empty.
    FlushRetract,
    /// Read: read the word.
    ReadBegin,
    /// Read: the writer has gone and left a value.
    ReadTail { prev: State },
    /// Read: a value is there; lock the channel.
    ReadLock { prev: State, waker: bool },
    /// Read: the value has been moved out; clear the flags.
    ReadUnlock { unlock: State },
    /// Read: there is no value; detach.
    ReadCancel { prev: State, waker: bool },
    /// Read: there is no value; lock the waker cell.
    ReadWait { prev: State, waker: bool },
    /// Read: the reader's waker is stored; unlock the waker cell.
    ReadStored { prev: State },
    /// Read: the writer came first; give the waker cell back empty.
    ReadRetract,
    /// Read: there is no waker to leave; give the waker cell back empty.
    ReadForget,
    /// Drop: lock the waker cell.
    DropLock,
    /// Drop: unlock the waker cell and detach.
    DropUnlock,
    /// Drop: the other side holds the waker cell; detach while it does.
    DropMark { prev: State },
    /// The operation is over.
    End(End),
}

/// How an operation ends.
#[derive(Copy, Clone, Debug, PartialEq, Eq, Structural)]
pub enum End {
    /// Write: the value was loaded.
    Sent,
    /// Write: the value was never loaded. Either the reader is gone, or a value is there already.
    Refused { dropped: bool },
    /// Write: the last value was loaded, and the reader has taken it and gone.
    SentLast,
    /// Write: the reader went away, and the value was taken back.
    Recovered,
    /// Flush: the value was read.
    Flushed { dropped: bool },
    /// Flush: the reader went away, and the value was taken back.
    Returned,
    /// Flush or read: not yet.
    Pending,
    /// Read: a value was taken.
    Got { dropped: bool },
    /// Read: there was no value.
    Empty { dropped: bool },
    /// Drop: this side has detached. The last to do so frees the channel.
    Detached { last: bool },
    /// Write: the word made no sense.
    Invalid { state: State },
}

/// The cell accesses of a step, in the order in which they are performed.
#[derive(Copy, Clone, Debug, PartialEq, Eq, Structural)]
pub struct Acts {
    /// Drop the stored waker.
    pub drop_waker: bool,
    /// Take the stored waker, which is the other side's.
    pub take_waker: bool,
    /// Take the stored waker back, which is this side's own.
    pub reclaim_waker: bool,
    /// Store this side's own waker.
    pub store_waker: bool,
    /// Move the value into the cell.
    pub store_value: bool,
    /// Move the value out of the cell.
    pub load_value: bool,
    /// Drop the value in the cell.
    pub drop_value: bool,
    /// Call the waker that was taken, if one was.
    pub wake_taken: bool,
    /// Call this side's own waker, if there is one.
    pub wake_own: bool,
}

impl Acts {
    /// No cell is touched.
    pub open spec fn idle() -> Acts {
        Acts {
            drop_waker: false,
            take_waker: false,
            reclaim_waker: false,
            store_waker: false,
            store_value: false,
            load_value: false,
            drop_value: false,
            wake_taken: false,
            wake_own: false,
        }
    }

    /// Touch no cell.
    pub fn none() -> (acts: Acts)
        ensures
            acts == Acts::idle(),
    {
        Acts {
            drop_waker: false,
            take_waker: false,
            reclaim_waker: false,
            store_waker: false,
            store_value: false,
            load_value: false,
            drop_value: false,
            wake_taken: false,
            wake_own: false,
        }
    }
}

/// A word with the given flags.
fn flag_word(active: bool, loaded: bool, wlock: bool, rlock: bool, wake: bool) -> (state: State)
    ensures
        state == State::flags(active, loaded, wlock, rlock, wake),
{
    State { active, loaded, wlock, rlock, wake }
}

impl Call {
    /// Where a call begins.
    pub open spec fn start(self) -> At {
        match self {
            Call::Write { .. } => At::WriteBegin,
            Call::Flush { .. } => At::FlushBegin,
            Call::Read { .. } => At::ReadBegin,
            Call::Drop { .. } => At::DropLock,
        }
    }

    /// Where the call begins.
    pub fn begin(self) -> (at: At)
        ensures
            at == self.start(),
    {
        match self {
            Call::Write { .. } => At::WriteBegin,
            Call::Flush { .. } => At::FlushBegin,
            Call::Read { .. } => At::ReadBegin,
            Call::Drop { .. } => At::DropLock,
        }
    }

    fn finalize(self) -> (finalize: bool)
        ensures
            finalize == (match self {
                Call::Write { finalize, .. } => finalize,
                Call::Flush { finalize } => finalize,
                _ => false,
            }),
    {
        match self {
            Call::Write { finalize, .. } => finalize,
            Call::Flush { finalize } => finalize,
            _ => false,
        }
    }
}

impl At {
    /// The atomic operation that a point stands before.
    pub open spec fn op_at(self, call: Call) -> Op {
        let finalize = match call {
            Call::Write { finalize, .. } => finalize,
            Call::Flush { finalize } => finalize,
            _ => false,
        };
        match self {
            At::WriteBegin => Op::Load,
            At::WriteSync => Op::Load,
            At::WriteFast { seen } => Op::CasWeak {
                from: seen,
                to: State { loaded: true, active: seen.active && !finalize, ..seen },
            },
            At::WriteLock => Op::SetFlags(State::flags(false, true, true, false, true)),
            At::WriteStored { prev } => Op::Cas {
                from: State { loaded: true, wlock: true, wake: true, ..prev },
                to: State { loaded: true, wake: true, ..prev },
            },
            At::WriteRetract => Op::ClearFlags(State::flags(false, false, true, false, true)),
            At::WriteUnlock => Op::ClearFlags(State::flags(finalize, false, true, false, true)),
            At::WriteFinal => Op::ClearFlags(State::flags(true, false, false, false, false)),
            At::WriteLeft => Op::Store(State::flags(false, false, false, false, false)),
            At::FlushBegin => Op::Load,
            At::FlushReset { prev } => Op::ClearFlags(State::flags(finalize, false, true, false, true)),
            At::FlushSync => if finalize {
                Op::ClearFlags(State::flags(true, false, false, false, false))
            } else {
                Op::Load
            },
            At::FlushLeft => Op::Store(State::flags(false, false, false, false, false)),
            At::FlushLock { prev } => Op::CasWeak {
                from: prev,
                to: State { wlock: true, wake: true, ..prev },
            },
            At::FlushStored { prev } => Op::CasWeak {
                from: State { wlock: true, wake: true, ..prev },
                to: State { wake: true, ..prev },
            },
            At::FlushRetract => Op::ClearFlags(State::flags(false, false, true, false, true)),
            At::ReadBegin => Op::Load,
            At::ReadTail { prev } => Op::Swap(State { loaded: false, ..prev }),
            At::ReadLock { prev, waker } => Op::CasWeak {
                from: prev,
                to: State { rlock: true, wlock: true, ..prev },
            },
            At::ReadUnlock { unlock } => Op::ClearFlags(unlock),
            At::ReadCancel { prev, waker } => Op::Cas {
                from: prev,
                to: State { active: false, ..prev },
            },
            At::ReadWait { prev, waker } => Op::CasWeak {
                from: prev,
                to: State { rlock: true, wlock: true, wake: true, ..prev },
            },
            At::ReadStored { prev } => Op::Cas {
                from: State { rlock: true, wlock: true, wake: true, ..prev },
                to: State { wake: true, ..prev },
            },
            At::ReadRetract => Op::ClearFlags(State::flags(false, false, true, true, true)),
            At::ReadForget => Op::ClearFlags(State::flags(false, false, true, true, true)),
            At::DropLock => Op::SetFlags(State::flags(false, false, true, false, true)),
            At::DropUnlock => Op::ClearFlags(State::flags(true, false, true, false, true)),
            At::DropMark { prev } => Op::Cas {
                from: prev,
                to: State { active: false, ..prev },
            },
            At::End(_) => Op::Load,
        }
    }

    /// What a flush goes on to do when the word is `prev`, given whether it has
    /// locked the waker cell.
    pub open spec fn flush_turn(prev: State, locked: bool) -> (Acts, At) {
        if !prev.loaded && !prev.rlock {
            if locked {
                (Acts { drop_waker: prev.wake, ..Acts::idle() }, At::FlushReset { prev })
            } else {
                (Acts::idle(), At::FlushSync)
            }
        } else if !prev.active {
            (Acts::idle(), At::FlushLeft)
        } else if prev.rlock || prev.wlock {
            (Acts { wake_own: true, ..Acts::idle() }, At::End(End::Pending))
        } else if locked {
            (
                Acts { drop_waker: prev.wake, store_waker: true, ..Acts::idle() },
                At::FlushStored { prev },
            )
        } else {
            (Acts::idle(), At::FlushLock { prev })
        }
    }

    /// What a read goes on to do when the word is `prev`.
    pub open spec fn read_turn(or_cancel: bool, waker: bool, prev: State) -> (Acts, At) {
        if !prev.active {
            if prev.loaded {
                (Acts::idle(), At::ReadTail { prev })
            } else {
                (Acts::idle(), At::End(End::Empty { dropped: true }))
            }
        } else if prev.loaded {
            (Acts::idle(), At::ReadLock { prev, waker })
        } else if or_cancel {
            (Acts::idle(), At::ReadCancel { prev, waker })
        } else if waker || prev.wake {
            if prev.wlock {
                (Acts { wake_own: true, ..Acts::idle() }, At::End(End::Pending))
            } else {
                (Acts::idle(), At::ReadWait { prev, waker })
            }
        } else {
            (Acts::idle(), At::End(End::Empty { dropped: false }))
        }
    }

    /// The cell accesses that follow the atomic operation of a point, and the point after them.
    pub open spec fn step_at(self, call: Call, seen: Seen) -> (Acts, At) {
        let prev = seen.state;
        let (has_waker, finalize, or_cancel, is_writer) = match call {
            Call::Write { waker, finalize } => (waker, finalize, false, true),
            Call::Flush { finalize } => (true, finalize, false, true),
            Call::Read { waker, or_cancel } => (waker, false, or_cancel, false),
            Call::Drop { is_writer } => (false, false, false, is_writer),
        };
        match self {
            At::WriteBegin => if !prev.active {
                (Acts::idle(), At::WriteSync)
            } else if prev.loaded {
                (Acts::idle(), At::End(End::Refused { dropped: false }))
            } else if !has_waker && !prev.wake {
                (Acts { store_value: true, ..Acts::idle() }, At::WriteFast { seen: prev })
            } else {
                (Acts { store_value: true, ..Acts::idle() }, At::WriteLock)
            },
            At::WriteSync => (Acts::idle(), At::End(End::Refused { dropped: true })),
            At::WriteFast { seen: expected } => if seen.ok {
                (Acts::idle(), At::End(End::Sent))
            } else {
                (Acts::idle(), At::WriteLock)
            },
            At::WriteLock => if !prev.active {
                (Acts { drop_waker: prev.wake, ..Acts::idle() }, At::WriteLeft)
            } else if prev.wlock {
                if finalize && !has_waker {
                    (Acts::idle(), At::WriteFinal)
                } else {
                    (Acts { wake_own: true, ..Acts::idle() }, At::End(End::Sent))
                }
            } else if has_waker {
                (
                    Acts { take_waker: prev.wake, store_waker: true, ..Acts::idle() },
                    At::WriteStored { prev },
                )
            } else {
                (Acts { take_waker: prev.wake, ..Acts::idle() }, At::WriteUnlock)
            },
            At::WriteStored { prev: expected } => if seen.ok {
                (Acts { wake_taken: true, ..Acts::idle() }, At::End(End::Sent))
            } else if !prev.loaded || prev.rlock {
                (Acts { reclaim_waker: true, ..Acts::idle() }, At::WriteRetract)
            } else if !prev.active {
                (Acts { reclaim_waker: true, ..Acts::idle() }, At::WriteLeft)
            } else {
                (
                    Acts { reclaim_waker: true, ..Acts::idle() },
                    At::End(End::Invalid { state: prev }),
                )
            },
            At::WriteRetract => (Acts { wake_own: true, ..Acts::idle() }, At::End(End::Sent)),
            At::WriteUnlock => if prev.active {
                (Acts { wake_taken: true, ..Acts::idle() }, At::End(End::Sent))
            } else if prev.loaded {
                (Acts::idle(), At::WriteLeft)
            } else if finalize {
                (Acts::idle(), At::End(End::SentLast))
            } else {
                (Acts::idle(), At::End(End::Sent))
            },
            At::WriteFinal => if prev.active {
                (Acts::idle(), At::End(End::Sent))
            } else if prev.loaded {
                (Acts::idle(), At::WriteLeft)
            } else {
                (Acts::idle(), At::End(End::SentLast))
            },
            At::WriteLeft => (Acts { load_value: true, ..Acts::idle() }, At::End(End::Recovered)),
            At::FlushBegin => At::flush_turn(prev, false),
            At::FlushReset { prev: locked } => (
                Acts::idle(),
                At::End(End::Flushed { dropped: !locked.active }),
            ),
            At::FlushSync => (Acts::idle(), At::End(End::Flushed { dropped: !prev.active })),
            At::FlushLeft => (Acts { load_value: true, ..Acts::idle() }, At::End(End::Returned)),
            At::FlushLock { prev: expected } => if seen.ok {
                At::flush_turn(prev, true)
            } else if prev.wlock {
                (Acts { wake_own: true, ..Acts::idle() }, At::End(End::Pending))
            } else {
                At::flush_turn(prev, false)
            },
            At::FlushStored { prev: expected } => if seen.ok {
                (Acts::idle(), At::End(End::Pending))
            } else {
                (Acts { reclaim_waker: true, ..Acts::idle() }, At::FlushRetract)
            },
            At::FlushRetract => At::flush_turn(State { wlock: false, wake: false, ..prev }, false),
            At::ReadBegin => At::read_turn(or_cancel, has_waker, prev),
            At::ReadTail { prev: expected } => (
                Acts { load_value: true, ..Acts::idle() },
                At::End(End::Got { dropped: true }),
            ),
            At::ReadLock { prev: expected, waker } => if seen.ok {
                (
                    Acts { load_value: true, take_waker: prev.wake && !prev.wlock, ..Acts::idle() },
                    At::ReadUnlock {
                        unlock: State::flags(false, true, !prev.wlock, true, !prev.wlock),
                    },
                )
            } else {
                At::read_turn(or_cancel, waker, prev)
            },
            At::ReadUnlock { unlock } => (
                Acts { wake_taken: true, ..Acts::idle() },
                At::End(End::Got { dropped: !prev.active }),
            ),
            At::ReadCancel { prev: expected, waker } => if seen.ok {
                (Acts::idle(), At::End(End::Empty { dropped: false }))
            } else {
                At::read_turn(or_cancel, waker, prev)
            },
            At::ReadWait { prev: expected, waker } => if !seen.ok {
                At::read_turn(or_cancel, waker, prev)
            } else if waker {
                (
                    Acts { drop_waker: prev.wake, store_waker: true, ..Acts::idle() },
                    At::ReadStored { prev },
                )
            } else {
                (Acts { drop_waker: prev.wake, ..Acts::idle() }, At::ReadForget)
            },
            At::ReadStored { prev: expected } => if seen.ok {
                (Acts::idle(), At::End(End::Pending))
            } else {
                (Acts { drop_waker: true, ..Acts::idle() }, At::ReadRetract)
            },
            At::ReadRetract => At::read_turn(
                or_cancel,
                false,
                State { wlock: false, rlock: false, wake: false, ..prev },
            ),
            At::ReadForget => if prev.active && !prev.loaded {
                (Acts::idle(), At::End(End::Empty { dropped: false }))
            } else {
                At::read_turn(
                    or_cancel,
                    false,
                    State { wlock: false, rlock: false, wake: false, ..prev },
                )
            },
            At::DropLock => if !prev.active {
                (
                    Acts { drop_value: prev.loaded, drop_waker: prev.wake, ..Acts::idle() },
                    At::End(End::Detached { last: true }),
                )
            } else if prev.wlock {
                (Acts::idle(), At::DropMark { prev: State { wake: true, ..prev } })
            } else {
                let theirs = prev.loaded != is_writer;
                (
                    Acts {
                        take_waker: prev.wake && theirs,
                        drop_waker: prev.wake && !theirs,
                        ..Acts::idle()
                    },
                    At::DropUnlock,
                )
            },
            At::DropUnlock => (
                Acts { drop_value: !prev.active && prev.loaded, wake_taken: true, ..Acts::idle() },
                At::End(End::Detached { last: !prev.active }),
            ),
            At::DropMark { prev: expected } => if seen.ok {
                (Acts::idle(), At::End(End::Detached { last: false }))
            } else if !prev.active {
                (
                    Acts { drop_value: prev.loaded, drop_waker: prev.wake, ..Acts::idle() },
                    At::End(End::Detached { last: true }),
                )
            } else if prev.wlock {
                (Acts::idle(), At::DropMark { prev })
            } else {
                (Acts::idle(), At::DropLock)
            },
            At::End(end) => (Acts::idle(), At::End(end)),
        }
    }

    /// The atomic operation to perform next.
    pub fn op(self, call: Call) -> (op: Op)
        ensures
            op == self.op_at(call),
    {
        let finalize = call.finalize();
        match self {
            At::WriteBegin => Op::Load,
            At::WriteSync => Op::Load,
            At::WriteFast { seen } => Op::CasWeak {
                from: seen,
                to: State { loaded: true, active: seen.active && !finalize, ..seen },
            },
            At::WriteLock => Op::SetFlags(flag_word(false, true, true, false, true)),
            At::WriteStored { prev } => Op::Cas {
                from: State { loaded: true, wlock: true, wake: true, ..prev },
                to: State { loaded: true, wake: true, ..prev },
            },
            At::WriteRetract => Op::ClearFlags(flag_word(false, false, true, false, true)),
            At::WriteUnlock => Op::ClearFlags(flag_word(finalize, false, true, false, true)),
            At::WriteFinal => Op::ClearFlags(flag_word(true, false, false, false, false)),
            At::WriteLeft => Op::Store(State::done()),
            At::FlushBegin => Op::Load,
            At::FlushReset { .. } => Op::ClearFlags(flag_word(finalize, false, true, false, true)),
            At::FlushSync => {
                if finalize {
                    Op::ClearFlags(flag_word(true, false, false, false, false))
                } else {
                    Op::Load
                }
            },
            At::FlushLeft => Op::Store(State::done()),
            At::FlushLock { prev } => Op::CasWeak {
                from: prev,
                to: State { wlock: true, wake: true, ..prev },
            },
            At::FlushStored { prev } => Op::CasWeak {
                from: State { wlock: true, wake: true, ..prev },
                to: State { wake: true, ..prev },
            },
            At::FlushRetract => Op::ClearFlags(flag_word(false, false, true, false, true)),
            At::ReadBegin => Op::Load,
            At::ReadTail { prev } => Op::Swap(State { loaded: false, ..prev }),
            At::ReadLock { prev, .. } => Op::CasWeak {
                from: prev,
                to: State { rlock: true, wlock: true, ..prev },
            },
            At::ReadUnlock { unlock } => Op::ClearFlags(unlock),
            At::ReadCancel { prev, .. } => Op::Cas {
                from: prev,
                to: State { active: false, ..prev },
            },
            At::ReadWait { prev, .. } => Op::CasWeak {
                from: prev,
                to: State { rlock: true, wlock: true, wake: true, ..prev },
            },
            At::ReadStored { prev } => Op::Cas {
                from: State { rlock: true, wlock: true, wake: true, ..prev },
                to: State { wake: true, ..prev },
            },
            At::ReadRetract => Op::ClearFlags(flag_word(false, false, true, true, true)),
            At::ReadForget => Op::ClearFlags(flag_word(false, false, true, true, true)),
            At::DropLock => Op::SetFlags(flag_word(false, false, true, false, true)),
            At::DropUnlock => Op::ClearFlags(flag_word(true, false, true, false, true)),
            At::DropMark { prev } => Op::Cas { from: prev, to: State { active: false, ..prev } },
            At::End(_) => Op::Load,
        }
    }

    /// What to do with the cells once the atomic operation has reported `seen`,
    /// and the point reached then.
    pub fn next(self, call: Call, seen: Seen) -> (step: (Acts, At))
        ensures
            step == self.step_at(call, seen),
    {
        match self {
            At::WriteBegin | At::WriteSync | At::WriteFast { .. } | At::WriteLock
            | At::WriteStored { .. } | At::WriteRetract | At::WriteUnlock | At::WriteFinal
            | At::WriteLeft => {
                self.next_write(call, seen)
            },
            At::FlushBegin | At::FlushReset { .. } | At::FlushSync | At::FlushLeft
            | At::FlushLock { .. } | At::FlushStored { .. } | At::FlushRetract => {
                self.next_flush(call, seen)
            },
            At::DropLock | At::DropUnlock | At::DropMark { .. } => self.next_drop(call, seen),
            At::End(_) => (Acts::none(), self),
            _ => self.next_read(call, seen),
        }
    }

    fn next_write(self, call: Call, seen: Seen) -> (step: (Acts, At))
        requires
            self is WriteBegin || self is WriteSync || self is WriteFast || self is WriteLock
                || self is WriteStored || self is WriteRetract || self is WriteUnlock
                || self is WriteFinal || self is WriteLeft,
        ensures
            step == self.step_at(call, seen),
    {
        let prev = seen.state;
        let has_waker = match call {
            Call::Write { waker, .. } => waker,
            Call::Flush { .. } => true,
            Call::Read { waker, .. } => waker,
            Call::Drop { .. } => false,
        };
        let finalize = call.finalize();
        match self {
            At::WriteBegin => {
                if !prev.active {
                    return (Acts::none(), At::WriteSync);
                }
                if prev.loaded {
                    return (Acts::none(), At::End(End::Refused { dropped: false }));
                }
                let acts = Acts { store_value: true, ..Acts::none() };
                // fast path for no wakers
                if !has_waker && !prev.wake {
                    (acts, At::WriteFast { seen: prev })
                } else {
                    (acts, At::WriteLock)
                }
            },
            At::WriteSync => (Acts::none(), At::End(End::Refused { dropped: true })),
            At::WriteFast { .. } => {
                if seen.ok {
                    (Acts::none(), At::End(End::Sent))
                } else {
                    (Acts::none(), At::WriteLock)
                }
            },
            At::WriteLock => {
                if !prev.active {
                    // the reader has gone before it could see the value
                    (Acts { drop_waker: prev.wake, ..Acts::none() }, At::WriteLeft)
                } else if prev.wlock && finalize && !has_waker {
                    // the reader locked the waker. it will see the value when it unlocks,
                    // and has to see that it is the last
                    (Acts::none(), At::WriteFinal)
                } else if prev.wlock {
                    // the reader locked the waker. it will see the value when it unlocks
                    // and take it immediately. call our waker to proceed to a flush
                    (Acts { wake_own: true, ..Acts::none() }, At::End(End::Sent))
                } else if has_waker {
                    (
                        Acts { take_waker: prev.wake, store_waker: true, ..Acts::none() },
                        At::WriteStored { prev },
                    )
                } else {
                    (Acts { take_waker: prev.wake, ..Acts::none() }, At::WriteUnlock)
                }
            },
            At::WriteStored { .. } => {
                if seen.ok {
                    return (Acts { wake_taken: true, ..Acts::none() }, At::End(End::Sent));
                }
                // take back the waker we just stored
                let acts = Acts { reclaim_waker: true, ..Acts::none() };
                if !prev.loaded || prev.rlock {
                    (acts, At::WriteRetract)
                } else if !prev.active {
                    (acts, At::WriteLeft)
                } else {
                    (acts, At::End(End::Invalid { state: prev }))
                }
            },
            At::WriteRetract => (Acts { wake_own: true, ..Acts::none() }, At::End(End::Sent)),
            At::WriteUnlock => {
                if prev.active {
                    (Acts { wake_taken: true, ..Acts::none() }, At::End(End::Sent))
                } else if prev.loaded {
                    (Acts::none(), At::WriteLeft)
                } else if finalize {
                    (Acts::none(), At::End(End::SentLast))
                } else {
                    (Acts::none(), At::End(End::Sent))
                }
            },
            At::WriteFinal => {
                if prev.active {
                    (Acts::none(), At::End(End::Sent))
                } else if prev.loaded {
                    (Acts::none(), At::WriteLeft)
                } else {
                    (Acts::none(), At::End(End::SentLast))
                }
            },
            _ => (Acts { load_value: true, ..Acts::none() }, At::End(End::Recovered)),
        }
    }

    fn flush_from(prev: State, locked: bool) -> (step: (Acts, At))
        ensures
            step == At::flush_turn(prev, locked),
    {
        if !prev.loaded && !prev.rlock {
            // loaded value has been read
            if locked {
                (Acts { drop_waker: prev.wake, ..Acts::none() }, At::FlushReset { prev })
            } else {
                (Acts::none(), At::FlushSync)
            }
        } else if !prev.active {
            // reader dropped, leaving value
            (Acts::none(), At::FlushLeft)
        } else if prev.rlock || prev.wlock {
            // read in progress or reader about to drop, just call the waker
            (Acts { wake_own: true, ..Acts::none() }, At::End(End::Pending))
        } else if locked {
            (
                Acts { drop_waker: prev.wake, store_waker: true, ..Acts::none() },
                At::FlushStored { prev },
            )
        } else {
            (Acts::none(), At::FlushLock { prev })
        }
    }

    fn next_flush(self, call: Call, seen: Seen) -> (step: (Acts, At))
        requires
            self is FlushBegin || self is FlushReset || self is FlushSync || self is FlushLeft
                || self is FlushLock || self is FlushStored || self is FlushRetract,
        ensures
            step == self.step_at(call, seen),
    {
        let prev = seen.state;
        match self {
            At::FlushBegin => At::flush_from(prev, false),
            At::FlushReset { prev: locked } => {
                (Acts::none(), At::End(End::Flushed { dropped: !locked.active }))
            },
            At::FlushSync => (Acts::none(), At::End(End::Flushed { dropped: !prev.active })),
            At::FlushLeft => {
                (Acts { load_value: true, ..Acts::none() }, At::End(End::Returned))
            },
            At::FlushLock { .. } => {
                if seen.ok {
                    At::flush_from(prev, true)
                } else if prev.wlock {
                    // read in progress, just call the waker
                    (Acts { wake_own: true, ..Acts::none() }, At::End(End::Pending))
                } else {
                    // read completed or reader dropped, retry
                    At::flush_from(prev, false)
                }
            },
            At::FlushStored { .. } => {
                if seen.ok {
                    (Acts::none(), At::End(End::Pending))
                } else {
                    // reader started loading the value or dropped
                    (Acts { reclaim_waker: true, ..Acts::none() }, At::FlushRetract)
                }
            },
            _ => At::flush_from(State { wlock: false, wake: false, ..prev }, false),
        }
    }

    fn read_from(or_cancel: bool, waker: bool, prev: State) -> (step: (Acts, At))
        ensures
            step == At::read_turn(or_cancel, waker, prev),
    {
        if !prev.active {
            // writer dropped
            if prev.loaded {
                (Acts::none(), At::ReadTail { prev })
            } else {
                (Acts::none(), At::End(End::Empty { dropped: true }))
            }
        } else if prev.loaded {
            // value loaded, writer active
            (Acts::none(), At::ReadLock { prev, waker })
        } else if or_cancel {
            (Acts::none(), At::ReadCancel { prev, waker })
        } else if waker || prev.wake {
            if prev.wlock {
                // waker locked by writer
                (Acts { wake_own: true, ..Acts::none() }, At::End(End::Pending))
            } else {
                // a value was not yet loaded, try to store a waker
                (Acts::none(), At::ReadWait { prev, waker })
            }
        } else {
            (Acts::none(), At::End(End::Empty { dropped: false }))
        }
    }

    fn next_read(self, call: Call, seen: Seen) -> (step: (Acts, At))
        requires
            self is ReadBegin || self is ReadTail || self is ReadLock || self is ReadUnlock
                || self is ReadCancel || self is ReadWait || self is ReadStored
                || self is ReadRetract || self is ReadForget,
        ensures
            step == self.step_at(call, seen),
    {
        let prev = seen.state;
        let (has_waker, or_cancel) = match call {
            Call::Read { waker, or_cancel } => (waker, or_cancel),
            Call::Write { waker, .. } => (waker, false),
            Call::Flush { .. } => (true, false),
            Call::Drop { .. } => (false, false),
        };
        match self {
            At::ReadBegin => At::read_from(or_cancel, has_waker, prev),
            At::ReadTail { .. } => {
                (Acts { load_value: true, ..Acts::none() }, At::End(End::Got { dropped: true }))
            },
            At::ReadLock { waker, .. } => {
                if !seen.ok {
                    return At::read_from(or_cancel, waker, prev);
                }
                let unlock = flag_word(false, true, !prev.wlock, true, !prev.wlock);
                (
                    Acts { load_value: true, take_waker: prev.wake && !prev.wlock, ..Acts::none() },
                    At::ReadUnlock { unlock },
                )
            },
            At::ReadUnlock { .. } => (
                Acts { wake_taken: true, ..Acts::none() },
                At::End(End::Got { dropped: !prev.active }),
            ),
            At::ReadCancel { waker, .. } => {
                if seen.ok {
                    (Acts::none(), At::End(End::Empty { dropped: false }))
                } else {
                    At::read_from(or_cancel, waker, prev)
                }
            },
            At::ReadWait { waker, .. } => {
                if !seen.ok {
                    At::read_from(or_cancel, waker, prev)
                } else if waker {
                    // drop previous reader waker
                    (
                        Acts { drop_waker: prev.wake, store_waker: true, ..Acts::none() },
                        At::ReadStored { prev },
                    )
                } else {
                    (Acts { drop_waker: prev.wake, ..Acts::none() }, At::ReadForget)
                }
            },
            At::ReadStored { .. } => {
                if seen.ok {
                    (Acts::none(), At::End(End::Pending))
                } else {
                    // drop waker we just stored
                    (Acts { drop_waker: true, ..Acts::none() }, At::ReadRetract)
                }
            },
            At::ReadRetract => At::read_from(
                or_cancel,
                false,
                State { wlock: false, rlock: false, wake: false, ..prev },
            ),
            _ => {
                if prev.active && !prev.loaded {
                    (Acts::none(), At::End(End::Empty { dropped: false }))
                } else {
                    At::read_from(
                        or_cancel,
                        false,
                        State { wlock: false, rlock: false, wake: false, ..prev },
                    )
                }
            },
        }
    }

    fn next_drop(self, call: Call, seen: Seen) -> (step: (Acts, At))
        requires
            self is DropLock || self is DropUnlock || self is DropMark,
        ensures
            step == self.step_at(call, seen),
    {
        let prev = seen.state;
        let is_writer = match call {
            Call::Drop { is_writer } => is_writer,
            Call::Read { .. } => false,
            _ => true,
        };
        match self {
            At::DropLock => {
                if !prev.active {
                    // other side already dropped
                    return (
                        Acts { drop_value: prev.loaded, drop_waker: prev.wake, ..Acts::none() },
                        At::End(End::Detached { last: true }),
                    );
                }
                if prev.wlock {
                    return (Acts::none(), At::DropMark { prev: State { wake: true, ..prev } });
                }
                // call the waker if it is not ours, else clear it
                let theirs = prev.loaded != is_writer;
                (
                    Acts {
                        take_waker: prev.wake && theirs,
                        drop_waker: prev.wake && !theirs,
                        ..Acts::none()
                    },
                    At::DropUnlock,
                )
            },
            At::DropUnlock => (
                // other side may have beaten us to the drop
                Acts { drop_value: !prev.active && prev.loaded, wake_taken: true, ..Acts::none() },
                At::End(End::Detached { last: !prev.active }),
            ),
            _ => {
                if seen.ok {
                    // the other side will see that when it unlocks
                    (Acts::none(), At::End(End::Detached { last: false }))
                } else if !prev.active {
                    // other side beat us to the drop
                    (
                        Acts { drop_value: prev.loaded, drop_waker: prev.wake, ..Acts::none() },
                        At::End(End::Detached { last: true }),
                    )
                } else if prev.wlock {
                    (Acts::none(), At::DropMark { prev })
                } else {
                    (Acts::none(), At::DropLock)
                }
            },
        }
    }
}

} // verus!
