//! The flags that a parked thread and its notifiers share.

use vstd::prelude::*;

verus! {

/// No flag is set.
pub const STATE_FREE: usize = 0b0000;

/// The lock has been initialised.
pub const STATE_INIT: usize = 0b0001;

/// The parker is in use by a thread.
pub const STATE_HELD: usize = 0b0010;

/// The thread is about to wait, or waits.
pub const STATE_PARK: usize = 0b0100;

/// The thread has been notified.
pub const STATE_UNPARK: usize = 0b1000;

/// The flags.
#[derive(Copy, Clone, Debug, PartialEq, Eq, Structural)]
pub struct ParkState {
    /// The lock has been initialised.
    pub init: bool,
    /// The parker is in use by a thread.
    pub held: bool,
    /// The thread is about to wait, or waits.
    pub park: bool,
    /// The thread has been notified.
    pub unpark: bool,
}

impl ParkState {
    /// The flags by name.
    pub open spec fn flags(init: bool, held: bool, park: bool, unpark: bool) -> ParkState {
        ParkState { init, held, park, unpark }
    }

    /// The flags of both.
    pub open spec fn union(self, other: ParkState) -> ParkState {
        ParkState {
            init: self.init || other.init,
            held: self.held || other.held,
            park: self.park || other.park,
            unpark: self.unpark || other.unpark,
        }
    }

    /// The flags of the one that the other has not.
    pub open spec fn minus(self, other: ParkState) -> ParkState {
        ParkState {
            init: self.init && !other.init,
            held: self.held && !other.held,
            park: self.park && !other.park,
            unpark: self.unpark && !other.unpark,
        }
    }

    /// The word that holds the flags.
    pub open spec fn word(self) -> int {
        (if self.init {
            STATE_INIT as int
        } else {
            0
        }) + (if self.held {
            STATE_HELD as int
        } else {
            0
        }) + (if self.park {
            STATE_PARK as int
        } else {
            0
        }) + (if self.unpark {
            STATE_UNPARK as int
        } else {
            0
        })
    }

    /// No flag.
    pub fn free() -> (state: ParkState)
        ensures
            state == ParkState::flags(false, false, false, false),
            state.word() == STATE_FREE,
    {
        ParkState { init: false, held: false, park: false, unpark: false }
    }

    /// Set flags.
    pub fn with(self, other: ParkState) -> (state: ParkState)
        ensures
            state == self.union(other),
    {
        ParkState {
            init: self.init || other.init,
            held: self.held || other.held,
            park: self.park || other.park,
            unpark: self.unpark || other.unpark,
        }
    }

    /// Clear flags.
    pub fn without(self, other: ParkState) -> (state: ParkState)
        ensures
            state == self.minus(other),
    {
        ParkState {
            init: self.init && !other.init,
            held: self.held && !other.held,
            park: self.park && !other.park,
            unpark: self.unpark && !other.unpark,
        }
    }

    /// The word that holds the flags.
    pub fn bits(self) -> (word: usize)
        ensures
            word == self.word(),
    {
        let mut word: usize = 0;
        if self.init {
            word = word + STATE_INIT;
        }
        if self.held {
            word = word + STATE_HELD;
        }
        if self.park {
            word = word + STATE_PARK;
        }
        if self.unpark {
            word = word + STATE_UNPARK;
        }
        word
    }

    /// The flags that a word holds.
    pub fn from_bits(word: usize) -> (state: ParkState)
        requires
            word < 16,
        ensures
            state.word() == word,
    {
        ParkState {
            init: word % 2 == 1,
            held: word / 2 % 2 == 1,
            park: word / 4 % 2 == 1,
            unpark: word / 8 % 2 == 1,
        }
    }
}

/// A word stands for one set of flags only.
pub proof fn law_word_injective(a: ParkState, b: ParkState)
    requires
        a.word() == b.word(),
    ensures
        a == b,
{
}

/// An atomic operation on the flags.
#[derive(Copy, Clone, Debug, PartialEq, Eq, Structural)]
pub enum ParkOp {
    /// Read the flags.
    Load,
    /// Overwrite the flags and return what they were.
    Swap(ParkState),
    /// Set flags and return what they were.
    SetFlags(ParkState),
    /// Clear flags and return what they were.
    ClearFlags(ParkState),
    /// Replace the flags if they are as expected.
    Cas { from: ParkState, to: ParkState },
}

/// What an atomic operation on the flags reports.
#[derive(Copy, Clone, Debug, PartialEq, Eq, Structural)]
pub struct ParkSeen {
    /// False if a compare-and-exchange left the flags alone.
    pub ok: bool,
    /// The flags before the operation.
    pub state: ParkState,
}

impl ParkOp {
    /// What the operation reports when it meets `state`.
    pub open spec fn seen(self, state: ParkState) -> ParkSeen {
        match self {
            ParkOp::Cas { from, to } => ParkSeen { ok: state == from, state },
            _ => ParkSeen { ok: true, state },
        }
    }

    /// What the operation makes of `state`.
    pub open spec fn result(self, state: ParkState) -> ParkState {
        match self {
            ParkOp::Load => state,
            ParkOp::Swap(to) => to,
            ParkOp::SetFlags(flags) => state.union(flags),
            ParkOp::ClearFlags(flags) => state.minus(flags),
            ParkOp::Cas { from, to } => if state == from {
                to
            } else {
                state
            },
        }
    }

    /// Perform the operation.
    pub fn apply(self, state: &mut ParkState) -> (seen: ParkSeen)
        ensures
            seen == self.seen(*old(state)),
            *final(state) == self.result(*old(state)),
    {
        let before = *state;
        let mut ok: bool = true;
        match self {
            ParkOp::Load => {},
            ParkOp::Swap(to) => {
                *state = to;
            },
            ParkOp::SetFlags(flags) => {
                *state = before.with(flags);
            },
            ParkOp::ClearFlags(flags) => {
                *state = before.without(flags);
            },
            ParkOp::Cas { from, to } => {
                if before == from {
                    *state = to;
                } else {
                    ok = false;
                }
            },
        }
        ParkSeen { ok, state: before }
    }
}

} // verus!
