//! The shared state word of a channel and the atomic operations on it.

use vstd::prelude::*;

verus! {

/// No flag is set: the channel is finished.
pub const STATE_DONE: u8 = 0;

/// Both sides are still attached.
pub const STATE_ACTIVE: u8 = 1;

/// A value is waiting to be read.
pub const STATE_LOADED: u8 = 2;

/// The waker cell is locked, by either side.
pub const STATE_WLOCK: u8 = 4;

/// The reader is at work in the channel.
pub const STATE_RLOCK: u8 = 8;

/// The waker cell is occupied, or about to be.
pub const STATE_WAKE: u8 = 16;

/// The flags that the state word of a channel holds.
#[derive(Copy, Clone, Debug, PartialEq, Eq, Structural)]
pub struct State {
    /// Both sides are still attached.
    pub active: bool,
    /// A value is waiting to be read.
    pub loaded: bool,
    /// The waker cell is locked, by either side.
    pub wlock: bool,
    /// The reader is at work in the channel.
    pub rlock: bool,
    /// The waker cell is occupied, or about to be.
    pub wake: bool,
}

impl State {
    /// A word with the given flags.
    pub open spec fn flags(
        active: bool,
        loaded: bool,
        wlock: bool,
        rlock: bool,
        wake: bool,
    ) -> State {
        State { active, loaded, wlock, rlock, wake }
    }

    /// The weight of a flag in the word.
    pub open spec fn weight(flag: bool, bit: u8) -> int {
        if flag {
            bit as int
        } else {
            0
        }
    }

    /// The word that encodes the flags.
    pub open spec fn word(self) -> int {
        State::weight(self.active, STATE_ACTIVE) + State::weight(self.loaded, STATE_LOADED)
            + State::weight(self.wlock, STATE_WLOCK) + State::weight(self.rlock, STATE_RLOCK)
            + State::weight(self.wake, STATE_WAKE)
    }

    /// The flags of both.
    pub open spec fn union(self, other: State) -> State {
        State {
            active: self.active || other.active,
            loaded: self.loaded || other.loaded,
            wlock: self.wlock || other.wlock,
            rlock: self.rlock || other.rlock,
            wake: self.wake || other.wake,
        }
    }

    /// The flags of `self` that `other` does not have.
    pub open spec fn minus(self, other: State) -> State {
        State {
            active: self.active && !other.active,
            loaded: self.loaded && !other.loaded,
            wlock: self.wlock && !other.wlock,
            rlock: self.rlock && !other.rlock,
            wake: self.wake && !other.wake,
        }
    }

    /// No flag at all.
    pub fn done() -> (state: State)
        ensures
            state == (State { active: false, loaded: false, wlock: false, rlock: false, wake: false }),
    {
        State { active: false, loaded: false, wlock: false, rlock: false, wake: false }
    }

    /// Set every flag of `other`.
    pub fn with(self, other: State) -> (state: State)
        ensures
            state == self.union(other),
    {
        State {
            active: self.active || other.active,
            loaded: self.loaded || other.loaded,
            wlock: self.wlock || other.wlock,
            rlock: self.rlock || other.rlock,
            wake: self.wake || other.wake,
        }
    }

    /// Clear every flag of `other`.
    pub fn without(self, other: State) -> (state: State)
        ensures
            state == self.minus(other),
    {
        State {
            active: self.active && !other.active,
            loaded: self.loaded && !other.loaded,
            wlock: self.wlock && !other.wlock,
            rlock: self.rlock && !other.rlock,
            wake: self.wake && !other.wake,
        }
    }

    /// Encode the flags as a word.
    pub fn bits(self) -> (bits: u8)
        ensures
            bits == self.word(),
    {
        let mut bits: u8 = STATE_DONE;
        if self.active {
            bits = bits + STATE_ACTIVE;
        }
        if self.loaded {
            bits = bits + STATE_LOADED;
        }
        if self.wlock {
            bits = bits + STATE_WLOCK;
        }
        if self.rlock {
            bits = bits + STATE_RLOCK;
        }
        if self.wake {
            bits = bits + STATE_WAKE;
        }
        bits
    }

    /// Decode a word. Bits beyond the five flags are ignored.
    pub fn from_bits(bits: u8) -> (state: State)
        ensures
            state.word() == bits % 32,
    {
        let state = State {
            active: bits % 2 == 1,
            loaded: bits / 2 % 2 == 1,
            wlock: bits / 4 % 2 == 1,
            rlock: bits / 8 % 2 == 1,
            wake: bits / 16 % 2 == 1,
        };
        assert(bits % 32 == bits % 2 + 2 * (bits / 2 % 2) + 4 * (bits / 4 % 2) + 8 * (bits / 8 % 2)
            + 16 * (bits / 16 % 2)) by (bit_vector);
        assert(bits % 2 == State::weight(state.active, STATE_ACTIVE));
        assert(2 * (bits / 2 % 2) == State::weight(state.loaded, STATE_LOADED));
        assert(4 * (bits / 4 % 2) == State::weight(state.wlock, STATE_WLOCK));
        assert(8 * (bits / 8 % 2) == State::weight(state.rlock, STATE_RLOCK));
        assert(16 * (bits / 16 % 2) == State::weight(state.wake, STATE_WAKE));
        state
    }
}

/// Distinct flags have distinct words.
pub proof fn law_word_injective(a: State, b: State)
    requires
        a.word() == b.word(),
    ensures
        a == b,
{
}

/// An atomic operation on the state word.
#[derive(Copy, Clone, Debug, PartialEq, Eq, Structural)]
pub enum Op {
    /// Read the word.
    Load,
    /// Overwrite the word.
    Store(State),
    /// Overwrite the word and return what it was.
    Swap(State),
    /// Set flags and return what the word was.
    SetFlags(State),
    /// Clear flags and return what the word was.
    ClearFlags(State),
    /// Replace the word if it is as expected.
    Cas { from: State, to: State },
    /// Replace the word if it is as expected; may fail although it is.
    CasWeak { from: State, to: State },
}

/// What an atomic operation reports.
#[derive(Copy, Clone, Debug, PartialEq, Eq, Structural)]
pub struct Seen {
    /// False if a compare-and-exchange left the word alone.
    pub ok: bool,
    /// The word before the operation.
    pub state: State,
}

impl Op {
    /// What the operation reports when it meets `word`. A weak exchange fails if `spurious`.
    pub open spec fn seen(self, word: State, spurious: bool) -> Seen {
        match self {
            Op::Cas { from, to } => Seen { ok: word == from, state: word },
            Op::CasWeak { from, to } => Seen { ok: word == from && !spurious, state: word },
            _ => Seen { ok: true, state: word },
        }
    }

    /// What the operation makes of `word`.
    pub open spec fn result(self, word: State, spurious: bool) -> State {
        match self {
            Op::Load => word,
            Op::Store(to) => to,
            Op::Swap(to) => to,
            Op::SetFlags(flags) => word.union(flags),
            Op::ClearFlags(flags) => word.minus(flags),
            Op::Cas { from, to } => if self.seen(word, spurious).ok {
                to
            } else {
                word
            },
            Op::CasWeak { from, to } => if self.seen(word, spurious).ok {
                to
            } else {
                word
            },
        }
    }

    /// Perform the operation on a word.
    pub fn apply(self, word: &mut State, spurious: bool) -> (seen: Seen)
        ensures
            seen == self.seen(*old(word), spurious),
            *final(word) == self.result(*old(word), spurious),
    {
        let before = *word;
        let mut ok: bool = true;
        match self {
            Op::Load => {},
            Op::Store(to) => {
                *word = to;
            },
            Op::Swap(to) => {
                *word = to;
            },
            Op::SetFlags(flags) => {
                *word = before.with(flags);
            },
            Op::ClearFlags(flags) => {
                *word = before.without(flags);
            },
            Op::Cas { from, to } => {
                if before == from {
                    *word = to;
                } else {
                    ok = false;
                }
            },
            Op::CasWeak { from, to } => {
                if before == from && !spurious {
                    *word = to;
                } else {
                    ok = false;
                }
            },
        }
        Seen { ok, state: before }
    }
}

} // verus!
