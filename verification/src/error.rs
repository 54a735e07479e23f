//! The errors of the library.

use vstd::prelude::*;

verus! {

/// Potential errors raised by lock operations.
#[derive(Copy, Clone, Debug, PartialEq, Eq, PartialOrd, Ord, Hash)]
pub enum LockError {
    /// The lock is already held.
    Contended,
    /// The lock instance is invalid.
    InvalidState,
    /// The lock was poisoned by another thread.
    Poisoned,
}

impl LockError {
    /// The text shown for the error, which is the same for all of them.
    pub fn message(&self) -> (text: &'static str)
        ensures
            text@ == "LockError"@,
    {
        "LockError"
    }
}

/// An error indicating that a receive operation could not be completed.
#[derive(Copy, Clone, Debug, PartialEq, Eq, Hash)]
pub enum RecvError {
    /// The sender dropped before producing a message.
    Incomplete,
    /// The receiver has already produced a result.
    Terminated,
    /// No message was received in time.
    TimedOut,
}

impl RecvError {
    /// A helper function to check for a timeout.
    pub fn timed_out(&self) -> (yes: bool)
        ensures
            yes == (*self is TimedOut),
    {
        matches!(self, RecvError::TimedOut)
    }

    /// The text shown for the error.
    pub fn message(&self) -> (text: &'static str)
        ensures
            text@ == (match *self {
                RecvError::Incomplete => "Incomplete"@,
                RecvError::Terminated => "Terminated"@,
                RecvError::TimedOut => "Timed out"@,
            }),
    {
        match self {
            RecvError::Incomplete => "Incomplete",
            RecvError::Terminated => "Terminated",
            RecvError::TimedOut => "Timed out",
        }
    }
}

/// An error indicating that a send operation could not be completed.
#[derive(Debug, PartialEq, Eq, Hash)]
pub enum TrySendError<T> {
    /// The receiver has been dropped.
    Disconnected(T),
    /// The channel is full.
    Full(T),
}

impl<T> TrySendError<T> {
    /// Determine whether the send failed because the receiver was dropped.
    pub fn is_disconnected(&self) -> (yes: bool)
        ensures
            yes == (*self is Disconnected),
    {
        matches!(self, TrySendError::Disconnected(..))
    }

    /// Determine whether the send failed because the channel is already full.
    pub fn is_full(&self) -> (yes: bool)
        ensures
            yes == (*self is Full),
    {
        matches!(self, TrySendError::Full(..))
    }

    /// Unwrap the inner value from the error.
    pub fn into_inner(self) -> (value: T)
        ensures
            value == (match self {
                TrySendError::Disconnected(val) => val,
                TrySendError::Full(val) => val,
            }),
    {
        match self {
            TrySendError::Disconnected(val) => val,
            TrySendError::Full(val) => val,
        }
    }
}

} // verus!
