//! The outcome of asking for a result that may not be there yet.

use vstd::prelude::*;

verus! {

/// A result, or the news that there is none yet.
#[derive(Debug, PartialEq, Eq)]
pub enum Poll<T> {
    /// The result.
    Ready(T),
    /// No result yet.
    Pending,
}

/// What a party that waits until a time is up may do next.
#[derive(Debug)]
pub enum Turn<W> {
    /// There is time left: wait, to be woken by the waker.
    Wait(W),
    /// The time is up.
    Expired,
}

impl<T> Poll<T> {
    /// Tell whether there is a result.
    pub fn is_ready(&self) -> (yes: bool)
        ensures
            yes == (*self is Ready),
    {
        matches!(self, Poll::Ready(_))
    }

    /// Tell whether there is no result yet.
    pub fn is_pending(&self) -> (yes: bool)
        ensures
            yes == (*self is Pending),
    {
        matches!(self, Poll::Pending)
    }
}

} // verus!
