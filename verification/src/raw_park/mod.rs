//! Parking: a thread waits until it is notified.
//!
//! The parked thread and the threads that notify it share a word of flags.

pub mod interleave;
pub mod parker;
pub mod state;
pub mod step;
