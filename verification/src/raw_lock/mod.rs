//! Locks: what to ask of the system, and what its answers mean.

pub mod futex;
pub mod native;
pub mod pthread;
