//! A shared value whose owner can wait for all outstanding borrows to be returned.

pub mod calls;
pub mod handles;
pub mod interleave;
pub mod laws;
pub mod memory;
pub mod step;
