//! Channels between one producer and one consumer.

pub mod calls;
pub mod handles;
pub mod interleave;
pub mod laws;
pub mod memory;
pub mod state;
pub mod step;
pub mod wake;
