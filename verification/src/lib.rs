//! Primitives for suspending execution and waiting on results.

pub mod async_stream;
pub mod channel;
pub mod error;
pub mod exec;
pub mod listen;
pub mod lock;
pub mod maybe;
pub mod poll;
pub mod raw_lock;
pub mod raw_park;
pub mod scoped;
pub mod shared;
pub mod stream;
pub mod task;
pub mod thread;
pub mod types;
pub mod util;
