//! Pools of threads: when to start a thread, what it does next, and when it ends.

pub mod config;
pub mod join;
pub mod laws;
pub mod name;
pub mod pool;
pub mod scope;
pub mod state;
pub mod threadpool;
