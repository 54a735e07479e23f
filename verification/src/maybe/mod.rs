//! Cells which may or may not hold a value.
//!
//! `checked` keeps a `loaded` flag beside the value, `unchecked` does not.
//! `MaybeCopy` is the variant for values that are copied out rather than moved.

pub mod checked;
pub mod unchecked;
