//! The operator's queue.
pub mod digest;
pub mod item;
pub mod policy;
pub mod source;
