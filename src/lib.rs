//! Lifecycle rules for a group of worker threads that grows over time and is
//! shut down all at once: which workers are admitted, when the one-shot close
//! signal goes out, which handles are joined, and how a bounded or unbounded
//! wait on the group's closed flag ends.
//!
//! The threads, locks and channels themselves are driven by the caller; every
//! decision they need is made here.
pub mod flag;
pub mod roster;
pub mod span;
