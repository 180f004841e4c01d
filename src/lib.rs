//! Adapters between a host-managed, lock-based streaming protocol and native
//! pull/push sequences.
//!
//! The host owns the streams; this library owns the rules: who holds a lock,
//! when a read or write may be issued, what a resolved host operation means
//! for the native side, and how closure, errors and cancellation travel
//! between streams that are piped or teed.
pub mod lock;
pub mod pipe;
pub mod read;
pub mod sink;
pub mod source;
pub mod tee;
pub mod transform;
pub mod write;
