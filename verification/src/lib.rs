//! Verified core of a rate-limited statistics autoposter.
//!
//! The crate tracks the set of servers a bot currently serves, mirrors the
//! set's cardinality into a statistics record, and decides — never more often
//! than a configured minimum interval — when a snapshot of that record may be
//! delivered to the reporting endpoint. The asynchronous shell (locks, clock,
//! transport) lives outside; everything that decides is specified and proved
//! here.

pub mod autoposter;
pub mod cache;
pub mod dispatch;
pub mod event;
pub mod gate;
pub mod stats;
pub mod twilight;
