//! Core of a scheduled uptime monitor: an in-memory status store, the
//! per-target decision logic that turns one probe outcome into a store
//! update and an optional notification message, and the construction of
//! the outbound notification request.
//!
//! All network traffic (probing targets, dispatching notifications) and
//! the cron-driven scheduler live outside this crate; they hand plain
//! values in and take plain values back.

pub mod checker;
pub mod messages;
pub mod notifier;
pub mod store;
