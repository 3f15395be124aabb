//! A dynamic multi-window event multiplexer.
//!
//! A single cooperative dispatch loop owns a registry of per-window handlers.
//! External callers enqueue messages through a proxy into an ordered channel;
//! the dispatch core consumes each message exactly once, either mutating the
//! registry (create / delete) or broadcasting the message to every registered
//! handler. Window construction is deferred: a create request carries a
//! one-shot builder that the dispatch core invokes with loop-thread context.

pub mod canvas;
pub mod channel;
pub mod dispatch;
pub mod handler;
pub mod laws;
pub mod message;
pub mod params;
pub mod proxy;
pub mod registry;
