//! Adapter between a synchronous TLS protocol engine and a completion-based
//! byte channel.
//!
//! The engine (a `rustls` connection) speaks a borrowed-slice push/pull
//! interface and never suspends; the channel hands whole buffers back and
//! forth and is the only place an operation may suspend.  This crate owns the
//! engine together with the raw byte queues between the two, and exposes each
//! stream operation (handshake, read, write, shutdown) as a small state
//! machine: every call performs the synchronous engine work and then reports
//! either the one channel action it needs next, or its result.  The caller
//! performs the channel action and feeds the outcome back in.

pub mod action;
pub mod error;
pub mod handshake;
pub mod pump;
pub mod rw;
pub mod shutdown;
pub mod stream;
