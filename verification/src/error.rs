//! Error taxonomy of the stream operations.
//!
//! The transient "no data / no space right now" signal of the engine is never
//! surfaced: the pump answers it internally with exactly one channel
//! operation.  Every error below ends the current operation, and the stream
//! should be treated as unusable afterwards.

use vstd::prelude::*;

verus! {

/// Terminal error of a stream operation.
///
/// `E` is the caller's channel error type; a channel fault is surfaced
/// unchanged inside `PassThrough`.
#[derive(Debug)]
pub enum TlsError<E> {
    /// The engine rejected queued bytes while validating or decrypting them:
    /// the peer's data is corrupt or not protocol-conformant.
    ProtocolViolation,
    /// The channel reported end of input without a protocol-level close
    /// notification, before any plaintext was delivered.
    UnexpectedClosure,
    /// The channel reported end of input while the handshake was still in
    /// progress.
    Truncated,
    /// An application read or write was attempted before the handshake ran to
    /// completion, or after shutdown; the operation is rejected untouched.
    NotReady,
    /// The engine refused to accept more raw bytes or more plaintext right
    /// now in a non-transient way (for example, its inbound plaintext queue
    /// is full because nothing drains it).
    EngineRefused,
    /// A channel fault, surfaced unchanged.
    PassThrough(E),
}

} // verus!
