//! The interface between the verified drivers and the asynchronous channel.
//!
//! A driver never suspends: each `step` call performs the synchronous engine
//! work it can and then reports either the single channel action it needs
//! next, or its final result.  The caller performs the action and feeds the
//! outcome back in as the next event.

use vstd::prelude::*;
use crate::error::TlsError;

verus! {

/// The one channel action a driver needs before it can continue.
pub enum NetAction {
    /// Perform one receive on the channel and feed the bytes back in with
    /// `NetEvent::Received` (an empty buffer meaning orderly end of input).
    Receive,
    /// Send these bytes on the channel, whole and in order, and report back
    /// with `NetEvent::Transmitted`.
    Transmit(Vec<u8>),
    /// Shut the underlying transport down and report back with
    /// `NetEvent::Closed`.
    Close,
    /// No channel work is needed: call `step` again with `NetEvent::Go`.
    Again,
}

/// The outcome of the last channel action, handed back to a driver.
pub enum NetEvent<E> {
    /// Start, or continue after `NetAction::Again`.
    Go,
    /// One channel receive completed with these bytes; empty means orderly
    /// end of input.
    Received(Vec<u8>),
    /// The requested send completed in full.
    Transmitted,
    /// The transport shutdown completed.
    Closed,
    /// The channel action failed; the fault is surfaced unchanged.
    Fault(E),
}

/// What one driver step produced.
pub enum Step<T, E> {
    /// The operation suspends: perform this channel action, then step again
    /// with its outcome.
    Pending(NetAction),
    /// The operation finished with this result.
    Done(Result<T, TlsError<E>>),
}

} // verus!
