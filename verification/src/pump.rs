//! The encrypted pumps: the two state machines that move raw encrypted bytes
//! between the engine and the channel, one per direction.  Each suspends at
//! most once per internal iteration, always at the single channel operation.

use vstd::prelude::*;
use crate::action::{NetAction, NetEvent, Step};
use crate::error::TlsError;
use crate::stream::{ProcessOutcome, PullOutcome, Stream};

verus! {

/// Phase of one outbound pump run.
#[derive(Clone, Copy)]
pub enum WriteIoPhase {
    /// Ask the engine for its queued encrypted bytes.
    Push,
    /// The bytes were handed out for one channel send; `produced` is how many
    /// the engine yielded in this run.
    Sending { produced: usize },
    /// The run is over.
    Finished,
}

/// One run of the outbound encrypted pump: drain the engine's queued
/// encrypted bytes and hand them to the channel in one send.
#[derive(Clone, Copy)]
pub struct WriteIo {
    pub phase: WriteIoPhase,
}

impl WriteIo {
    /// Which event the next `step` call is prepared for.
    pub open spec fn expects<E>(self, ev: NetEvent<E>) -> bool {
        match self.phase {
            WriteIoPhase::Push => ev is Go,
            WriteIoPhase::Sending { .. } => ev is Transmitted || ev is Fault,
            WriteIoPhase::Finished => false,
        }
    }

    pub fn new() -> (r: WriteIo)
        ensures
            r.phase is Push,
    {
        WriteIo { phase: WriteIoPhase::Push }
    }

    /// One step of the outbound pump.  On success the result counts the
    /// encrypted bytes the engine yielded in this run; every byte it yielded
    /// is handed to the channel unmodified and in order, recorded in the
    /// stream's `sent` ledger.  Once the bytes are handed out, the outcome is
    /// a pure function of the reported event: completion yields the count,
    /// a fault is surfaced unchanged.
    pub fn step<E>(&mut self, s: &mut Stream, ev: NetEvent<E>) -> (r: Step<usize, E>)
        requires
            old(self).expects(ev),
        ensures
            old(s).wf() ==> final(s).wf(),
            final(s).pending() == old(s).pending(),
            final(s).fed() == old(s).fed(),
            final(s).consumed() == old(s).consumed(),
            final(s).eof_seen() == old(s).eof_seen(),
            final(s).handshake_done() == old(s).handshake_done(),
            final(s).is_shut() == old(s).is_shut(),
            final(s).delivered() == old(s).delivered(),
            final(s).accepted_plain() == old(s).accepted_plain(),
            (r matches Step::Pending(a) ==> a matches NetAction::Transmit(b)
                && b@.len() > 0
                && final(s).sent() == old(s).sent() + b@
                && (final(self).phase matches WriteIoPhase::Sending { produced }
                    && produced == b@.len())),
            (r matches Step::Done(res) ==> final(self).phase is Finished
                && final(s).sent() == old(s).sent()
                && match res {
                    Ok(n) => (old(self).phase is Push && n == 0)
                        || (old(self).phase == (WriteIoPhase::Sending { produced: n })
                            && ev is Transmitted),
                    Err(e) => (e matches TlsError::PassThrough(f)
                        && ev == NetEvent::Fault(f)),
                }),
            (old(self).phase matches WriteIoPhase::Sending { produced } ==> *final(s) == *old(s)
                && final(self).phase is Finished
                && (ev is Transmitted ==> r == Step::<usize, E>::Done(Ok(produced)))
                && (ev matches NetEvent::Fault(f)
                    ==> r == Step::<usize, E>::Done(Err(TlsError::PassThrough(f))))),
    {
        match self.phase {
            WriteIoPhase::Push => {
                let out = s.push_encrypted();
                if out.len() == 0 {
                    assert(old(s).sent() + out@ =~= old(s).sent());
                    self.phase = WriteIoPhase::Finished;
                    Step::Done(Ok(0))
                } else {
                    let n = out.len();
                    self.phase = WriteIoPhase::Sending { produced: n };
                    Step::Pending(NetAction::Transmit(out))
                }
            }
            WriteIoPhase::Sending { produced } => {
                self.phase = WriteIoPhase::Finished;
                match ev {
                    NetEvent::Transmitted => Step::Done(Ok(produced)),
                    NetEvent::Fault(e) => Step::Done(Err(TlsError::PassThrough(e))),
                    _ => {
                        proof {
                            assert(false);
                        }
                        Step::Done(Ok(produced))
                    }
                }
            }
            WriteIoPhase::Finished => {
                proof {
                    assert(false);
                }
                Step::Done(Ok(0))
            }
        }
    }
}

/// Phase of one inbound pump run.
#[derive(Clone, Copy)]
pub enum ReadIoPhase {
    /// Offer the pending raw bytes to the engine.
    Pull,
    /// No raw bytes are pending and no end of input was seen: one channel
    /// receive is in flight.
    AwaitData,
    /// The engine consumed `took` bytes and validated them; `closed` records
    /// whether it reported protocol-level closure from the peer while still
    /// handshaking.
    Classify { took: usize, closed: bool },
    /// The engine rejected the inbound data; a best-effort flush of any
    /// queued outbound bytes (the engine's alert) is in progress, whose own
    /// outcome is discarded.
    AlertFlush(WriteIo),
    /// The run is over.
    Finished,
}

/// One run of the inbound encrypted pump: feed raw bytes to the engine,
/// suspending for at most one channel receive per iteration, then have the
/// engine validate and decrypt them.
#[derive(Clone, Copy)]
pub struct ReadIo {
    pub phase: ReadIoPhase,
}

impl ReadIo {
    /// Which event the next `step` call is prepared for.
    pub open spec fn expects<E>(self, ev: NetEvent<E>) -> bool {
        match self.phase {
            ReadIoPhase::Pull => ev is Go,
            ReadIoPhase::AwaitData => ev is Received || ev is Fault,
            ReadIoPhase::Classify { .. } => ev is Go,
            ReadIoPhase::AlertFlush(flush) => flush.expects(ev),
            ReadIoPhase::Finished => false,
        }
    }

    pub fn new() -> (r: ReadIo)
        ensures
            r.phase is Pull,
    {
        ReadIo { phase: ReadIoPhase::Pull }
    }

    /// One step of the inbound pump.  On success the result counts the raw
    /// bytes the engine consumed in the final iteration, and it is zero only
    /// when the channel had reported orderly end of input; a channel fault is
    /// surfaced unchanged; closure reported by the engine while still
    /// handshaking is truncation; a validation failure is a protocol
    /// violation, after a best-effort alert flush whose own outcome is
    /// discarded.
    pub fn step<E>(&mut self, s: &mut Stream, ev: NetEvent<E>) -> (r: Step<usize, E>)
        requires
            old(self).expects(ev),
        ensures
            old(s).wf() ==> final(s).wf(),
            final(s).handshake_done() == old(s).handshake_done(),
            final(s).is_shut() == old(s).is_shut(),
            final(s).delivered() == old(s).delivered(),
            final(s).accepted_plain() == old(s).accepted_plain(),
            (old(s).eof_seen() ==> final(s).eof_seen()),
            // From the pull phase: a receive is requested exactly when the
            // queue is empty with no end of input; otherwise the engine
            // consumes a prefix of the queue, recorded in the ledgers, and a
            // zero take means end of input had been reported.
            (old(self).phase is Pull ==> (r matches Step::Pending(NetAction::Receive)
                ==> *final(s) == *old(s)
                    && old(s).pending().len() == 0
                    && !old(s).eof_seen()
                    && final(self).phase is AwaitData)),
            (old(self).phase is Pull ==> (old(s).pending().len() == 0 && !old(s).eof_seen()
                ==> r == Step::<usize, E>::Pending(NetAction::Receive))),
            (old(self).phase is Pull ==> (r matches Step::Pending(NetAction::Again)
                ==> (final(self).phase matches ReadIoPhase::Classify { took, closed }
                    && took <= old(s).pending().len()
                    && final(s).consumed() == old(s).consumed()
                        + old(s).pending().take(took as int)
                    && final(s).pending() == old(s).pending().skip(took as int)
                    && (took == 0 ==> old(s).eof_seen())))),
            (old(self).phase is Pull ==> (r matches Step::Pending(a)
                ==> (a is Receive || a is Again
                    || (a matches NetAction::Transmit(_)
                        && (final(self).phase matches ReadIoPhase::AlertFlush(_)))))),
            (old(self).phase is Pull ==> (r matches Step::Done(res)
                ==> (res matches Err(e)
                    && (e is ProtocolViolation || e is EngineRefused)))),
            // The classification of a validated take is a pure function of
            // the recorded observation.
            (old(self).phase matches ReadIoPhase::Classify { took, closed }
                ==> *final(s) == *old(s)
                    && final(self).phase is Finished
                    && r == (if closed {
                        Step::<usize, E>::Done(Err(TlsError::Truncated))
                    } else {
                        Step::<usize, E>::Done(Ok(took))
                    })),
            // Receiving is pure: the bytes join the queue in order, an empty
            // receive records end of input, and a fault surfaces unchanged.
            (old(self).phase is AwaitData ==> (ev matches NetEvent::Received(d)
                ==> r == Step::<usize, E>::Pending(NetAction::Again)
                    && final(self).phase is Pull
                    && final(s).pending() == old(s).pending() + d@
                    && final(s).fed() == old(s).fed() + d@
                    && final(s).consumed() == old(s).consumed()
                    && final(s).sent() == old(s).sent()
                    && final(s).eof_seen() == (old(s).eof_seen() || d@.len() == 0))),
            (old(self).phase is AwaitData ==> (ev matches NetEvent::Fault(f)
                ==> r == Step::<usize, E>::Done(Err(TlsError::PassThrough(f))))),
            // The alert flush's own outcome is discarded: any finished result
            // out of it is the protocol violation.
            (old(self).phase matches ReadIoPhase::AlertFlush(_)
                ==> (r matches Step::Done(res)
                    ==> res matches Err(TlsError::ProtocolViolation))),
            // Result classification.
            (r matches Step::Done(Ok(n))
                ==> (old(self).phase matches ReadIoPhase::Classify { took, closed }
                    && n == took && !closed)),
            (r matches Step::Done(res) ==> final(self).phase is Finished
                && match res {
                    Ok(n) => true,
                    Err(e) => !(e is NotReady)
                        && (e matches TlsError::PassThrough(f) ==> ev == NetEvent::Fault(f))
                        && (e is Truncated ==> old(self).phase is Classify)
                        && (e is EngineRefused ==> old(self).phase is Pull)
                        && (e is UnexpectedClosure ==> false)
                        && (e is ProtocolViolation ==> (old(self).phase is Pull
                            || old(self).phase matches ReadIoPhase::AlertFlush(_))),
                }),
    {
        match self.phase {
            ReadIoPhase::Pull => {
                if !s.has_pending() && !s.eof_flag() {
                    self.phase = ReadIoPhase::AwaitData;
                    Step::Pending(NetAction::Receive)
                } else {
                    match s.pull_encrypted() {
                        PullOutcome::Took(n) => {
                            match s.process_incoming() {
                                ProcessOutcome::Accepted { peer_closed } => {
                                    let closed = peer_closed && s.is_handshaking();
                                    self.phase = ReadIoPhase::Classify { took: n, closed };
                                    Step::Pending(NetAction::Again)
                                }
                                ProcessOutcome::Reject => {
                                    let mut flush = WriteIo::new();
                                    let sub = flush.step(s, NetEvent::<E>::Go);
                                    match sub {
                                        Step::Pending(a) => {
                                            self.phase = ReadIoPhase::AlertFlush(flush);
                                            Step::Pending(a)
                                        }
                                        Step::Done(_) => {
                                            self.phase = ReadIoPhase::Finished;
                                            Step::Done(Err(TlsError::ProtocolViolation))
                                        }
                                    }
                                }
                            }
                        }
                        PullOutcome::Refused => {
                            self.phase = ReadIoPhase::Finished;
                            Step::Done(Err(TlsError::EngineRefused))
                        }
                    }
                }
            }
            ReadIoPhase::AwaitData => {
                match ev {
                    NetEvent::Received(data) => {
                        s.feed_incoming(data);
                        self.phase = ReadIoPhase::Pull;
                        Step::Pending(NetAction::Again)
                    }
                    NetEvent::Fault(e) => {
                        self.phase = ReadIoPhase::Finished;
                        Step::Done(Err(TlsError::PassThrough(e)))
                    }
                    _ => {
                        proof {
                            assert(false);
                        }
                        Step::Pending(NetAction::Again)
                    }
                }
            }
            ReadIoPhase::Classify { took, closed } => {
                self.phase = ReadIoPhase::Finished;
                if closed {
                    Step::Done(Err(TlsError::Truncated))
                } else {
                    Step::Done(Ok(took))
                }
            }
            ReadIoPhase::AlertFlush(flush0) => {
                let mut flush = flush0;
                match flush.step(s, ev) {
                    Step::Pending(a) => {
                        self.phase = ReadIoPhase::AlertFlush(flush);
                        Step::Pending(a)
                    }
                    Step::Done(_) => {
                        self.phase = ReadIoPhase::Finished;
                        Step::Done(Err(TlsError::ProtocolViolation))
                    }
                }
            }
            ReadIoPhase::Finished => {
                proof {
                    assert(false);
                }
                Step::Pending(NetAction::Again)
            }
        }
    }
}

} // verus!
