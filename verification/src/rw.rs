//! Application-data read and write.
//!
//! Both operations take ownership of the caller's buffer for their duration
//! and give it back through `into_buffer` on every exit path.  A write never
//! modifies the buffer at all; a read overwrites exactly the prefix it
//! reports and leaves the rest untouched.  Both are rejected outright unless
//! the handshake ran to completion and shutdown has not been invoked.

use vstd::prelude::*;
use crate::action::{NetAction, NetEvent, Step};
use crate::error::TlsError;
use crate::pump::{ReadIo, ReadIoPhase, WriteIo};
use crate::stream::{PlainOutcome, Stream};

verus! {

/// Phase of one application-data read.
#[derive(Clone, Copy)]
pub enum ReadPhase {
    /// The handshake had not completed, or shutdown was invoked.
    Rejected,
    /// Try a synchronous extraction of already-decrypted plaintext.
    Try,
    /// No plaintext was ready: an inbound pump run is in progress.
    Pump(ReadIo),
    /// The operation is over.
    Finished,
}

/// One application-data read: extract decrypted plaintext into the front of
/// the caller's buffer, pumping raw bytes in as needed.  On success the
/// result counts the bytes delivered; zero means the peer closed the session
/// in an orderly, protocol-level way.
pub struct ReadOp {
    pub buf: Vec<u8>,
    pub phase: ReadPhase,
}

impl ReadOp {
    /// Which event the next `step` call is prepared for.
    pub open spec fn expects<E>(self, ev: NetEvent<E>) -> bool {
        match self.phase {
            ReadPhase::Rejected => ev is Go,
            ReadPhase::Try => ev is Go,
            ReadPhase::Pump(rio) => rio.expects(ev),
            ReadPhase::Finished => false,
        }
    }

    /// Begin a read into `buf` (its length is the most that will be
    /// delivered), taking ownership of it for the operation's duration.
    pub fn new(s: &Stream, buf: Vec<u8>) -> (r: ReadOp)
        ensures
            r.buf@ == buf@,
            r.phase == if s.handshake_done() && !s.is_shut() {
                ReadPhase::Try
            } else {
                ReadPhase::Rejected
            },
    {
        let phase = if s.handshake_flag() && !s.shut_flag() {
            ReadPhase::Try
        } else {
            ReadPhase::Rejected
        };
        ReadOp { buf, phase }
    }

    /// One step of the read.  On success exactly the reported prefix of the
    /// buffer was overwritten with delivered plaintext; on every other
    /// outcome the buffer is untouched.  A channel fault is surfaced
    /// unchanged; end of input before any plaintext is an unexpected
    /// closure.
    pub fn step<E>(&mut self, s: &mut Stream, ev: NetEvent<E>) -> (r: Step<usize, E>)
        requires
            old(self).expects(ev),
        ensures
            old(s).wf() ==> final(s).wf(),
            final(s).is_shut() == old(s).is_shut(),
            final(s).handshake_done() == old(s).handshake_done(),
            final(s).accepted_plain() == old(s).accepted_plain(),
            final(self).buf@.len() == old(self).buf@.len(),
            (r matches Step::Done(Ok(n)) ==> n <= final(self).buf@.len()
                && final(self).buf@.skip(n as int) == old(self).buf@.skip(n as int)
                && final(s).delivered() == old(s).delivered()
                    + final(self).buf@.take(n as int)),
            (!(r matches Step::Done(Ok(_))) ==> final(s).delivered() == old(s).delivered()),
            (!(r matches Step::Done(Ok(_))) ==> final(self).buf@ == old(self).buf@),
            (old(self).phase is Rejected
                ==> r == Step::<usize, E>::Done(Err(TlsError::NotReady))
                    && *final(s) == *old(s)),
            (r matches Step::Done(Err(e)) ==> (e is NotReady <==> old(self).phase is Rejected)
                && (e matches TlsError::PassThrough(f) ==> ev == NetEvent::Fault(f))),
            // Per-phase successors.
            (old(self).phase is Try ==> ((r matches Step::Pending(a) ==> a is Again
                && (final(self).phase matches ReadPhase::Pump(rio2) && rio2.phase is Pull))
                && (r matches Step::Done(res) ==> ((res matches Ok(_))
                    || (res matches Err(TlsError::UnexpectedClosure)))))),
            (old(self).phase matches ReadPhase::Pump(_) ==> !(r matches Step::Done(Ok(_)))),
            (old(self).phase matches ReadPhase::Pump(_) ==> (r matches Step::Pending(a)
                ==> ((a is Again && final(self).phase is Try)
                    || final(self).phase matches ReadPhase::Pump(_)))),
            // A determined pump outcome propagates exactly: a raw end of
            // input before any plaintext was produced is the
            // unexpected-closure error, never success; a positive take
            // continues with another extraction attempt; truncation passes
            // through.
            (old(self).phase matches ReadPhase::Pump(rio)
                ==> (rio.phase matches ReadIoPhase::Classify { took, closed }
                    ==> ((took == 0 && !closed)
                            ==> r == Step::<usize, E>::Done(Err(TlsError::UnexpectedClosure)))
                        && ((took > 0 && !closed)
                            ==> r == Step::<usize, E>::Pending(NetAction::Again)
                                && final(self).phase is Try)
                        && (closed
                            ==> r == Step::<usize, E>::Done(Err(TlsError::Truncated))))),
            // A channel fault surfaces unchanged once the pump's outcome is
            // determined by the reported event.
            (old(self).phase matches ReadPhase::Pump(rio) ==> (rio.phase is AwaitData
                ==> (ev matches NetEvent::Fault(f)
                    ==> r == Step::<usize, E>::Done(Err(TlsError::PassThrough(f)))))),
    {
        match self.phase {
            ReadPhase::Rejected => {
                self.phase = ReadPhase::Finished;
                Step::Done(Err(TlsError::NotReady))
            }
            ReadPhase::Try => {
                match s.read_plain(&mut self.buf) {
                    PlainOutcome::Got(n) => {
                        self.phase = ReadPhase::Finished;
                        Step::Done(Ok(n))
                    }
                    PlainOutcome::NoData => {
                        self.phase = ReadPhase::Pump(ReadIo::new());
                        Step::Pending(NetAction::Again)
                    }
                    PlainOutcome::Closed => {
                        self.phase = ReadPhase::Finished;
                        Step::Done(Err(TlsError::UnexpectedClosure))
                    }
                }
            }
            ReadPhase::Pump(sub0) => {
                let mut sub = sub0;
                match sub.step(s, ev) {
                    Step::Pending(a) => {
                        self.phase = ReadPhase::Pump(sub);
                        Step::Pending(a)
                    }
                    Step::Done(Ok(n)) => {
                        if n == 0 {
                            // A raw end of input before any plaintext was
                            // produced: a silent transport close is a
                            // protocol violation.
                            self.phase = ReadPhase::Finished;
                            Step::Done(Err(TlsError::UnexpectedClosure))
                        } else {
                            self.phase = ReadPhase::Try;
                            Step::Pending(NetAction::Again)
                        }
                    }
                    Step::Done(Err(e)) => {
                        self.phase = ReadPhase::Finished;
                        Step::Done(Err(e))
                    }
                }
            }
            ReadPhase::Finished => {
                proof {
                    assert(false);
                }
                Step::Pending(NetAction::Again)
            }
        }
    }

    /// Give the caller's buffer back; its contents are exactly as the last
    /// `step` left them.
    pub fn into_buffer(self) -> (b: Vec<u8>)
        ensures
            b@ == self.buf@,
    {
        self.buf
    }
}

/// Phase of one application-data write.
#[derive(Clone, Copy)]
pub enum WritePhase {
    /// The handshake had not completed, or shutdown was invoked.
    Rejected,
    /// Hand the plaintext to the engine's outgoing-encryption step.
    Feed,
    /// Decide whether the engine still holds queued-but-unsent bytes.
    FlushDecide,
    /// An outbound pump run is in progress.
    InFlush(WriteIo),
    /// The operation is over.
    Finished,
}

/// One application-data write: the caller's buffer is only borrowed for the
/// call's duration and is returned unchanged on every path.  On success the
/// result counts the plaintext bytes the engine accepted (not necessarily
/// yet on the wire); a pump iteration that makes no progress stops the flush
/// rather than retrying forever, the remainder staying queued in the engine.
pub struct WriteOp {
    pub buf: Vec<u8>,
    pub accepted: usize,
    pub phase: WritePhase,
    /// Ghost record that the engine reported no queued-but-unsent bytes at
    /// the flush decision; success out of that decision only comes with this
    /// set (success out of a zero-progress pump run does not, by design: the
    /// remainder then stays queued in the engine).
    pub saw_drained: Ghost<bool>,
}

impl WriteOp {
    /// Which event the next `step` call is prepared for.
    pub open spec fn expects<E>(self, ev: NetEvent<E>) -> bool {
        match self.phase {
            WritePhase::Rejected => ev is Go,
            WritePhase::Feed => ev is Go,
            WritePhase::FlushDecide => ev is Go,
            WritePhase::InFlush(w) => w.expects(ev),
            WritePhase::Finished => false,
        }
    }

    /// Begin a write of `buf`, taking ownership of it for the operation's
    /// duration.
    pub fn new(s: &Stream, buf: Vec<u8>) -> (r: WriteOp)
        ensures
            r.buf@ == buf@,
            r.accepted == 0,
            !r.saw_drained@,
            r.phase == if s.handshake_done() && !s.is_shut() {
                WritePhase::Feed
            } else {
                WritePhase::Rejected
            },
    {
        let phase = if s.handshake_flag() && !s.shut_flag() {
            WritePhase::Feed
        } else {
            WritePhase::Rejected
        };
        WriteOp { buf, accepted: 0, phase, saw_drained: Ghost(false) }
    }

    /// One step of the write.  The caller's buffer is never modified.  On
    /// success the result is the number of plaintext bytes the engine
    /// accepted, at most the buffer's length; a channel fault is surfaced
    /// unchanged.
    pub fn step<E>(&mut self, s: &mut Stream, ev: NetEvent<E>) -> (r: Step<usize, E>)
        requires
            old(self).expects(ev),
        ensures
            old(s).wf() ==> final(s).wf(),
            final(s).is_shut() == old(s).is_shut(),
            final(s).handshake_done() == old(s).handshake_done(),
            final(s).pending() == old(s).pending(),
            final(s).fed() == old(s).fed(),
            final(s).consumed() == old(s).consumed(),
            final(s).eof_seen() == old(s).eof_seen(),
            final(s).delivered() == old(s).delivered(),
            final(self).buf@ == old(self).buf@,
            (old(self).phase is Feed ==> final(self).accepted <= old(self).buf@.len()
                && (r matches Step::Pending(NetAction::Again))
                && final(self).phase is FlushDecide
                && final(s).accepted_plain() == old(s).accepted_plain()
                    + old(self).buf@.take(final(self).accepted as int)),
            (!(old(self).phase is Feed) ==> final(s).accepted_plain()
                == old(s).accepted_plain()),
            (!(old(self).phase is Feed) ==> final(self).accepted == old(self).accepted),
            (r matches Step::Done(Ok(n)) ==> n == old(self).accepted
                && (old(self).phase is FlushDecide
                    || old(self).phase matches WritePhase::InFlush(_))),
            (old(self).phase is Rejected
                ==> r == Step::<usize, E>::Done(Err(TlsError::NotReady))
                    && *final(s) == *old(s)),
            (r matches Step::Done(Err(e)) ==> (e is NotReady <==> old(self).phase is Rejected)
                && (e matches TlsError::PassThrough(f) ==> ev == NetEvent::Fault(f))),
            // Per-phase successors.  Out of the flush decision the result is
            // either success with the accepted count (the engine observed
            // drained, recorded in the ghost) or a pump run is begun.
            (old(self).phase is FlushDecide ==> (
                (r == Step::<usize, E>::Done(Ok(old(self).accepted))
                    && final(self).saw_drained@)
                || ((r matches Step::Pending(NetAction::Again))
                    && (final(self).phase matches WritePhase::InFlush(w2)
                        && w2.phase is Push)))),
            (old(self).phase matches WritePhase::InFlush(_) ==> (r matches Step::Pending(a)
                ==> ((a is Again && final(self).phase is FlushDecide)
                    || final(self).phase matches WritePhase::InFlush(_)))),
            // A channel fault during the drain surfaces unchanged once the
            // pump's outcome is determined by the reported event.
            (old(self).phase matches WritePhase::InFlush(w) ==> (w.phase is Sending
                ==> (ev matches NetEvent::Fault(f)
                    ==> r == Step::<usize, E>::Done(Err(TlsError::PassThrough(f)))))),
    {
        match self.phase {
            WritePhase::Rejected => {
                self.phase = WritePhase::Finished;
                Step::Done(Err(TlsError::NotReady))
            }
            WritePhase::Feed => {
                let n = s.write_plain(&self.buf);
                self.accepted = n;
                self.phase = WritePhase::FlushDecide;
                Step::Pending(NetAction::Again)
            }
            WritePhase::FlushDecide => {
                if s.wants_write() {
                    self.phase = WritePhase::InFlush(WriteIo::new());
                    Step::Pending(NetAction::Again)
                } else {
                    self.saw_drained = Ghost(true);
                    self.phase = WritePhase::Finished;
                    Step::Done(Ok(self.accepted))
                }
            }
            WritePhase::InFlush(sub0) => {
                let mut sub = sub0;
                match sub.step(s, ev) {
                    Step::Pending(a) => {
                        self.phase = WritePhase::InFlush(sub);
                        Step::Pending(a)
                    }
                    Step::Done(Ok(n)) => {
                        if n == 0 {
                            // Zero progress: stop rather than retry forever;
                            // the remainder stays buffered in the engine.
                            self.phase = WritePhase::Finished;
                            Step::Done(Ok(self.accepted))
                        } else {
                            self.phase = WritePhase::FlushDecide;
                            Step::Pending(NetAction::Again)
                        }
                    }
                    Step::Done(Err(e)) => {
                        self.phase = WritePhase::Finished;
                        Step::Done(Err(e))
                    }
                }
            }
            WritePhase::Finished => {
                proof {
                    assert(false);
                }
                Step::Pending(NetAction::Again)
            }
        }
    }

    /// Give the caller's buffer back, unchanged on every path.
    pub fn into_buffer(self) -> (b: Vec<u8>)
        ensures
            b@ == self.buf@,
    {
        self.buf
    }
}

} // verus!
