//! The handshake driver: alternate the outbound and inbound pumps as the
//! engine asks, until it reports the handshake complete, then drain any
//! residual outbound bytes.  It must run to completion before any
//! application-data read or write is attempted.

use vstd::prelude::*;
use crate::action::{NetAction, NetEvent, Step};
use crate::error::TlsError;
use crate::pump::{ReadIo, WriteIo};
use crate::stream::Stream;

verus! {

/// Saturating addition for the diagnostic byte counters.
fn sat_add(a: usize, b: usize) -> (r: usize)
    ensures
        r as int == if a as int + b as int <= usize::MAX as int {
            a as int + b as int
        } else {
            usize::MAX as int
        },
{
    if a <= usize::MAX - b {
        a + b
    } else {
        usize::MAX
    }
}

/// Phase of the handshake driver.
#[derive(Clone, Copy)]
pub enum HsPhase {
    /// The stream was already shut down: the operation is rejected.
    Rejected,
    /// Ask the engine what it needs next while the handshake runs.
    Decide,
    /// An outbound pump run is in progress.
    InWrite(WriteIo),
    /// An inbound pump run is in progress.
    InRead(ReadIo),
    /// The engine reported the handshake complete: decide whether residual
    /// outbound bytes are still queued.
    FinDecide,
    /// A residual outbound pump run is in progress after completion.
    InFin(WriteIo),
    /// The operation is over.
    Finished,
}

/// The handshake operation.  Drive it by calling `step` with `NetEvent::Go`
/// and then answering each reported action until it returns `Step::Done`;
/// on success the result is the cumulative (bytes read, bytes written) pair,
/// for diagnostics.
#[derive(Clone, Copy)]
pub struct Handshake {
    /// Cumulative raw bytes read, saturating.
    pub rd: usize,
    /// Cumulative raw bytes written, saturating.
    pub wr: usize,
    /// Whether the channel reported end of input during this handshake.
    pub eof: bool,
    pub phase: HsPhase,
    /// Ghost record that the engine has reported the handshake complete;
    /// success is only ever reported with this set.
    pub saw_complete: Ghost<bool>,
    /// Ghost record that the engine reported no residual outbound bytes
    /// queued; success is only ever reported with this set too.
    pub saw_flushed: Ghost<bool>,
}

impl Handshake {
    /// The residual-flush phases are only ever entered after the engine
    /// reported the handshake complete.
    pub open spec fn inv(self) -> bool {
        (self.phase is FinDecide || self.phase matches HsPhase::InFin(_))
            ==> self.saw_complete@
    }

    /// Which event the next `step` call is prepared for.
    pub open spec fn expects<E>(self, ev: NetEvent<E>) -> bool {
        match self.phase {
            HsPhase::Rejected => ev is Go,
            HsPhase::Decide => ev is Go,
            HsPhase::InWrite(w) => w.expects(ev),
            HsPhase::InRead(rio) => rio.expects(ev),
            HsPhase::FinDecide => ev is Go,
            HsPhase::InFin(w) => w.expects(ev),
            HsPhase::Finished => false,
        }
    }

    /// Begin a handshake on the given stream; rejected outright if the
    /// stream was already shut down.
    pub fn new(s: &Stream) -> (r: Handshake)
        ensures
            r.rd == 0,
            r.wr == 0,
            !r.eof,
            !r.saw_complete@,
            !r.saw_flushed@,
            r.inv(),
            r.phase == if s.is_shut() {
                HsPhase::Rejected
            } else {
                HsPhase::Decide
            },
    {
        let phase = if s.shut_flag() {
            HsPhase::Rejected
        } else {
            HsPhase::Decide
        };
        Handshake {
            rd: 0,
            wr: 0,
            eof: false,
            phase,
            saw_complete: Ghost(false),
            saw_flushed: Ghost(false),
        }
    }

    /// One step of the handshake driver.
    ///
    /// Success is reported only after the engine declared the handshake
    /// complete, and it marks the stream ready for application data.  If the
    /// channel reported end of input while the engine was still handshaking,
    /// the decision step fails with `Truncated` and never with success: a
    /// `Step::Done` out of the `Decide` phase is always that error.
    pub fn step<E>(&mut self, s: &mut Stream, ev: NetEvent<E>) -> (r: Step<(usize, usize), E>)
        requires
            old(self).expects(ev),
        ensures
            old(s).wf() ==> final(s).wf(),
            final(s).is_shut() == old(s).is_shut(),
            final(s).delivered() == old(s).delivered(),
            final(s).accepted_plain() == old(s).accepted_plain(),
            (old(s).handshake_done() ==> final(s).handshake_done()),
            (old(self).eof ==> final(self).eof),
            (old(self).saw_complete@ ==> final(self).saw_complete@),
            (old(self).inv() ==> final(self).inv()),
            (old(self).inv() && (r matches Step::Done(Ok(_)))
                ==> final(self).saw_complete@ && final(self).saw_flushed@),
            (old(self).phase is Decide ==> (r matches Step::Done(res)
                ==> res matches Err(TlsError::Truncated) && old(self).eof)),
            (r matches Step::Done(res) ==> final(self).phase is Finished
                && match res {
                    Ok(v) => old(self).phase is FinDecide
                        && final(s).handshake_done()
                        && v == (old(self).rd, old(self).wr),
                    Err(e) => (e is NotReady <==> old(self).phase is Rejected)
                        && (e matches TlsError::PassThrough(f) ==> ev == NetEvent::Fault(f)),
                }),
            // Per-phase successors: every step moves the machine along its
            // transition graph.
            (old(self).phase is Rejected
                ==> r == Step::<(usize, usize), E>::Done(Err(TlsError::NotReady))
                    && *final(s) == *old(s)),
            (old(self).phase is Decide ==> (r matches Step::Pending(a)
                ==> a is Again
                    && ((final(self).phase matches HsPhase::InWrite(w2) && w2.phase is Push)
                        || (final(self).phase matches HsPhase::InRead(r2) && r2.phase is Pull)
                        || final(self).phase is FinDecide))),
            (old(self).phase is Decide ==> *final(s) == *old(s)),
            (old(self).phase is FinDecide ==> ((r matches Step::Done(res) ==> res is Ok)
                && (r matches Step::Pending(a) ==> a is Again
                    && (final(self).phase matches HsPhase::InFin(w2) && w2.phase is Push)))),
            (old(self).phase matches HsPhase::InWrite(_) ==> (r matches Step::Pending(a)
                ==> ((a is Again && final(self).phase is Decide)
                    || final(self).phase matches HsPhase::InWrite(_)))),
            (old(self).phase matches HsPhase::InRead(_) ==> (r matches Step::Pending(a)
                ==> ((a is Again && final(self).phase is Decide)
                    || final(self).phase matches HsPhase::InRead(_)))),
            (old(self).phase matches HsPhase::InFin(_) ==> (r matches Step::Pending(a)
                ==> ((a is Again && final(self).phase is FinDecide)
                    || final(self).phase matches HsPhase::InFin(_)))),
            // A pump fault surfaces unchanged once the sub-operation's
            // outcome is determined by the reported event.
            (old(self).phase matches HsPhase::InWrite(w) ==> (w.phase is Sending
                ==> (ev matches NetEvent::Fault(f)
                    ==> r == Step::<(usize, usize), E>::Done(Err(TlsError::PassThrough(f)))))),
            (old(self).phase matches HsPhase::InFin(w) ==> (w.phase is Sending
                ==> (ev matches NetEvent::Fault(f)
                    ==> r == Step::<(usize, usize), E>::Done(Err(TlsError::PassThrough(f)))))),
            (old(self).phase matches HsPhase::InRead(rio) ==> (rio.phase is AwaitData
                ==> (ev matches NetEvent::Fault(f)
                    ==> r == Step::<(usize, usize), E>::Done(Err(TlsError::PassThrough(f)))))),
            // A pump that reported end of input is recorded.
            (old(self).phase matches HsPhase::InRead(rio)
                ==> (rio.phase matches crate::pump::ReadIoPhase::Classify { took, closed }
                    ==> ((took == 0 && !closed) ==> final(self).eof))),
    {
        match self.phase {
            HsPhase::Rejected => {
                self.phase = HsPhase::Finished;
                Step::Done(Err(TlsError::NotReady))
            }
            HsPhase::Decide => {
                let hs = s.is_handshaking();
                if s.wants_write() && hs {
                    self.phase = HsPhase::InWrite(WriteIo::new());
                    Step::Pending(NetAction::Again)
                } else if !self.eof && s.wants_read() && hs {
                    self.phase = HsPhase::InRead(ReadIo::new());
                    Step::Pending(NetAction::Again)
                } else if self.eof && hs {
                    self.phase = HsPhase::Finished;
                    Step::Done(Err(TlsError::Truncated))
                } else if !hs {
                    self.saw_complete = Ghost(true);
                    self.phase = HsPhase::FinDecide;
                    Step::Pending(NetAction::Again)
                } else {
                    // The engine reports an ongoing handshake but asks for
                    // neither direction: wait for more input from the peer.
                    self.phase = HsPhase::InRead(ReadIo::new());
                    Step::Pending(NetAction::Again)
                }
            }
            HsPhase::InWrite(sub0) => {
                let mut sub = sub0;
                match sub.step(s, ev) {
                    Step::Pending(a) => {
                        self.phase = HsPhase::InWrite(sub);
                        Step::Pending(a)
                    }
                    Step::Done(Ok(n)) => {
                        self.wr = sat_add(self.wr, n);
                        self.phase = HsPhase::Decide;
                        Step::Pending(NetAction::Again)
                    }
                    Step::Done(Err(e)) => {
                        self.phase = HsPhase::Finished;
                        Step::Done(Err(e))
                    }
                }
            }
            HsPhase::InRead(sub0) => {
                let mut sub = sub0;
                match sub.step(s, ev) {
                    Step::Pending(a) => {
                        self.phase = HsPhase::InRead(sub);
                        Step::Pending(a)
                    }
                    Step::Done(Ok(n)) => {
                        self.rd = sat_add(self.rd, n);
                        if n == 0 {
                            self.eof = true;
                        }
                        self.phase = HsPhase::Decide;
                        Step::Pending(NetAction::Again)
                    }
                    Step::Done(Err(e)) => {
                        self.phase = HsPhase::Finished;
                        Step::Done(Err(e))
                    }
                }
            }
            HsPhase::FinDecide => {
                if s.wants_write() {
                    self.phase = HsPhase::InFin(WriteIo::new());
                    Step::Pending(NetAction::Again)
                } else {
                    self.saw_flushed = Ghost(true);
                    s.mark_handshake_done();
                    self.phase = HsPhase::Finished;
                    Step::Done(Ok((self.rd, self.wr)))
                }
            }
            HsPhase::InFin(sub0) => {
                let mut sub = sub0;
                match sub.step(s, ev) {
                    Step::Pending(a) => {
                        self.phase = HsPhase::InFin(sub);
                        Step::Pending(a)
                    }
                    Step::Done(Ok(n)) => {
                        self.wr = sat_add(self.wr, n);
                        self.phase = HsPhase::FinDecide;
                        Step::Pending(NetAction::Again)
                    }
                    Step::Done(Err(e)) => {
                        self.phase = HsPhase::Finished;
                        Step::Done(Err(e))
                    }
                }
            }
            HsPhase::Finished => {
                proof {
                    assert(false);
                }
                Step::Pending(NetAction::Again)
            }
        }
    }
}

} // verus!
