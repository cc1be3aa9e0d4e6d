//! Shutdown: schedule the protocol-level close notification, drain every
//! pending outbound encrypted byte, then close the underlying transport with
//! exactly one channel-shutdown action.  Terminal: the stream must not be
//! used again after this operation, whatever its outcome.

use vstd::prelude::*;
use crate::action::{NetAction, NetEvent, Step};
use crate::error::TlsError;
use crate::pump::WriteIo;
use crate::stream::Stream;

verus! {

/// Phase of one shutdown.
#[derive(Clone, Copy)]
pub enum ShutPhase {
    /// Schedule the close notification inside the engine (synchronous).
    Sched,
    /// Decide whether outbound encrypted bytes are still queued.
    DrainDecide,
    /// An outbound pump run is in progress.
    InDrain(WriteIo),
    /// Everything is drained: the one channel-shutdown action is in flight.
    AwaitClose,
    /// The operation is over.
    Finished,
}

/// One shutdown operation.  When nothing but the close notification is
/// queued it degenerates to one send of that record followed by exactly one
/// channel-shutdown action: `NetAction::Close` is only ever issued from the
/// drained state, and a successful result only ever follows it.
#[derive(Clone, Copy)]
pub struct Shutdown {
    pub phase: ShutPhase,
    /// Ghost record that the engine reported nothing left to write; the
    /// transport-close action is only ever issued with this set.
    pub saw_drained: Ghost<bool>,
}

impl Shutdown {
    /// The close action is only in flight after the engine was observed
    /// drained.
    pub open spec fn inv(self) -> bool {
        self.phase is AwaitClose ==> self.saw_drained@
    }

    /// Which event the next `step` call is prepared for.
    pub open spec fn expects<E>(self, ev: NetEvent<E>) -> bool {
        match self.phase {
            ShutPhase::Sched => ev is Go,
            ShutPhase::DrainDecide => ev is Go,
            ShutPhase::InDrain(w) => w.expects(ev),
            ShutPhase::AwaitClose => ev is Closed || ev is Fault,
            ShutPhase::Finished => false,
        }
    }

    pub fn new() -> (r: Shutdown)
        ensures
            r.phase is Sched,
            !r.saw_drained@,
            r.inv(),
    {
        Shutdown { phase: ShutPhase::Sched, saw_drained: Ghost(false) }
    }

    /// One step of the shutdown.  The first step marks the stream unusable
    /// for further reads and writes; the channel-shutdown action is issued
    /// exactly once, after the drain, and success is reported only for its
    /// completion; a channel fault is surfaced unchanged.
    pub fn step<E>(&mut self, s: &mut Stream, ev: NetEvent<E>) -> (r: Step<(), E>)
        requires
            old(self).expects(ev),
        ensures
            old(s).wf() ==> final(s).wf(),
            final(s).handshake_done() == old(s).handshake_done(),
            final(s).pending() == old(s).pending(),
            final(s).fed() == old(s).fed(),
            final(s).consumed() == old(s).consumed(),
            final(s).eof_seen() == old(s).eof_seen(),
            final(s).delivered() == old(s).delivered(),
            final(s).accepted_plain() == old(s).accepted_plain(),
            (old(s).is_shut() ==> final(s).is_shut()),
            (old(self).phase is Sched ==> final(s).is_shut()
                && (r matches Step::Pending(NetAction::Again))
                && final(self).phase is DrainDecide),
            (r matches Step::Pending(a) ==> (a is Close ==> old(self).phase is DrainDecide
                && final(self).phase is AwaitClose)),
            (old(self).phase is AwaitClose ==> *final(s) == *old(s)
                && final(self).phase is Finished
                && (ev is Closed ==> r == Step::<(), E>::Done(Ok(())))
                && (ev matches NetEvent::Fault(f)
                    ==> r == Step::<(), E>::Done(Err(TlsError::PassThrough(f))))),
            (r matches Step::Done(Ok(_)) ==> old(self).phase is AwaitClose && ev is Closed),
            (r matches Step::Done(Err(e)) ==> (e matches TlsError::PassThrough(f)
                ==> ev == NetEvent::Fault(f))),
            // Per-phase successors: the drain decision either begins a pump
            // run or, with the engine observed drained (recorded in the
            // ghost), issues the one close action.
            (old(self).saw_drained@ ==> final(self).saw_drained@),
            (old(self).inv() ==> final(self).inv()),
            (old(self).phase is DrainDecide ==> (r matches Step::Pending(a)
                && ((a is Close && final(self).phase is AwaitClose
                        && final(self).saw_drained@ && *final(s) == *old(s))
                    || (a is Again && (final(self).phase matches ShutPhase::InDrain(w2)
                        && w2.phase is Push))))),
            (old(self).phase matches ShutPhase::InDrain(_) ==> (r matches Step::Pending(a)
                ==> ((a is Again && final(self).phase is DrainDecide)
                    || final(self).phase matches ShutPhase::InDrain(_)))),
            // A channel fault during the drain surfaces unchanged once the
            // pump's outcome is determined by the reported event, and the
            // transport close is then never issued.
            (old(self).phase matches ShutPhase::InDrain(w) ==> (w.phase is Sending
                ==> (ev matches NetEvent::Fault(f)
                    ==> r == Step::<(), E>::Done(Err(TlsError::PassThrough(f)))))),
    {
        match self.phase {
            ShutPhase::Sched => {
                s.begin_close();
                self.phase = ShutPhase::DrainDecide;
                Step::Pending(NetAction::Again)
            }
            ShutPhase::DrainDecide => {
                if s.wants_write() {
                    self.phase = ShutPhase::InDrain(WriteIo::new());
                    Step::Pending(NetAction::Again)
                } else {
                    self.saw_drained = Ghost(true);
                    self.phase = ShutPhase::AwaitClose;
                    Step::Pending(NetAction::Close)
                }
            }
            ShutPhase::InDrain(sub0) => {
                let mut sub = sub0;
                match sub.step(s, ev) {
                    Step::Pending(a) => {
                        self.phase = ShutPhase::InDrain(sub);
                        Step::Pending(a)
                    }
                    Step::Done(Ok(_)) => {
                        self.phase = ShutPhase::DrainDecide;
                        Step::Pending(NetAction::Again)
                    }
                    Step::Done(Err(e)) => {
                        self.phase = ShutPhase::Finished;
                        Step::Done(Err(e))
                    }
                }
            }
            ShutPhase::AwaitClose => {
                match ev {
                    NetEvent::Closed => {
                        self.phase = ShutPhase::Finished;
                        Step::Done(Ok(()))
                    }
                    NetEvent::Fault(e) => {
                        self.phase = ShutPhase::Finished;
                        Step::Done(Err(TlsError::PassThrough(e)))
                    }
                    _ => {
                        proof {
                            assert(false);
                        }
                        Step::Pending(NetAction::Again)
                    }
                }
            }
            ShutPhase::Finished => {
                proof {
                    assert(false);
                }
                Step::Pending(NetAction::Again)
            }
        }
    }
}

} // verus!
