//! The stream state: one exclusively-owned protocol engine, the queue of raw
//! encrypted bytes received from the channel but not yet consumed by the
//! engine, and ghost ledgers that pin down that no raw byte is ever lost,
//! duplicated or reordered on its way between the channel and the engine.

use vstd::prelude::*;

verus! {

#[verifier::external_type_specification]
#[verifier::external_body]
pub struct ExConnection(rustls::Connection);

/// What the engine did with the raw bytes offered to it.
#[derive(Clone, Copy)]
pub enum PullOutcome {
    /// It consumed this many bytes from the front of the queue.
    Took(usize),
    /// It refused in a non-transient way (its inbound plaintext queue is
    /// full and nothing drains it).
    Refused,
}

/// What the engine said when asked to validate and decrypt queued bytes.
#[derive(Clone, Copy)]
pub enum ProcessOutcome {
    /// The queued records were accepted; `peer_closed` reports whether the
    /// peer has signalled protocol-level closure.
    Accepted { peer_closed: bool },
    /// Validation or decryption failed: the inbound data violates the
    /// protocol.
    Reject,
}

/// What the engine answered to a request for decrypted plaintext.
#[derive(Clone, Copy)]
pub enum PlainOutcome {
    /// This many bytes were copied into the front of the destination.  Zero
    /// with a non-empty destination means the peer closed the session
    /// cleanly.
    Got(usize),
    /// No plaintext is ready yet: pump more raw bytes first.
    NoData,
    /// The transport ended without a protocol-level close notification.
    Closed,
}

/// Relies on `rustls::Connection::read_tls`: it moves at most `src.len()`
/// bytes from the front of `src` into the engine's inbound record buffer and
/// reports how many, or refuses non-transiently when the engine's received
/// plaintext buffer is full or the bytes overrun its framing limits.  The
/// engine always prepares a non-empty read destination or refuses, so a
/// count of zero can only come from an empty source.  With an in-memory
/// slice as the source no transport fault can occur.
#[verifier::external_body]
fn pull_tls(conn: &mut rustls::Connection, src: &Vec<u8>) -> (r: PullOutcome)
    ensures
        (r matches PullOutcome::Took(n) ==> n <= src@.len()
            && (n == 0 ==> src@.len() == 0)),
{
    let mut rd: &[u8] = src.as_slice();
    match conn.read_tls(&mut rd) {
        Ok(n) => PullOutcome::Took(n),
        Err(_) => PullOutcome::Refused,
    }
}

/// Relies on `rustls::Connection::write_tls`: it appends the engine's queued
/// outbound encrypted bytes to `out` and never fails when writing to a
/// `Vec`.  The bytes themselves are encrypted records and cannot be stated
/// further.
#[verifier::external_body]
fn push_tls(conn: &mut rustls::Connection, out: &mut Vec<u8>)
    ensures
        final(out)@.len() >= old(out)@.len(),
        final(out)@.take(old(out)@.len() as int) == old(out)@,
{
    let _ = conn.write_tls(out);
}

/// Relies on `rustls::Connection::process_new_packets` and
/// `rustls::IoState::peer_has_closed`: the engine validates and decrypts the
/// raw bytes it has consumed, reporting protocol violations and whether the
/// peer signalled closure.
#[verifier::external_body]
fn process_packets(conn: &mut rustls::Connection) -> (r: ProcessOutcome)
{
    match conn.process_new_packets() {
        Ok(st) => ProcessOutcome::Accepted { peer_closed: st.peer_has_closed() },
        Err(_) => ProcessOutcome::Reject,
    }
}

/// Relies on `rustls::CommonState::is_handshaking`.
#[verifier::external_body]
fn engine_is_handshaking(conn: &rustls::Connection) -> bool {
    conn.is_handshaking()
}

/// Relies on `rustls::CommonState::wants_read`.
#[verifier::external_body]
fn engine_wants_read(conn: &rustls::Connection) -> bool {
    conn.wants_read()
}

/// Relies on `rustls::CommonState::wants_write`.
#[verifier::external_body]
fn engine_wants_write(conn: &rustls::Connection) -> bool {
    conn.wants_write()
}

/// Relies on `rustls::CommonState::send_close_notify`: it queues one
/// protocol-level close record for the next flush.
#[verifier::external_body]
fn engine_send_close_notify(conn: &mut rustls::Connection)
{
    conn.send_close_notify();
}

/// Relies on the `std::io::Write` impl of `rustls::Writer`: it accepts a
/// prefix of `data` into the engine's outbound plaintext queue, synchronously
/// and infallibly, and reports its length.
#[verifier::external_body]
fn write_plain_tls(conn: &mut rustls::Connection, data: &Vec<u8>) -> (n: usize)
    ensures
        n <= data@.len(),
{
    match std::io::Write::write(&mut conn.writer(), data.as_slice()) {
        Ok(n) => n,
        Err(_) => 0,
    }
}

/// Relies on the `std::io::Read` impl of `rustls::Reader`: it overwrites a
/// prefix of `buf` with decrypted plaintext and reports its length; zero with
/// a non-empty `buf` means the peer closed the session cleanly.  `NoData` is
/// its transient "would block" answer, `Closed` its report of a transport end
/// without protocol-level closure.
#[verifier::external_body]
fn read_plain_tls(conn: &mut rustls::Connection, buf: &mut Vec<u8>) -> (r: PlainOutcome)
    ensures
        final(buf)@.len() == old(buf)@.len(),
        (r matches PlainOutcome::Got(n) ==> n <= final(buf)@.len()
            && final(buf)@.skip(n as int) == old(buf)@.skip(n as int)),
        (!(r matches PlainOutcome::Got(_)) ==> final(buf)@ == old(buf)@),
{
    match std::io::Read::read(&mut conn.reader(), buf.as_mut_slice()) {
        Ok(n) => PlainOutcome::Got(n),
        Err(e) if e.kind() == std::io::ErrorKind::WouldBlock => PlainOutcome::NoData,
        Err(_) => PlainOutcome::Closed,
    }
}

/// Remove the first `n` bytes of `v`, keeping the rest in order.
fn drop_prefix(v: &mut Vec<u8>, n: usize)
    requires
        n <= old(v)@.len(),
    ensures
        final(v)@ == old(v)@.skip(n as int),
{
    let mut rest: Vec<u8> = Vec::new();
    let mut i: usize = n;
    while i < v.len()
        invariant
            n <= i <= v@.len(),
            v@ == old(v)@,
            rest@ == v@.subrange(n as int, i as int),
        decreases v@.len() - i,
    {
        let b = v[i];
        rest.push(b);
        i = i + 1;
    }
    assert(rest@ == v@.skip(n as int));
    *v = rest;
}

/// One secured stream: the protocol engine, the raw bytes received from the
/// channel and not yet consumed by the engine, and the flags that gate the
/// application operations.
///
/// The ghost ledgers record every byte that ever crossed each boundary:
/// `fed` the raw bytes handed in from the channel, `consumed` the prefix of
/// those the engine has taken, `sent` the raw bytes handed out to the
/// channel, `accepted_plain` the plaintext accepted from the application and
/// `delivered` the plaintext delivered to it.  The well-formedness invariant
/// `wf` states the inbound FIFO law: what was fed is exactly what was
/// consumed followed by what is still pending, so no raw byte is lost,
/// duplicated or reordered by the pump.
pub struct Stream {
    conn: rustls::Connection,
    raw_in: Vec<u8>,
    raw_eof: bool,
    hs_done: bool,
    shut: bool,
    g_fed: Ghost<Seq<u8>>,
    g_consumed: Ghost<Seq<u8>>,
    g_sent: Ghost<Seq<u8>>,
    g_plain_in: Ghost<Seq<u8>>,
    g_plain_out: Ghost<Seq<u8>>,
}

impl Stream {
    /// Raw bytes received from the channel and not yet consumed by the engine.
    pub closed spec fn pending(self) -> Seq<u8> {
        self.raw_in@
    }

    /// Every raw byte ever fed in from the channel, in order.
    pub closed spec fn fed(self) -> Seq<u8> {
        self.g_fed@
    }

    /// Every raw byte the engine has consumed, in order.
    pub closed spec fn consumed(self) -> Seq<u8> {
        self.g_consumed@
    }

    /// Every raw byte ever handed out to the channel, in order.
    pub closed spec fn sent(self) -> Seq<u8> {
        self.g_sent@
    }

    /// Every plaintext byte delivered to the application, in order.
    pub closed spec fn delivered(self) -> Seq<u8> {
        self.g_plain_in@
    }

    /// Every plaintext byte the engine accepted from the application, in
    /// order.
    pub closed spec fn accepted_plain(self) -> Seq<u8> {
        self.g_plain_out@
    }

    /// Whether the channel has reported orderly end of input.
    pub closed spec fn eof_seen(self) -> bool {
        self.raw_eof
    }

    /// Whether the handshake driver has run to successful completion.
    pub closed spec fn handshake_done(self) -> bool {
        self.hs_done
    }

    /// Whether shutdown has been invoked; the stream must not be used for
    /// reads or writes afterwards.
    pub closed spec fn is_shut(self) -> bool {
        self.shut
    }

    /// The inbound FIFO law: the bytes fed in are exactly the bytes consumed
    /// by the engine followed by the bytes still pending, in order.
    pub open spec fn wf(self) -> bool {
        self.fed() == self.consumed() + self.pending()
    }

    /// Pair an already-established channel's stream with a freshly
    /// constructed engine; the role (client or server) is fixed by the
    /// engine.  The handshake must be driven to completion before any
    /// application read or write.
    pub fn new(session: rustls::Connection) -> (r: Stream)
        ensures
            r.pending() == Seq::<u8>::empty(),
            r.fed() == Seq::<u8>::empty(),
            r.consumed() == Seq::<u8>::empty(),
            r.sent() == Seq::<u8>::empty(),
            r.delivered() == Seq::<u8>::empty(),
            r.accepted_plain() == Seq::<u8>::empty(),
            !r.eof_seen(),
            !r.handshake_done(),
            !r.is_shut(),
            r.wf(),
    {
        let r = Stream {
            conn: session,
            raw_in: Vec::new(),
            raw_eof: false,
            hs_done: false,
            shut: false,
            g_fed: Ghost(Seq::empty()),
            g_consumed: Ghost(Seq::empty()),
            g_sent: Ghost(Seq::empty()),
            g_plain_in: Ghost(Seq::empty()),
            g_plain_out: Ghost(Seq::empty()),
        };
        assert(r.fed() =~= r.consumed() + r.pending());
        r
    }

    /// Hand the stream the outcome of one channel receive: the bytes that
    /// arrived, in order; an empty buffer records orderly end of input.
    pub fn feed_incoming(&mut self, data: Vec<u8>)
        ensures
            final(self).pending() == old(self).pending() + data@,
            final(self).fed() == old(self).fed() + data@,
            final(self).consumed() == old(self).consumed(),
            final(self).sent() == old(self).sent(),
            final(self).eof_seen() == (old(self).eof_seen() || data@.len() == 0),
            final(self).handshake_done() == old(self).handshake_done(),
            final(self).is_shut() == old(self).is_shut(),
            final(self).delivered() == old(self).delivered(),
            final(self).accepted_plain() == old(self).accepted_plain(),
            old(self).wf() ==> final(self).wf(),
    {
        if data.len() == 0 {
            self.raw_eof = true;
        }
        let mut i: usize = 0;
        while i < data.len()
            invariant
                i <= data@.len(),
                self.raw_in@ == old(self).raw_in@ + data@.take(i as int),
                self.raw_eof == (old(self).raw_eof || data@.len() == 0),
                self.conn == old(self).conn,
                self.hs_done == old(self).hs_done,
                self.shut == old(self).shut,
                self.g_fed == old(self).g_fed,
                self.g_consumed == old(self).g_consumed,
                self.g_sent == old(self).g_sent,
                self.g_plain_in == old(self).g_plain_in,
                self.g_plain_out == old(self).g_plain_out,
            decreases data@.len() - i,
        {
            let b = data[i];
            self.raw_in.push(b);
            assert(self.raw_in@ =~= old(self).raw_in@ + data@.take(i as int + 1));
            i = i + 1;
        }
        assert(self.raw_in@ =~= old(self).raw_in@ + data@);
        self.g_fed = Ghost(self.g_fed@ + data@);
        assert(old(self).wf() ==> self.g_fed@ =~= self.g_consumed@ + self.raw_in@);
    }

    /// Offer the pending raw bytes to the engine and record what it took.
    pub(crate) fn pull_encrypted(&mut self) -> (r: PullOutcome)
        ensures
            (r matches PullOutcome::Took(n) ==> n <= old(self).pending().len()
                && (n == 0 ==> old(self).pending().len() == 0)
                && final(self).pending() == old(self).pending().skip(n as int)
                && final(self).consumed() == old(self).consumed()
                    + old(self).pending().take(n as int)),
            (r is Refused ==> final(self).pending() == old(self).pending()
                && final(self).consumed() == old(self).consumed()),
            final(self).fed() == old(self).fed(),
            final(self).sent() == old(self).sent(),
            final(self).eof_seen() == old(self).eof_seen(),
            final(self).handshake_done() == old(self).handshake_done(),
            final(self).is_shut() == old(self).is_shut(),
            final(self).delivered() == old(self).delivered(),
            final(self).accepted_plain() == old(self).accepted_plain(),
            old(self).wf() ==> final(self).wf(),
    {
        let outcome = pull_tls(&mut self.conn, &self.raw_in);
        match outcome {
            PullOutcome::Took(n) => {
                self.g_consumed = Ghost(self.g_consumed@ + self.raw_in@.take(n as int));
                drop_prefix(&mut self.raw_in, n);
                assert(old(self).wf() ==> self.g_fed@ =~= self.g_consumed@ + self.raw_in@);
                PullOutcome::Took(n)
            }
            PullOutcome::Refused => PullOutcome::Refused,
        }
    }

    /// Ask the engine to validate and decrypt what it has consumed.
    pub(crate) fn process_incoming(&mut self) -> (r: ProcessOutcome)
        ensures
            final(self).pending() == old(self).pending(),
            final(self).fed() == old(self).fed(),
            final(self).consumed() == old(self).consumed(),
            final(self).sent() == old(self).sent(),
            final(self).eof_seen() == old(self).eof_seen(),
            final(self).handshake_done() == old(self).handshake_done(),
            final(self).is_shut() == old(self).is_shut(),
            final(self).delivered() == old(self).delivered(),
            final(self).accepted_plain() == old(self).accepted_plain(),
            old(self).wf() ==> final(self).wf(),
    {
        process_packets(&mut self.conn)
    }

    /// Drain the engine's queued outbound encrypted bytes; the result is what
    /// must now be handed to the channel, recorded in the `sent` ledger.
    pub(crate) fn push_encrypted(&mut self) -> (out: Vec<u8>)
        ensures
            final(self).sent() == old(self).sent() + out@,
            final(self).pending() == old(self).pending(),
            final(self).fed() == old(self).fed(),
            final(self).consumed() == old(self).consumed(),
            final(self).eof_seen() == old(self).eof_seen(),
            final(self).handshake_done() == old(self).handshake_done(),
            final(self).is_shut() == old(self).is_shut(),
            final(self).delivered() == old(self).delivered(),
            final(self).accepted_plain() == old(self).accepted_plain(),
            old(self).wf() ==> final(self).wf(),
    {
        let mut out: Vec<u8> = Vec::new();
        push_tls(&mut self.conn, &mut out);
        self.g_sent = Ghost(self.g_sent@ + out@);
        out
    }

    /// Hand plaintext to the engine's outgoing-encryption step; returns how
    /// many bytes it accepted.  Purely synchronous and in-memory.
    pub(crate) fn write_plain(&mut self, data: &Vec<u8>) -> (n: usize)
        ensures
            n <= data@.len(),
            final(self).accepted_plain() == old(self).accepted_plain()
                + data@.take(n as int),
            final(self).pending() == old(self).pending(),
            final(self).fed() == old(self).fed(),
            final(self).consumed() == old(self).consumed(),
            final(self).sent() == old(self).sent(),
            final(self).eof_seen() == old(self).eof_seen(),
            final(self).handshake_done() == old(self).handshake_done(),
            final(self).is_shut() == old(self).is_shut(),
            final(self).delivered() == old(self).delivered(),
            old(self).wf() ==> final(self).wf(),
    {
        let n = write_plain_tls(&mut self.conn, data);
        self.g_plain_out = Ghost(self.g_plain_out@ + data@.take(n as int));
        n
    }

    /// Extract already-decrypted plaintext into the front of `buf`.
    pub(crate) fn read_plain(&mut self, buf: &mut Vec<u8>) -> (r: PlainOutcome)
        ensures
            final(buf)@.len() == old(buf)@.len(),
            (r matches PlainOutcome::Got(n) ==> n <= final(buf)@.len()
                && final(buf)@.skip(n as int) == old(buf)@.skip(n as int)),
            (!(r matches PlainOutcome::Got(_)) ==> final(buf)@ == old(buf)@),
            (r matches PlainOutcome::Got(n) ==> final(self).delivered()
                == old(self).delivered() + final(buf)@.take(n as int)),
            (!(r matches PlainOutcome::Got(_)) ==> final(self).delivered()
                == old(self).delivered()),
            final(self).pending() == old(self).pending(),
            final(self).fed() == old(self).fed(),
            final(self).consumed() == old(self).consumed(),
            final(self).sent() == old(self).sent(),
            final(self).eof_seen() == old(self).eof_seen(),
            final(self).handshake_done() == old(self).handshake_done(),
            final(self).is_shut() == old(self).is_shut(),
            final(self).accepted_plain() == old(self).accepted_plain(),
            old(self).wf() ==> final(self).wf(),
    {
        let r = read_plain_tls(&mut self.conn, buf);
        match r {
            PlainOutcome::Got(n) => {
                self.g_plain_in = Ghost(self.g_plain_in@ + buf@.take(n as int));
            }
            _ => {}
        }
        r
    }

    /// Schedule the protocol-level close notification and mark the stream
    /// unusable for further reads and writes.
    pub(crate) fn begin_close(&mut self)
        ensures
            final(self).is_shut(),
            final(self).pending() == old(self).pending(),
            final(self).fed() == old(self).fed(),
            final(self).consumed() == old(self).consumed(),
            final(self).sent() == old(self).sent(),
            final(self).eof_seen() == old(self).eof_seen(),
            final(self).handshake_done() == old(self).handshake_done(),
            final(self).delivered() == old(self).delivered(),
            final(self).accepted_plain() == old(self).accepted_plain(),
            old(self).wf() ==> final(self).wf(),
    {
        engine_send_close_notify(&mut self.conn);
        self.shut = true;
    }

    /// Record that the handshake driver ran to successful completion.
    pub(crate) fn mark_handshake_done(&mut self)
        ensures
            final(self).handshake_done(),
            final(self).pending() == old(self).pending(),
            final(self).fed() == old(self).fed(),
            final(self).consumed() == old(self).consumed(),
            final(self).sent() == old(self).sent(),
            final(self).eof_seen() == old(self).eof_seen(),
            final(self).is_shut() == old(self).is_shut(),
            final(self).delivered() == old(self).delivered(),
            final(self).accepted_plain() == old(self).accepted_plain(),
            old(self).wf() ==> final(self).wf(),
    {
        self.hs_done = true;
    }

    /// Whether the engine is still performing the handshake.
    pub fn is_handshaking(&self) -> bool {
        engine_is_handshaking(&self.conn)
    }

    /// Whether the engine needs more raw input.
    pub fn wants_read(&self) -> bool {
        engine_wants_read(&self.conn)
    }

    /// Whether the engine has outbound encrypted bytes queued.
    pub fn wants_write(&self) -> bool {
        engine_wants_write(&self.conn)
    }

    /// Whether any pending raw bytes are queued for the engine.
    pub fn has_pending(&self) -> (r: bool)
        ensures
            r == (self.pending().len() > 0),
    {
        self.raw_in.len() > 0
    }

    /// Whether the channel has reported orderly end of input.
    pub fn eof_flag(&self) -> (r: bool)
        ensures
            r == self.eof_seen(),
    {
        self.raw_eof
    }

    /// Whether the handshake has run to successful completion.
    pub fn handshake_flag(&self) -> (r: bool)
        ensures
            r == self.handshake_done(),
    {
        self.hs_done
    }

    /// Whether shutdown has been invoked.
    pub fn shut_flag(&self) -> (r: bool)
        ensures
            r == self.is_shut(),
    {
        self.shut
    }
}

/// Law: the raw inbound bytes move in strict FIFO order with no loss and no
/// duplication.  On every well-formed stream, what the engine has consumed
/// is exactly a prefix of what was fed in from the channel, and the pending
/// bytes are exactly the remainder, in order.
pub proof fn lemma_inbound_fifo(s: Stream)
    requires
        s.wf(),
    ensures
        s.consumed() == s.fed().take(s.consumed().len() as int),
        s.pending() == s.fed().skip(s.consumed().len() as int),
{
    assert(s.fed().take(s.consumed().len() as int) =~= s.consumed());
    assert(s.fed().skip(s.consumed().len() as int) =~= s.pending());
}

} // verus!
