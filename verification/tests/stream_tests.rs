//! End-to-end exercises of the stream drivers against a real protocol engine
//! pair connected by an in-memory duplex channel.

use std::sync::Arc;

use monoio_rustls::action::{NetAction, NetEvent, Step};
use monoio_rustls::error::TlsError;
use monoio_rustls::handshake::Handshake;
use monoio_rustls::rw::{ReadOp, WriteOp};
use monoio_rustls::shutdown::Shutdown;
use monoio_rustls::stream::Stream;

/// A freshly constructed client/server stream pair that trust each other.
fn make_pair() -> (Stream, Stream) {
    let cert = rcgen::generate_simple_self_signed(vec!["localhost".to_string()]).unwrap();
    let cert_der = cert.serialize_der().unwrap();
    let key_der = cert.serialize_private_key_der();

    let server_config = rustls::ServerConfig::builder()
        .with_safe_defaults()
        .with_no_client_auth()
        .with_single_cert(
            vec![rustls::Certificate(cert_der.clone())],
            rustls::PrivateKey(key_der),
        )
        .unwrap();

    let mut roots = rustls::RootCertStore::empty();
    roots.add(&rustls::Certificate(cert_der)).unwrap();
    let client_config = rustls::ClientConfig::builder()
        .with_safe_defaults()
        .with_root_certificates(roots)
        .with_no_client_auth();

    let client_conn = rustls::ClientConnection::new(
        Arc::new(client_config),
        rustls::ServerName::try_from("localhost").unwrap(),
    )
    .unwrap();
    let server_conn = rustls::ServerConnection::new(Arc::new(server_config)).unwrap();

    (
        Stream::new(rustls::Connection::Client(client_conn)),
        Stream::new(rustls::Connection::Server(server_conn)),
    )
}

/// Uniform view of the drivers so one test harness can run them all.
trait Op {
    type Out;
    fn go(&mut self, s: &mut Stream, ev: NetEvent<u8>) -> Step<Self::Out, u8>;
}

impl Op for Handshake {
    type Out = (usize, usize);
    fn go(&mut self, s: &mut Stream, ev: NetEvent<u8>) -> Step<(usize, usize), u8> {
        self.step(s, ev)
    }
}

impl Op for ReadOp {
    type Out = usize;
    fn go(&mut self, s: &mut Stream, ev: NetEvent<u8>) -> Step<usize, u8> {
        self.step(s, ev)
    }
}

impl Op for WriteOp {
    type Out = usize;
    fn go(&mut self, s: &mut Stream, ev: NetEvent<u8>) -> Step<usize, u8> {
        self.step(s, ev)
    }
}

impl Op for Shutdown {
    type Out = ();
    fn go(&mut self, s: &mut Stream, ev: NetEvent<u8>) -> Step<(), u8> {
        self.step(s, ev)
    }
}

/// Drive one operation until it finishes or blocks on an empty inbox.
/// `waiting` remembers across calls that the op is suspended on a receive.
/// Sends go to `out`; transmits and transport closes are counted.
#[allow(clippy::too_many_arguments)]
fn drive<O: Op>(
    op: &mut O,
    s: &mut Stream,
    inbox: &mut Vec<u8>,
    eof: bool,
    out: &mut Vec<u8>,
    waiting: &mut bool,
    sends: &mut usize,
    closes: &mut usize,
) -> Option<Result<O::Out, TlsError<u8>>> {
    let mut cur: NetEvent<u8>;
    if *waiting {
        if !inbox.is_empty() {
            cur = NetEvent::Received(std::mem::take(inbox));
            *waiting = false;
        } else if eof {
            cur = NetEvent::Received(Vec::new());
            *waiting = false;
        } else {
            return None;
        }
    } else {
        cur = NetEvent::Go;
    }
    loop {
        match op.go(s, cur) {
            Step::Pending(NetAction::Again) => {
                cur = NetEvent::Go;
            }
            Step::Pending(NetAction::Transmit(b)) => {
                out.extend_from_slice(&b);
                *sends += 1;
                cur = NetEvent::Transmitted;
            }
            Step::Pending(NetAction::Close) => {
                *closes += 1;
                cur = NetEvent::Closed;
            }
            Step::Pending(NetAction::Receive) => {
                if !inbox.is_empty() {
                    cur = NetEvent::Received(std::mem::take(inbox));
                } else if eof {
                    cur = NetEvent::Received(Vec::new());
                } else {
                    *waiting = true;
                    return None;
                }
            }
            Step::Done(r) => return Some(r),
        }
    }
}

/// Run both handshakes to completion over the two in-memory pipes.
fn do_handshakes(
    client: &mut Stream,
    server: &mut Stream,
    c2s: &mut Vec<u8>,
    s2c: &mut Vec<u8>,
) -> (
    Result<(usize, usize), TlsError<u8>>,
    Result<(usize, usize), TlsError<u8>>,
) {
    let mut cop = Handshake::new(client);
    let mut sop = Handshake::new(server);
    let (mut cw, mut sw) = (false, false);
    let (mut sends, mut closes) = (0usize, 0usize);
    let mut cres = None;
    let mut sres = None;
    for _ in 0..64 {
        if cres.is_none() {
            cres = drive(
                &mut cop, client, s2c, false, c2s, &mut cw, &mut sends, &mut closes,
            );
        }
        if sres.is_none() {
            sres = drive(
                &mut sop, server, c2s, false, s2c, &mut sw, &mut sends, &mut closes,
            );
        }
        if cres.is_some() && sres.is_some() {
            break;
        }
    }
    (cres.expect("client handshake stuck"), sres.expect("server handshake stuck"))
}

/// Run one whole operation that is expected not to block indefinitely.
fn run_to_end<O: Op>(
    op: &mut O,
    s: &mut Stream,
    inbox: &mut Vec<u8>,
    eof: bool,
    out: &mut Vec<u8>,
) -> Result<O::Out, TlsError<u8>> {
    let mut waiting = false;
    let (mut sends, mut closes) = (0usize, 0usize);
    drive(op, s, inbox, eof, out, &mut waiting, &mut sends, &mut closes)
        .expect("operation blocked on an empty channel")
}

#[test]
fn handshake_completes_on_both_sides() {
    let (mut client, mut server) = make_pair();
    let mut c2s = Vec::new();
    let mut s2c = Vec::new();
    let (cres, sres) = do_handshakes(&mut client, &mut server, &mut c2s, &mut s2c);
    assert!(cres.is_ok());
    assert!(sres.is_ok());
    let (crd, cwr) = cres.unwrap();
    assert!(crd > 0);
    assert!(cwr > 0);
}

#[test]
fn round_trip_ping_pong() {
    let (mut client, mut server) = make_pair();
    let mut c2s = Vec::new();
    let mut s2c = Vec::new();
    let (cres, sres) = do_handshakes(&mut client, &mut server, &mut c2s, &mut s2c);
    assert!(cres.is_ok() && sres.is_ok());

    // client.write(b"ping") then server.read() yields exactly b"ping"
    let mut wop = WriteOp::new(&client, b"ping".to_vec());
    let wres = run_to_end(&mut wop, &mut client, &mut s2c, false, &mut c2s);
    assert_eq!(wres.unwrap(), 4);
    assert_eq!(wop.into_buffer(), b"ping".to_vec());

    let mut rop = ReadOp::new(&server, vec![0u8; 32]);
    let rres = run_to_end(&mut rop, &mut server, &mut c2s, false, &mut s2c);
    let n = rres.unwrap();
    assert_eq!(n, 4);
    let buf = rop.into_buffer();
    assert_eq!(&buf[..n], b"ping");
    assert_eq!(buf.len(), 32);

    // server.write(b"pong") then client.read() yields exactly b"pong"
    let mut wop2 = WriteOp::new(&server, b"pong".to_vec());
    let wres2 = run_to_end(&mut wop2, &mut server, &mut c2s, false, &mut s2c);
    assert_eq!(wres2.unwrap(), 4);

    let mut rop2 = ReadOp::new(&client, vec![0u8; 32]);
    let rres2 = run_to_end(&mut rop2, &mut client, &mut s2c, false, &mut c2s);
    let n2 = rres2.unwrap();
    assert_eq!(&rop2.into_buffer()[..n2], b"pong");
}

#[test]
fn long_payload_round_trips_in_order() {
    let (mut client, mut server) = make_pair();
    let mut c2s = Vec::new();
    let mut s2c = Vec::new();
    let (cres, sres) = do_handshakes(&mut client, &mut server, &mut c2s, &mut s2c);
    assert!(cres.is_ok() && sres.is_ok());

    let payload: Vec<u8> = (0..40_000u32).map(|i| (i % 251) as u8).collect();
    let mut accepted = 0usize;
    while accepted < payload.len() {
        let chunk = payload[accepted..].to_vec();
        let mut wop = WriteOp::new(&client, chunk);
        let n = run_to_end(&mut wop, &mut client, &mut s2c, false, &mut c2s).unwrap();
        assert!(n > 0, "write made no progress");
        accepted += n;
    }

    let mut got = Vec::new();
    while got.len() < payload.len() {
        let mut rop = ReadOp::new(&server, vec![0u8; 4096]);
        let n = run_to_end(&mut rop, &mut server, &mut c2s, false, &mut s2c).unwrap();
        assert!(n > 0, "read made no progress");
        let buf = rop.into_buffer();
        got.extend_from_slice(&buf[..n]);
    }
    assert_eq!(got, payload);
}

#[test]
fn read_rejected_before_handshake() {
    let (mut client, _server) = make_pair();
    let mut rop = ReadOp::new(&client, vec![0u8; 8]);
    let r = rop.step(&mut client, NetEvent::<u8>::Go);
    assert!(matches!(r, Step::Done(Err(TlsError::NotReady))));
    assert_eq!(rop.into_buffer(), vec![0u8; 8]);
}

#[test]
fn write_rejected_before_handshake() {
    let (mut client, _server) = make_pair();
    let mut wop = WriteOp::new(&client, b"early".to_vec());
    let r = wop.step(&mut client, NetEvent::<u8>::Go);
    assert!(matches!(r, Step::Done(Err(TlsError::NotReady))));
    assert_eq!(wop.into_buffer(), b"early".to_vec());
}

#[test]
fn read_write_rejected_after_shutdown() {
    let (mut client, mut server) = make_pair();
    let mut c2s = Vec::new();
    let mut s2c = Vec::new();
    let (cres, sres) = do_handshakes(&mut client, &mut server, &mut c2s, &mut s2c);
    assert!(cres.is_ok() && sres.is_ok());

    let mut sop = Shutdown::new();
    let r = run_to_end(&mut sop, &mut client, &mut s2c, false, &mut c2s);
    assert!(r.is_ok());

    let mut rop = ReadOp::new(&client, vec![0u8; 8]);
    assert!(matches!(
        rop.step(&mut client, NetEvent::<u8>::Go),
        Step::Done(Err(TlsError::NotReady))
    ));
    let mut wop = WriteOp::new(&client, b"late".to_vec());
    assert!(matches!(
        wop.step(&mut client, NetEvent::<u8>::Go),
        Step::Done(Err(TlsError::NotReady))
    ));
}

#[test]
fn handshake_truncated_on_end_of_input() {
    let (mut client, _server) = make_pair();
    let mut c2s = Vec::new();
    let mut s2c = Vec::new();
    // The server never answers: the channel reports orderly end of input
    // while the engine is still handshaking.
    let mut cop = Handshake::new(&client);
    let r = run_to_end(&mut cop, &mut client, &mut s2c, true, &mut c2s);
    assert!(matches!(r, Err(TlsError::Truncated)));
}

#[test]
fn garbage_during_handshake_is_protocol_violation() {
    let (_client, mut server) = make_pair();
    let mut s2c = Vec::new();
    let mut inbox = b"this is not a tls record at all....".to_vec();
    let mut sop = Handshake::new(&server);
    let r = run_to_end(&mut sop, &mut server, &mut inbox, false, &mut s2c);
    assert!(matches!(r, Err(TlsError::ProtocolViolation)));
}

#[test]
fn channel_fault_surfaces_unchanged_from_write() {
    let (mut client, mut server) = make_pair();
    let mut c2s = Vec::new();
    let mut s2c = Vec::new();
    let (cres, sres) = do_handshakes(&mut client, &mut server, &mut c2s, &mut s2c);
    assert!(cres.is_ok() && sres.is_ok());

    let original = b"payload".to_vec();
    let mut wop = WriteOp::new(&client, original.clone());
    // Step by hand so the one send can be failed.
    let mut ev: NetEvent<u8> = NetEvent::Go;
    let res = loop {
        match wop.step(&mut client, ev) {
            Step::Pending(NetAction::Again) => ev = NetEvent::Go,
            Step::Pending(NetAction::Transmit(_)) => ev = NetEvent::Fault(7),
            Step::Pending(_) => panic!("unexpected action during write"),
            Step::Done(r) => break r,
        }
    };
    assert!(matches!(res, Err(TlsError::PassThrough(7))));
    // The caller's buffer comes back unchanged on the error path.
    assert_eq!(wop.into_buffer(), original);
}

#[test]
fn shutdown_quiescent_is_one_send_then_one_close() {
    let (mut client, mut server) = make_pair();
    let mut c2s = Vec::new();
    let mut s2c = Vec::new();
    let (cres, sres) = do_handshakes(&mut client, &mut server, &mut c2s, &mut s2c);
    assert!(cres.is_ok() && sres.is_ok());

    // Nothing is queued: shutdown must degenerate to exactly one send (the
    // close notification) followed by exactly one transport close.
    let mut sop = Shutdown::new();
    let mut waiting = false;
    let (mut sends, mut closes) = (0usize, 0usize);
    let r = drive(
        &mut sop, &mut client, &mut s2c, false, &mut c2s, &mut waiting, &mut sends, &mut closes,
    )
    .expect("shutdown blocked");
    assert!(r.is_ok());
    assert_eq!(sends, 1);
    assert_eq!(closes, 1);
}

#[test]
fn orderly_closure_reads_as_zero() {
    let (mut client, mut server) = make_pair();
    let mut c2s = Vec::new();
    let mut s2c = Vec::new();
    let (cres, sres) = do_handshakes(&mut client, &mut server, &mut c2s, &mut s2c);
    assert!(cres.is_ok() && sres.is_ok());

    let mut sop = Shutdown::new();
    let r = run_to_end(&mut sop, &mut client, &mut s2c, false, &mut c2s);
    assert!(r.is_ok());

    // The peer sees the protocol-level close notification: an orderly
    // closure signal (zero), not a generic error.
    let mut rop = ReadOp::new(&server, vec![0u8; 16]);
    let rres = run_to_end(&mut rop, &mut server, &mut c2s, true, &mut s2c);
    assert_eq!(rres.unwrap(), 0);
}

#[test]
fn silent_transport_close_is_unexpected_closure() {
    let (mut client, mut server) = make_pair();
    let mut c2s = Vec::new();
    let mut s2c = Vec::new();
    let (cres, sres) = do_handshakes(&mut client, &mut server, &mut c2s, &mut s2c);
    assert!(cres.is_ok() && sres.is_ok());

    // The transport ends without any close notification.
    let mut rop = ReadOp::new(&server, vec![0u8; 16]);
    let rres = run_to_end(&mut rop, &mut server, &mut c2s, true, &mut s2c);
    assert!(matches!(rres, Err(TlsError::UnexpectedClosure)));
}

#[test]
fn handshake_rejected_after_shutdown() {
    let (mut client, mut server) = make_pair();
    let mut c2s = Vec::new();
    let mut s2c = Vec::new();
    let (cres, sres) = do_handshakes(&mut client, &mut server, &mut c2s, &mut s2c);
    assert!(cres.is_ok() && sres.is_ok());

    let mut sop = Shutdown::new();
    let r = run_to_end(&mut sop, &mut client, &mut s2c, false, &mut c2s);
    assert!(r.is_ok());

    let mut hop = Handshake::new(&client);
    let r2 = hop.step(&mut client, NetEvent::<u8>::Go);
    assert!(matches!(r2, Step::Done(Err(TlsError::NotReady))));
}

#[test]
fn channel_fault_surfaces_unchanged_from_handshake() {
    let (mut client, _server) = make_pair();
    let mut hop = Handshake::new(&client);
    let mut ev: NetEvent<u8> = NetEvent::Go;
    let res = loop {
        match hop.step(&mut client, ev) {
            Step::Pending(NetAction::Again) => ev = NetEvent::Go,
            // Fail the client's first flight on the wire.
            Step::Pending(NetAction::Transmit(_)) => ev = NetEvent::Fault(42),
            Step::Pending(_) => panic!("unexpected action during first flight"),
            Step::Done(r) => break r,
        }
    };
    assert!(matches!(res, Err(TlsError::PassThrough(42))));
}

#[test]
fn write_reports_bytes_accepted_and_keeps_buffer() {
    let (mut client, mut server) = make_pair();
    let mut c2s = Vec::new();
    let mut s2c = Vec::new();
    let (cres, sres) = do_handshakes(&mut client, &mut server, &mut c2s, &mut s2c);
    assert!(cres.is_ok() && sres.is_ok());

    let original = b"buffer preservation".to_vec();
    let mut wop = WriteOp::new(&client, original.clone());
    let n = run_to_end(&mut wop, &mut client, &mut s2c, false, &mut c2s).unwrap();
    assert!(n <= original.len());
    assert_eq!(wop.into_buffer(), original);
}
