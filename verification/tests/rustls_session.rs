//! The adapter driven over real rustls sessions and a transport in memory.

use std::collections::VecDeque;
use std::io::{self, Read, Write};
use std::sync::Arc;

use ring::rand::SystemRandom;
use ring::signature::{Ed25519KeyPair, KeyPair};
use rustls::{
    Certificate, ClientConfig, ClientSession, NoClientAuth, PrivateKey, ServerConfig,
    ServerSession, Session,
};
use tokio_rustls::handshake::{HandshakeEvent, HandshakePoint};
use tokio_rustls::pump::{PumpEvent, PumpPoint};
use tokio_rustls::read::{ReadEvent, ReadPoint};
use tokio_rustls::shutdown::{ShutdownEvent, ShutdownPoint};
use tokio_rustls::write::{WriteEvent, WritePoint};
use tokio_rustls::{
    accept_async_with_session, connect_async_with_session, Failure, FailureKind, MidHandshake,
    Readiness, Step, StreamError, TlsStream,
};
use webpki::DNSNameRef;

const HANDSHAKE_RECORD: u8 = 0x16;
const ALERT_RECORD: u8 = 0x15;

/// A transport in memory. A read takes what was put in `incoming`, and
/// would block when that is empty, unless the peer has closed. A write
/// would block `blocked_writes` times, and then goes to `outgoing`.
#[derive(Default)]
struct Pipe {
    incoming: VecDeque<u8>,
    outgoing: Vec<u8>,
    peer_closed: bool,
    blocked_writes: usize,
    reads: usize,
    writes: usize,
    flushes: usize,
    shutdowns: usize,
}

impl Read for Pipe {
    fn read(&mut self, buf: &mut [u8]) -> io::Result<usize> {
        self.reads += 1;
        if self.incoming.is_empty() {
            return if self.peer_closed {
                Ok(0)
            } else {
                Err(io::Error::from(io::ErrorKind::WouldBlock))
            };
        }
        let mut n = 0;
        while n < buf.len() {
            match self.incoming.pop_front() {
                Some(byte) => buf[n] = byte,
                None => break,
            }
            n += 1;
        }
        Ok(n)
    }
}

impl Write for Pipe {
    fn write(&mut self, buf: &[u8]) -> io::Result<usize> {
        self.writes += 1;
        if self.blocked_writes > 0 {
            self.blocked_writes -= 1;
            return Err(io::Error::from(io::ErrorKind::WouldBlock));
        }
        self.outgoing.extend_from_slice(buf);
        Ok(buf.len())
    }

    fn flush(&mut self) -> io::Result<()> {
        self.flushes += 1;
        Ok(())
    }
}

fn failure(error: io::Error) -> Failure<io::Error> {
    let kind = match error.kind() {
        io::ErrorKind::WouldBlock => FailureKind::WouldBlock,
        io::ErrorKind::ConnectionAborted => FailureKind::ConnectionAborted,
        _ => FailureKind::Other,
    };
    Failure { kind, error }
}

fn pump<C: Session>(stream: &mut TlsStream<Pipe, C>) -> Result<(), StreamError<io::Error>> {
    let mut step = stream.do_io(PumpEvent::Start);
    loop {
        let point = match step {
            Step::Done(result) => return result,
            Step::Ask(point) => point,
        };
        let (io, session) = stream.get_mut();
        let event = match point {
            PumpPoint::WantsRead => PumpEvent::WantsRead(session.wants_read()),
            PumpPoint::ReadTls => PumpEvent::ReadTls(session.read_tls(io).map_err(failure)),
            PumpPoint::Process => PumpEvent::Processed(
                session
                    .process_new_packets()
                    .map_err(|error| io::Error::new(io::ErrorKind::Other, error)),
            ),
            PumpPoint::AlertWantsWrite(error) => {
                PumpEvent::AlertWantsWrite(error, session.wants_write())
            }
            PumpPoint::AlertFlush(error) => {
                PumpEvent::AlertFlushed(error, session.write_tls(io).map_err(failure))
            }
            PumpPoint::WantsWrite { read_blocked } => {
                PumpEvent::WantsWrite { read_blocked, wanted: session.wants_write() }
            }
            PumpPoint::WriteTls { read_blocked } => PumpEvent::WriteTls {
                read_blocked,
                outcome: session.write_tls(io).map_err(failure),
            },
        };
        step = stream.do_io(event);
    }
}

fn poll<C: Session>(
    handshake: &mut MidHandshake<Pipe, C>,
) -> Result<Readiness<TlsStream<Pipe, C>>, StreamError<io::Error>> {
    assert!(handshake.is_pending());
    let mut step = handshake.poll(HandshakeEvent::Start);
    loop {
        let point = match step {
            Step::Done(result) => return result,
            Step::Ask(point) => point,
        };
        let stream = handshake.get_mut().unwrap();
        let event = match point {
            HandshakePoint::IsHandshaking => {
                HandshakeEvent::IsHandshaking(stream.get_ref().1.is_handshaking())
            }
            HandshakePoint::Pump => HandshakeEvent::Pumped(pump(stream)),
            HandshakePoint::Recheck(outcome) => {
                HandshakeEvent::Rechecked(outcome, stream.get_ref().1.is_handshaking())
            }
        };
        step = handshake.poll(event);
    }
}

fn read<C: Session>(
    stream: &mut TlsStream<Pipe, C>,
    buf: &mut [u8],
) -> Result<usize, StreamError<io::Error>> {
    let mut step = stream.read(ReadEvent::Start);
    loop {
        let point = match step {
            Step::Done(result) => return result,
            Step::Ask(point) => point,
        };
        let event = match point {
            ReadPoint::Plain => ReadEvent::Plain(stream.get_mut().1.read(buf).map_err(failure)),
            ReadPoint::Pump => ReadEvent::Pumped(pump(stream)),
            ReadPoint::Settle(aborted) => ReadEvent::Settled(aborted, pump(stream)),
        };
        step = stream.read(event);
    }
}

fn write<C: Session>(
    stream: &mut TlsStream<Pipe, C>,
    buf: &[u8],
) -> Result<usize, StreamError<io::Error>> {
    let mut step = stream.write(WriteEvent::Start { len: buf.len() });
    loop {
        let point = match step {
            Step::Done(result) => return result,
            Step::Ask(point) => point,
        };
        let (io, session) = stream.get_mut();
        let event = match point {
            WritePoint::Plain => WriteEvent::Plain(session.write(buf).map_err(failure)),
            WritePoint::WantsWrite { accepted } => {
                WriteEvent::WantsWrite { accepted, wanted: session.wants_write() }
            }
            WritePoint::WriteTls { accepted } => {
                WriteEvent::WriteTls { accepted, outcome: session.write_tls(io).map_err(failure) }
            }
        };
        step = stream.write(event);
    }
}

fn shutdown<C: Session>(
    stream: &mut TlsStream<Pipe, C>,
) -> Result<Readiness<()>, Failure<io::Error>> {
    let mut step = stream.shutdown(ShutdownEvent::Start);
    loop {
        let point = match step {
            Step::Done(result) => return result,
            Step::Ask(point) => point,
        };
        let (io, session) = stream.get_mut();
        let event = match point {
            ShutdownPoint::CloseNotify => {
                session.send_close_notify();
                ShutdownEvent::CloseNotify
            }
            ShutdownPoint::WantsWrite => ShutdownEvent::WantsWrite(session.wants_write()),
            ShutdownPoint::WriteTls => {
                ShutdownEvent::WriteTls(session.write_tls(io).map_err(failure))
            }
            ShutdownPoint::Flush => ShutdownEvent::Flush(io.flush().map_err(failure)),
            ShutdownPoint::Transport => {
                io.shutdowns += 1;
                ShutdownEvent::Transport(Ok(Readiness::Ready(())))
            }
        };
        step = stream.shutdown(event);
    }
}

fn client() -> ClientSession {
    let config = Arc::new(ClientConfig::new());
    ClientSession::new(&config, DNSNameRef::try_from_ascii_str("example.com").unwrap())
}

fn server_without_certificate() -> ServerSession {
    ServerSession::new(&Arc::new(ServerConfig::new(NoClientAuth::new())))
}

/// The first flight of a client, as it goes over the wire.
fn client_hello() -> Vec<u8> {
    let mut stream = TlsStream::new(Pipe::default(), client());
    assert!(pump(&mut stream).unwrap_err().is_would_block());
    let (pipe, _) = stream.get_ref();
    assert_eq!(pipe.outgoing[0], HANDSHAKE_RECORD);
    pipe.outgoing.clone()
}

#[test]
fn client_sends_its_hello_and_waits_for_the_server() {
    let mut connect = connect_async_with_session(Pipe::default(), client());
    assert!(connect.0.is_pending());
    {
        let stream = connect.0.get_mut().unwrap();
        assert!(!stream.eof());
        assert!(!stream.shutdown_sent());
        assert!(stream.get_ref().0.outgoing.is_empty());
        assert!(stream.get_ref().1.is_handshaking());
    }
    assert!(matches!(poll(&mut connect.0), Ok(Readiness::NotReady)));
    assert!(connect.0.is_pending());
    let stream = connect.0.get_mut().unwrap();
    let (pipe, session) = stream.get_ref();
    assert_eq!(pipe.outgoing[0], HANDSHAKE_RECORD);
    assert!(pipe.reads >= 1);
    assert!(session.is_handshaking());
    assert!(!stream.eof());
}

#[test]
fn client_is_not_ready_when_its_first_write_blocks_and_sends_on_the_next_poll() {
    let pipe = Pipe { blocked_writes: 1, ..Pipe::default() };
    let mut connect = connect_async_with_session(pipe, client());
    assert!(matches!(poll(&mut connect.0), Ok(Readiness::NotReady)));
    assert!(connect.0.get_mut().unwrap().get_ref().0.outgoing.is_empty());
    assert!(matches!(poll(&mut connect.0), Ok(Readiness::NotReady)));
    assert_eq!(connect.0.get_mut().unwrap().get_ref().0.outgoing[0], HANDSHAKE_RECORD);
}

#[test]
fn handshake_fails_when_the_transport_ends_before_it() {
    let pipe = Pipe { peer_closed: true, ..Pipe::default() };
    let mut connect = connect_async_with_session(pipe, client());
    match poll(&mut connect.0) {
        Err(StreamError::UnexpectedEof) => (),
        other => panic!("the handshake ended with {:?}", other.map(|_| ())),
    }
    let stream = connect.0.get_mut().unwrap();
    assert!(stream.eof());
    // The hello still went out: the end of input is no error for the pump.
    assert_eq!(stream.get_ref().0.outgoing[0], HANDSHAKE_RECORD);
}

#[test]
fn server_writes_its_alert_before_it_reports_the_protocol_error() {
    // A server without a certificate cannot answer any hello.
    let mut pipe = Pipe::default();
    pipe.incoming.extend(client_hello());
    let mut accept = accept_async_with_session(pipe, server_without_certificate());
    match poll(&mut accept.0) {
        Err(StreamError::Protocol(error)) => assert_eq!(error.kind(), io::ErrorKind::Other),
        other => panic!("the handshake ended with {:?}", other.map(|_| ())),
    }
    let (pipe, session) = accept.0.get_mut().unwrap().get_ref();
    assert_eq!(pipe.outgoing[0], ALERT_RECORD);
    assert_eq!(pipe.writes, 1);
    assert!(!session.wants_write());
}

#[test]
fn protocol_error_survives_an_alert_that_cannot_be_written() {
    let mut pipe = Pipe { blocked_writes: 1, ..Pipe::default() };
    pipe.incoming.extend(client_hello());
    let mut accept = accept_async_with_session(pipe, server_without_certificate());
    assert!(matches!(poll(&mut accept.0), Err(StreamError::Protocol(_))));
    let (pipe, _) = accept.0.get_mut().unwrap().get_ref();
    assert_eq!(pipe.writes, 1);
    assert!(pipe.outgoing.is_empty());
}

#[test]
fn eof_stays_up_over_a_real_session() {
    let pipe = Pipe { peer_closed: true, ..Pipe::default() };
    let mut stream = TlsStream::new(pipe, client());
    assert_eq!(pump(&mut stream).map_err(|_| ()), Ok(()));
    assert!(stream.eof());
    let reads = stream.get_ref().0.reads;
    assert_eq!(reads, 1);
    // Nothing is read from the transport again, whatever is asked for.
    assert_eq!(pump(&mut stream).map_err(|_| ()), Ok(()));
    let mut buf = [0u8; 16];
    let _ = read(&mut stream, &mut buf);
    let _ = write(&mut stream, b"late");
    let _ = shutdown(&mut stream);
    assert_eq!(stream.get_ref().0.reads, reads);
    assert!(stream.eof());
}

#[test]
fn empty_write_touches_neither_session_nor_transport() {
    let mut stream = TlsStream::new(Pipe::default(), client());
    assert_eq!(write(&mut stream, b"").map_err(|_| ()), Ok(0));
    let (pipe, session) = stream.get_ref();
    assert_eq!((pipe.reads, pipe.writes, pipe.flushes), (0, 0, 0));
    assert!(pipe.outgoing.is_empty());
    // The hello is still queued in the session.
    assert!(session.wants_write());
}

#[test]
fn write_during_the_handshake_is_buffered_by_the_session() {
    let mut stream = TlsStream::new(Pipe::default(), client());
    assert_eq!(write(&mut stream, b"hello").map_err(|_| ()), Ok(5));
    // The drain sent the hello; the plaintext waits for the handshake.
    let (pipe, session) = stream.get_ref();
    assert_eq!(pipe.outgoing[0], HANDSHAKE_RECORD);
    assert!(!session.wants_write());
}

#[test]
fn write_reports_what_the_session_took_when_the_drain_blocks() {
    let pipe = Pipe { blocked_writes: 1, ..Pipe::default() };
    let mut stream = TlsStream::new(pipe, client());
    assert_eq!(write(&mut stream, b"hello").map_err(|_| ()), Ok(5));
    let (pipe, session) = stream.get_ref();
    assert!(pipe.outgoing.is_empty());
    assert!(session.wants_write());
}

#[test]
fn read_without_plaintext_would_block_once_the_pump_blocks() {
    let mut stream = TlsStream::new(Pipe::default(), client());
    let mut buf = [0u8; 16];
    match read(&mut stream, &mut buf) {
        Err(error) => assert!(error.is_would_block()),
        Ok(n) => panic!("read {} bytes of nothing", n),
    }
    // The pump ran: it sent the hello before it blocked on the read side.
    let (pipe, session) = stream.get_ref();
    assert_eq!(pipe.outgoing[0], HANDSHAKE_RECORD);
    assert!(!session.wants_write());
    assert!(!stream.eof());
}

#[test]
fn shutdown_sends_one_close_notify() {
    let mut stream = TlsStream::new(Pipe::default(), client());
    assert!(matches!(shutdown(&mut stream), Ok(Readiness::Ready(()))));
    assert!(stream.shutdown_sent());
    let sent = stream.get_ref().0.outgoing.len();
    assert!(sent > 0);
    assert_eq!((stream.get_ref().0.flushes, stream.get_ref().0.shutdowns), (1, 1));

    assert!(matches!(shutdown(&mut stream), Ok(Readiness::Ready(()))));
    assert_eq!(stream.get_ref().0.outgoing.len(), sent);
    assert_eq!((stream.get_ref().0.flushes, stream.get_ref().0.shutdowns), (2, 2));
}

#[test]
fn shutdown_is_not_ready_while_the_transport_blocks() {
    let pipe = Pipe { blocked_writes: 1, ..Pipe::default() };
    let mut stream = TlsStream::new(pipe, client());
    assert!(matches!(shutdown(&mut stream), Ok(Readiness::NotReady)));
    assert!(stream.shutdown_sent());
    assert_eq!(stream.get_ref().0.shutdowns, 0);
    assert!(matches!(shutdown(&mut stream), Ok(Readiness::Ready(()))));
    assert_eq!(stream.get_ref().0.shutdowns, 1);
}

// ---- a client and a server, talking ---------------------------------------

fn der(tag: u8, content: &[u8]) -> Vec<u8> {
    let mut out = vec![tag];
    let len = content.len();
    if len < 0x80 {
        out.push(len as u8);
    } else if len < 0x100 {
        out.extend_from_slice(&[0x81, len as u8]);
    } else {
        out.extend_from_slice(&[0x82, (len >> 8) as u8, len as u8]);
    }
    out.extend_from_slice(content);
    out
}

fn bit_string(bytes: &[u8]) -> Vec<u8> {
    let mut content = vec![0u8];
    content.extend_from_slice(bytes);
    der(0x03, &content)
}

/// A certificate for `name` that the key signs for itself, valid from 2020
/// to 2049.
fn certificate(key: &Ed25519KeyPair, name: &str) -> Vec<u8> {
    let ed25519 = der(0x30, &der(0x06, &[0x2b, 0x65, 0x70]));
    let common_name = [der(0x06, &[0x55, 0x04, 0x03]), der(0x0c, name.as_bytes())].concat();
    let subject = der(0x30, &der(0x31, &der(0x30, &common_name)));
    let validity = [der(0x17, b"200101000000Z"), der(0x17, b"491231235959Z")].concat();
    let key_info = [ed25519.clone(), bit_string(key.public_key().as_ref())].concat();
    let alt_names = der(0x30, &der(0x82, name.as_bytes()));
    let alt_name = [der(0x06, &[0x55, 0x1d, 0x11]), der(0x04, &alt_names)].concat();
    let to_be_signed = der(
        0x30,
        &[
            der(0xa0, &der(0x02, &[2])),
            der(0x02, &[1]),
            ed25519.clone(),
            subject.clone(),
            der(0x30, &validity),
            subject,
            der(0x30, &key_info),
            der(0xa3, &der(0x30, &der(0x30, &alt_name))),
        ]
        .concat(),
    );
    let signature = bit_string(key.sign(&to_be_signed).as_ref());
    der(0x30, &[to_be_signed, ed25519, signature].concat())
}

/// The sessions of a client and of a server that the client trusts.
fn sessions() -> (ClientSession, ServerSession) {
    let key = Ed25519KeyPair::generate_pkcs8(&SystemRandom::new()).unwrap();
    let pair = Ed25519KeyPair::from_pkcs8(key.as_ref()).unwrap();
    let cert = Certificate(certificate(&pair, "example.com"));

    let mut server = ServerConfig::new(NoClientAuth::new());
    server.set_single_cert(vec![cert.clone()], PrivateKey(key.as_ref().to_vec())).unwrap();
    let mut client = ClientConfig::new();
    client.root_store.add(&cert).unwrap();

    let name = DNSNameRef::try_from_ascii_str("example.com").unwrap();
    (ClientSession::new(&Arc::new(client), name), ServerSession::new(&Arc::new(server)))
}

/// Carries what each side has written to the other side.
fn carry<A: Session, B: Session>(a: &mut TlsStream<Pipe, A>, b: &mut TlsStream<Pipe, B>) {
    let sent: Vec<u8> = a.get_mut().0.outgoing.drain(..).collect();
    b.get_mut().0.incoming.extend(sent);
    let sent: Vec<u8> = b.get_mut().0.outgoing.drain(..).collect();
    a.get_mut().0.incoming.extend(sent);
}

/// A client and a server after their handshake, and the number of polls
/// that each side took.
fn connected() -> (TlsStream<Pipe, ClientSession>, TlsStream<Pipe, ServerSession>, usize) {
    let (client, server) = sessions();
    let mut connect = connect_async_with_session(Pipe::default(), client);
    let mut accept = accept_async_with_session(Pipe::default(), server);
    let mut client = None;
    let mut server = None;
    let mut polls = 0;
    while client.is_none() || server.is_none() {
        polls += 1;
        assert!(polls <= 8, "the handshake goes on and on");
        if client.is_none() {
            match poll(&mut connect.0) {
                Ok(Readiness::Ready(stream)) => client = Some(stream),
                Ok(Readiness::NotReady) => (),
                Err(error) => panic!("the client failed with {:?}", error),
            }
        }
        if server.is_none() {
            match poll(&mut accept.0) {
                Ok(Readiness::Ready(stream)) => server = Some(stream),
                Ok(Readiness::NotReady) => (),
                Err(error) => panic!("the server failed with {:?}", error),
            }
        }
        match (&mut client, &mut server) {
            (Some(client), Some(server)) => carry(client, server),
            (Some(client), None) => carry(client, accept.0.get_mut().unwrap()),
            (None, Some(server)) => carry(connect.0.get_mut().unwrap(), server),
            (None, None) => carry(connect.0.get_mut().unwrap(), accept.0.get_mut().unwrap()),
        }
    }
    assert!(!connect.0.is_pending());
    assert!(!accept.0.is_pending());
    (client.unwrap(), server.unwrap(), polls)
}

#[test]
fn client_and_server_complete_their_handshake() {
    let (client, server, polls) = connected();
    assert!(polls >= 2);
    assert!(!client.get_ref().1.is_handshaking());
    assert!(!server.get_ref().1.is_handshaking());
    assert!(!client.eof() && !server.eof());
    assert!(!client.shutdown_sent() && !server.shutdown_sent());
}

#[test]
fn plaintext_goes_both_ways() {
    let (mut client, mut server, _) = connected();
    let mut buf = [0u8; 64];

    assert_eq!(write(&mut client, b"ping").map_err(|_| ()), Ok(4));
    carry(&mut client, &mut server);
    assert_eq!(read(&mut server, &mut buf).map_err(|_| ()), Ok(4));
    assert_eq!(&buf[..4], b"ping");

    assert_eq!(write(&mut server, b"pong!").map_err(|_| ()), Ok(5));
    carry(&mut client, &mut server);
    assert_eq!(read(&mut client, &mut buf).map_err(|_| ()), Ok(5));
    assert_eq!(&buf[..5], b"pong!");

    // Nothing more has come: the read would block, and no end is seen.
    assert!(read(&mut client, &mut buf).unwrap_err().is_would_block());
    assert!(!client.eof());
}

#[test]
fn write_is_partial_when_the_transport_blocks_after_the_session_took_the_bytes() {
    let (mut client, mut server, _) = connected();
    client.get_mut().0.blocked_writes = 1;
    assert_eq!(write(&mut client, b"ping").map_err(|_| ()), Ok(4));
    assert!(client.get_ref().0.outgoing.is_empty());
    assert!(client.get_ref().1.wants_write());

    // The next pump drains what was left behind.
    assert_eq!(pump(&mut client).map_err(|_| ()), Err(()));
    carry(&mut client, &mut server);
    let mut buf = [0u8; 64];
    assert_eq!(read(&mut server, &mut buf).map_err(|_| ()), Ok(4));
    assert_eq!(&buf[..4], b"ping");
}

#[test]
fn garbage_from_the_peer_is_answered_with_an_alert_and_then_reported() {
    let (mut client, _, _) = connected();
    // A record of a kind that does not exist.
    client.get_mut().0.incoming.extend([0x63u8, 0x03, 0x03, 0x00, 0x01, 0x00]);
    let writes = client.get_ref().0.writes;
    let mut buf = [0u8; 64];
    match read(&mut client, &mut buf) {
        Err(StreamError::Protocol(error)) => assert_eq!(error.kind(), io::ErrorKind::Other),
        other => panic!("the read ended with {:?}", other),
    }
    // Whatever the session queued was written before the error came back.
    assert!(!client.get_ref().1.wants_write());
    let pipe = &client.get_ref().0;
    assert_eq!(pipe.writes > writes, !pipe.outgoing.is_empty());
}

#[test]
fn close_notify_and_the_end_of_the_transport_read_as_a_clean_end() {
    let (mut client, mut server, _) = connected();
    assert!(matches!(shutdown(&mut client), Ok(Readiness::Ready(()))));
    assert!(client.shutdown_sent());
    carry(&mut client, &mut server);
    server.get_mut().0.peer_closed = true;

    let mut buf = [0u8; 64];
    assert_eq!(read(&mut server, &mut buf).map_err(|_| ()), Ok(0));
    assert!(server.eof());
    assert_eq!(read(&mut server, &mut buf).map_err(|_| ()), Ok(0));
}

#[test]
fn end_of_the_transport_without_close_notify_reads_as_an_end() {
    let (_, mut server, _) = connected();
    server.get_mut().0.peer_closed = true;
    let mut buf = [0u8; 64];
    assert_eq!(read(&mut server, &mut buf).map_err(|_| ()), Ok(0));
    assert!(server.eof());
}

#[test]
fn plaintext_that_came_before_the_end_is_still_read() {
    let (mut client, mut server, _) = connected();
    assert_eq!(write(&mut client, b"last words").map_err(|_| ()), Ok(10));
    assert!(matches!(shutdown(&mut client), Ok(Readiness::Ready(()))));
    carry(&mut client, &mut server);
    server.get_mut().0.peer_closed = true;

    let mut buf = [0u8; 4];
    let mut heard = Vec::new();
    loop {
        match read(&mut server, &mut buf) {
            Ok(0) => break,
            Ok(n) => heard.extend_from_slice(&buf[..n]),
            Err(error) => panic!("the read failed with {:?}", error),
        }
    }
    assert_eq!(heard, b"last words");
    assert!(server.eof());
}
