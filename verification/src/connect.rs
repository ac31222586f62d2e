//! Handshakes of the two kinds of rustls session: a client's, which
//! connects, and a server's, which accepts.

use vstd::prelude::*;
use crate::handshake::{
    handshake_completes, handshake_next, HandshakeEvent, HandshakeStep, MidHandshake,
};
use crate::stream::TlsStream;

verus! {

/// The client side of a TLS session, `rustls::ClientSession`. The adapter
/// carries it and never looks inside.
#[verifier::external_type_specification]
#[verifier::external_body]
pub struct ExClientSession(rustls::ClientSession);

/// The server side of a TLS session, `rustls::ServerSession`. The adapter
/// carries it and never looks inside.
#[verifier::external_type_specification]
#[verifier::external_body]
pub struct ExServerSession(rustls::ServerSession);

/// The handshake of a client's session over the transport `S`. It ends
/// with the stream, once the connection handshake has finished.
pub struct ConnectAsync<S>(pub MidHandshake<S, rustls::ClientSession>);

/// The handshake of a server's session over the transport `S`. It ends
/// with the stream, once the accept handshake has finished.
pub struct AcceptAsync<S>(pub MidHandshake<S, rustls::ServerSession>);

/// Whether `held` is a stream on which nothing has happened yet, made of
/// `transport` and `session`.
pub open spec fn holds_fresh<S, C>(held: Option<TlsStream<S, C>>, transport: S, session: C) -> bool {
    &&& held matches Some(stream)
    &&& !stream.eof()
    &&& !stream.shutdown_sent()
    &&& stream.transport() == transport
    &&& stream.session() == session
}

/// Begins the handshake of a client's session over `stream`.
pub fn connect_async_with_session<S>(stream: S, session: rustls::ClientSession) -> (connect:
    ConnectAsync<S>)
    ensures
        holds_fresh(connect.0.stream(), stream, session),
{
    ConnectAsync(MidHandshake::new(TlsStream::new(stream, session)))
}

/// Begins the handshake of a server's session over `stream`.
pub fn accept_async_with_session<S>(stream: S, session: rustls::ServerSession) -> (accept:
    AcceptAsync<S>)
    ensures
        holds_fresh(accept.0.stream(), stream, session),
{
    AcceptAsync(MidHandshake::new(TlsStream::new(stream, session)))
}

impl<S> ConnectAsync<S> {
    /// One step of a poll of the handshake.
    pub fn poll<E>(&mut self, event: HandshakeEvent<E>) -> (step: HandshakeStep<
        S,
        rustls::ClientSession,
        E,
    >)
        requires
            old(self).0.stream().is_some(),
        ensures
            step == handshake_next(old(self).0.stream().unwrap(), event),
            final(self).0.stream() == if handshake_completes(event) {
                None
            } else {
                old(self).0.stream()
            },
    {
        self.0.poll(event)
    }
}

impl<S> AcceptAsync<S> {
    /// One step of a poll of the handshake.
    pub fn poll<E>(&mut self, event: HandshakeEvent<E>) -> (step: HandshakeStep<
        S,
        rustls::ServerSession,
        E,
    >)
        requires
            old(self).0.stream().is_some(),
        ensures
            step == handshake_next(old(self).0.stream().unwrap(), event),
            final(self).0.stream() == if handshake_completes(event) {
                None
            } else {
                old(self).0.stream()
            },
    {
        self.0.poll(event)
    }
}

} // verus!
