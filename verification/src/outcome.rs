//! The vocabulary shared by every operation of the adapter: how an outside
//! failure is classified, which errors the adapter reports, and the shape of
//! one step of a resumable operation.

use vstd::prelude::*;

verus! {

/// The classes of outside failure that the adapter tells apart.
#[derive(Clone, Copy, Debug, PartialEq, Eq)]
pub enum FailureKind {
    /// The operation could not complete without blocking.
    WouldBlock,
    /// The session has no more plaintext to give: the peer has closed it.
    ConnectionAborted,
    /// Any other failure.
    Other,
}

/// A failure reported by the session or the transport, with the class the
/// adapter reads and the caller's own error value, which it never opens.
#[derive(Debug, PartialEq, Eq)]
pub struct Failure<E> {
    pub kind: FailureKind,
    pub error: E,
}

impl<E> Failure<E> {
    /// A failure meaning "try again later".
    pub open spec fn blocked(self) -> bool {
        self.kind is WouldBlock
    }

    /// A failure meaning that the peer has closed the session.
    pub open spec fn aborted(self) -> bool {
        self.kind is ConnectionAborted
    }

    /// Tells whether this failure means "try again later".
    pub fn is_would_block(&self) -> (b: bool)
        ensures
            b == self.blocked(),
    {
        match self.kind {
            FailureKind::WouldBlock => true,
            _ => false,
        }
    }

    /// Tells whether this failure means that the peer has closed the
    /// session.
    pub fn is_connection_aborted(&self) -> (b: bool)
        ensures
            b == self.aborted(),
    {
        match self.kind {
            FailureKind::ConnectionAborted => true,
            _ => false,
        }
    }
}

/// An error reported by the adapter.
#[derive(Debug, PartialEq, Eq)]
pub enum StreamError<E> {
    /// Raised by the adapter itself: nothing more can be done until the
    /// transport is ready again.
    WouldBlock,
    /// Raised by the handshake: the transport ended before the handshake did.
    UnexpectedEof,
    /// The session rejected what the peer sent. Terminal.
    Protocol(E),
    /// A failure of the session or the transport, handed on unchanged.
    Outside(Failure<E>),
}

impl<E> StreamError<E> {
    /// An error meaning "try again later", whether the adapter raised it or
    /// an outside failure of that class was handed on.
    pub open spec fn blocked(self) -> bool {
        match self {
            StreamError::WouldBlock => true,
            StreamError::Outside(failure) => failure.blocked(),
            _ => false,
        }
    }

    /// Tells whether this error means "try again later".
    pub fn is_would_block(&self) -> (b: bool)
        ensures
            b == self.blocked(),
    {
        match self {
            StreamError::WouldBlock => true,
            StreamError::Outside(failure) => failure.is_would_block(),
            _ => false,
        }
    }
}

/// Whether a non-blocking operation finished or has to be tried again later.
#[derive(Debug, PartialEq, Eq)]
pub enum Readiness<T> {
    /// The operation finished with this value.
    Ready(T),
    /// The operation would have blocked; the caller tries again later.
    NotReady,
}

/// One step of a resumable operation: either the next outside call to make,
/// or the operation's result.
#[derive(Debug, PartialEq, Eq)]
pub enum Step<A, R> {
    /// Make the call that `A` names and come back with its answer.
    Ask(A),
    /// The operation is over.
    Done(R),
}

} // verus!
