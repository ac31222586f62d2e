//! The stream: a transport and a session, owned together, with the two
//! flags that the adapter keeps about them.

use vstd::prelude::*;
use crate::flush::{flush_next, FlushEvent, FlushPoint, FlushStep};
use crate::outcome::{Readiness, Step, StreamError};
use crate::pump::{pump_eof, pump_next, pump_round, PumpEvent, PumpPoint, PumpStep};
use crate::read::{read_next, ReadEvent, ReadPoint, ReadStep};
use crate::shutdown::{shutdown_flag, shutdown_next, ShutdownEvent, ShutdownPoint, ShutdownStep};
use crate::write::{write_next, WriteEvent, WritePoint, WriteStep};

verus! {

/// A transport and a TLS session driven over it.
///
/// `S` is the transport and `C` the session. The stream owns both and never
/// looks inside either: every call on them is asked for by a step and made
/// by whoever drives the stream.
#[derive(Debug)]
pub struct TlsStream<S, C> {
    is_shutdown: bool,
    eof: bool,
    io: S,
    session: C,
}

impl<S, C> TlsStream<S, C> {
    /// Whether the transport has signalled end-of-input.
    pub closed spec fn spec_eof(&self) -> bool {
        self.eof
    }

    /// Whether a close-notify has been handed to the session.
    pub closed spec fn spec_shutdown_sent(&self) -> bool {
        self.is_shutdown
    }

    /// The transport that the stream owns.
    pub closed spec fn transport(&self) -> S {
        self.io
    }

    /// The session that the stream owns.
    pub closed spec fn session(&self) -> C {
        self.session
    }

    /// Pairs a transport with a session. Nothing has been read or sent yet.
    pub fn new(io: S, session: C) -> (stream: TlsStream<S, C>)
        ensures
            !stream.spec_eof(),
            !stream.spec_shutdown_sent(),
            stream.transport() == io,
            stream.session() == session,
    {
        TlsStream { is_shutdown: false, eof: false, io: io, session: session }
    }

    /// The transport and the session.
    pub fn get_ref(&self) -> (pair: (&S, &C))
        ensures
            *pair.0 == self.transport(),
            *pair.1 == self.session(),
    {
        (&self.io, &self.session)
    }

    /// The transport and the session, to call them. The flags stay as they
    /// are, whatever the caller does through the two references.
    pub fn get_mut(&mut self) -> (pair: (&mut S, &mut C))
        ensures
            *pair.0 == old(self).transport(),
            *pair.1 == old(self).session(),
            final(self).transport() == *final(pair.0),
            final(self).session() == *final(pair.1),
            final(self).spec_eof() == old(self).spec_eof(),
            final(self).spec_shutdown_sent() == old(self).spec_shutdown_sent(),
    {
        (&mut self.io, &mut self.session)
    }

    /// Whether the transport has signalled end-of-input.
    #[verifier::when_used_as_spec(spec_eof)]
    pub fn eof(&self) -> (eof: bool)
        ensures
            eof == self.spec_eof(),
    {
        self.eof
    }

    /// Whether a close-notify has been handed to the session.
    #[verifier::when_used_as_spec(spec_shutdown_sent)]
    pub fn shutdown_sent(&self) -> (sent: bool)
        ensures
            sent == self.spec_shutdown_sent(),
    {
        self.is_shutdown
    }

    /// One step of the record pump.
    ///
    /// The step raises the end-of-input flag when the transport read
    /// nothing, and touches nothing else of the stream.
    pub fn do_io<E>(&mut self, event: PumpEvent<E>) -> (step: PumpStep<E>)
        ensures
            step == pump_next(old(self).spec_eof(), event),
            final(self).spec_eof() == pump_eof(old(self).spec_eof(), event),
            old(self).spec_eof() ==> final(self).spec_eof(),
            final(self).spec_shutdown_sent() == old(self).spec_shutdown_sent(),
            final(self).transport() == old(self).transport(),
            final(self).session() == old(self).session(),
    {
        match event {
            PumpEvent::Start => self.round(),
            PumpEvent::WantsRead(true) => Step::Ask(PumpPoint::ReadTls),
            PumpEvent::WantsRead(false) => Step::Ask(PumpPoint::WantsWrite { read_blocked: false }),
            PumpEvent::ReadTls(Ok(n)) => {
                if n == 0 {
                    self.eof = true;
                    self.round()
                } else {
                    Step::Ask(PumpPoint::Process)
                }
            },
            PumpEvent::ReadTls(Err(failure)) => {
                if failure.is_would_block() {
                    Step::Ask(PumpPoint::WantsWrite { read_blocked: true })
                } else {
                    Step::Done(Err(StreamError::Outside(failure)))
                }
            },
            PumpEvent::Processed(Ok(_)) => self.round(),
            PumpEvent::Processed(Err(error)) => Step::Ask(PumpPoint::AlertWantsWrite(error)),
            PumpEvent::AlertWantsWrite(error, true) => Step::Ask(PumpPoint::AlertFlush(error)),
            PumpEvent::AlertWantsWrite(error, false) => Step::Done(
                Err(StreamError::Protocol(error)),
            ),
            PumpEvent::AlertFlushed(error, _) => Step::Done(Err(StreamError::Protocol(error))),
            PumpEvent::WantsWrite { read_blocked, wanted: true } => Step::Ask(
                PumpPoint::WriteTls { read_blocked },
            ),
            PumpEvent::WantsWrite { read_blocked, wanted: false } => {
                if read_blocked {
                    Step::Done(Err(StreamError::WouldBlock))
                } else {
                    Step::Done(Ok(()))
                }
            },
            PumpEvent::WriteTls { read_blocked: _, outcome: Ok(_) } => self.round(),
            PumpEvent::WriteTls { read_blocked: _, outcome: Err(failure) } => {
                if failure.is_would_block() {
                    Step::Done(Err(StreamError::WouldBlock))
                } else {
                    Step::Done(Err(StreamError::Outside(failure)))
                }
            },
        }
    }

    /// Begins a round of the pump.
    fn round<E>(&self) -> (step: PumpStep<E>)
        ensures
            step == pump_round::<E>(self.spec_eof()),
    {
        if self.eof {
            Step::Ask(PumpPoint::WantsWrite { read_blocked: false })
        } else {
            Step::Ask(PumpPoint::WantsRead)
        }
    }

    /// One step of a plaintext read.
    pub fn read<E>(&self, event: ReadEvent<E>) -> (step: ReadStep<E>)
        ensures
            step == read_next(self.spec_eof(), event),
    {
        match event {
            ReadEvent::Start => Step::Ask(ReadPoint::Plain),
            ReadEvent::Plain(Ok(n)) => {
                if n == 0 && !self.eof {
                    Step::Ask(ReadPoint::Pump)
                } else {
                    Step::Done(Ok(n))
                }
            },
            ReadEvent::Plain(Err(failure)) => {
                if failure.is_connection_aborted() {
                    Step::Ask(ReadPoint::Settle(failure))
                } else {
                    Step::Done(Err(StreamError::Outside(failure)))
                }
            },
            ReadEvent::Pumped(Ok(_)) => Step::Ask(ReadPoint::Plain),
            ReadEvent::Pumped(Err(error)) => Step::Done(Err(error)),
            ReadEvent::Settled(failure, Ok(_)) => {
                if self.eof {
                    Step::Done(Ok(0))
                } else {
                    Step::Done(Err(StreamError::Outside(failure)))
                }
            },
            ReadEvent::Settled(_, Err(error)) => Step::Done(Err(error)),
        }
    }

    /// One step of a plaintext write.
    pub fn write<E>(&self, event: WriteEvent<E>) -> (step: WriteStep<E>)
        ensures
            step == write_next(event),
    {
        match event {
            WriteEvent::Start { len } => {
                if len == 0 {
                    Step::Done(Ok(0))
                } else {
                    Step::Ask(WritePoint::Plain)
                }
            },
            WriteEvent::Plain(Ok(accepted)) => Step::Ask(WritePoint::WantsWrite { accepted }),
            WriteEvent::Plain(Err(failure)) => Step::Done(Err(StreamError::Outside(failure))),
            WriteEvent::WantsWrite { accepted, wanted: true } => Step::Ask(
                WritePoint::WriteTls { accepted },
            ),
            WriteEvent::WantsWrite { accepted, wanted: false } => {
                if accepted > 0 {
                    Step::Done(Ok(accepted))
                } else {
                    Step::Ask(WritePoint::Plain)
                }
            },
            WriteEvent::WriteTls { accepted, outcome: Ok(_) } => Step::Ask(
                WritePoint::WantsWrite { accepted },
            ),
            WriteEvent::WriteTls { accepted, outcome: Err(failure) } => {
                if !failure.is_would_block() {
                    Step::Done(Err(StreamError::Outside(failure)))
                } else if accepted == 0 {
                    // The session took nothing and the transport takes nothing.
                    Step::Done(Err(StreamError::WouldBlock))
                } else {
                    Step::Done(Ok(accepted))
                }
            },
        }
    }

    /// One step of a flush.
    pub fn flush<E>(&self, event: FlushEvent<E>) -> (step: FlushStep<E>)
        ensures
            step == flush_next(event),
    {
        match event {
            FlushEvent::Start => Step::Ask(FlushPoint::Session),
            FlushEvent::Session(Ok(_)) => Step::Ask(FlushPoint::WantsWrite),
            FlushEvent::Session(Err(failure)) => Step::Done(Err(failure)),
            FlushEvent::WantsWrite(true) => Step::Ask(FlushPoint::WriteTls),
            FlushEvent::WantsWrite(false) => Step::Ask(FlushPoint::Transport),
            FlushEvent::WriteTls(Ok(_)) => Step::Ask(FlushPoint::WantsWrite),
            FlushEvent::WriteTls(Err(failure)) => Step::Done(Err(failure)),
            FlushEvent::Transport(outcome) => Step::Done(outcome),
        }
    }

    /// One step of a shutdown.
    ///
    /// The step raises the close-notify flag when the session has queued
    /// the alert, and touches nothing else of the stream.
    pub fn shutdown<E>(&mut self, event: ShutdownEvent<E>) -> (step: ShutdownStep<E>)
        ensures
            step == shutdown_next(old(self).spec_shutdown_sent(), event),
            final(self).spec_shutdown_sent() == shutdown_flag(
                old(self).spec_shutdown_sent(),
                event,
            ),
            old(self).spec_shutdown_sent() ==> final(self).spec_shutdown_sent(),
            final(self).spec_eof() == old(self).spec_eof(),
            final(self).transport() == old(self).transport(),
            final(self).session() == old(self).session(),
    {
        match event {
            ShutdownEvent::Start => {
                if self.is_shutdown {
                    Step::Ask(ShutdownPoint::WantsWrite)
                } else {
                    Step::Ask(ShutdownPoint::CloseNotify)
                }
            },
            ShutdownEvent::CloseNotify => {
                self.is_shutdown = true;
                Step::Ask(ShutdownPoint::WantsWrite)
            },
            ShutdownEvent::WantsWrite(true) => Step::Ask(ShutdownPoint::WriteTls),
            ShutdownEvent::WantsWrite(false) => Step::Ask(ShutdownPoint::Flush),
            ShutdownEvent::WriteTls(Ok(_)) => Step::Ask(ShutdownPoint::WantsWrite),
            ShutdownEvent::WriteTls(Err(failure)) | ShutdownEvent::Flush(Err(failure)) => {
                if failure.is_would_block() {
                    Step::Done(Ok(Readiness::NotReady))
                } else {
                    Step::Done(Err(failure))
                }
            },
            ShutdownEvent::Flush(Ok(_)) => Step::Ask(ShutdownPoint::Transport),
            ShutdownEvent::Transport(outcome) => Step::Done(outcome),
        }
    }
}

} // verus!
