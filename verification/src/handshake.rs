//! The handshake: run the record pump until the session says that the
//! handshake is over, then hand the stream to the caller.

use vstd::prelude::*;
use crate::outcome::{Readiness, Step, StreamError};
use crate::pump::PumpResult;
use crate::stream::TlsStream;

verus! {

/// The places in a poll of the handshake at which it waits for an answer.
#[derive(Debug, PartialEq, Eq)]
pub enum HandshakePoint<E> {
    /// Is the session still handshaking?
    IsHandshaking,
    /// Run the pump once.
    Pump,
    /// The pump ended like this. Is the session still handshaking?
    Recheck(PumpResult<E>),
}

/// What a step of a poll is given.
#[derive(Debug, PartialEq, Eq)]
pub enum HandshakeEvent<E> {
    /// Begin a poll.
    Start,
    /// The answer at [`HandshakePoint::IsHandshaking`].
    IsHandshaking(bool),
    /// The answer at [`HandshakePoint::Pump`]: how the run of the pump
    /// ended.
    Pumped(PumpResult<E>),
    /// The answer at [`HandshakePoint::Recheck`], with the pump's result
    /// that it held.
    Rechecked(PumpResult<E>, bool),
}

/// How a poll ends: with the stream, ready for use; not ready yet; or with
/// an error, which is final.
pub type HandshakeResult<S, C, E> = Result<Readiness<TlsStream<S, C>>, StreamError<E>>;

/// A step of a poll.
pub type HandshakeStep<S, C, E> = Step<HandshakePoint<E>, HandshakeResult<S, C, E>>;

/// What a step of a poll does next, on the stream that the handshake holds.
pub open spec fn handshake_next<S, C, E>(
    stream: TlsStream<S, C>,
    event: HandshakeEvent<E>,
) -> HandshakeStep<S, C, E> {
    match event {
        HandshakeEvent::Start => Step::Ask(HandshakePoint::IsHandshaking),
        HandshakeEvent::IsHandshaking(handshaking) => if handshaking {
            Step::Ask(HandshakePoint::Pump)
        } else {
            Step::Done(Ok(Readiness::Ready(stream)))
        },
        HandshakeEvent::Pumped(outcome) => Step::Ask(HandshakePoint::Recheck(outcome)),
        HandshakeEvent::Rechecked(Ok(_), handshaking) => if !handshaking {
            Step::Done(Ok(Readiness::Ready(stream)))
        } else if stream.eof() {
            Step::Done(Err(StreamError::UnexpectedEof))
        } else {
            Step::Ask(HandshakePoint::IsHandshaking)
        },
        HandshakeEvent::Rechecked(Err(error), handshaking) => if !error.blocked() {
            Step::Done(Err(error))
        } else if handshaking {
            Step::Done(Ok(Readiness::NotReady))
        } else {
            Step::Done(Ok(Readiness::Ready(stream)))
        },
    }
}

/// Whether a step hands the stream to the caller: the session has said
/// that it is no longer handshaking, and the pump, if it ran, succeeded or
/// would only have blocked.
pub open spec fn handshake_completes<E>(event: HandshakeEvent<E>) -> bool {
    match event {
        HandshakeEvent::IsHandshaking(handshaking) => !handshaking,
        HandshakeEvent::Rechecked(Ok(_), handshaking) => !handshaking,
        HandshakeEvent::Rechecked(Err(error), handshaking) => !handshaking && error.blocked(),
        _ => false,
    }
}

impl<E> HandshakePoint<E> {
    /// Whether `event` is an answer given at this point: the answer to the
    /// point's call, with what the point carried.
    pub open spec fn answered_by(self, event: HandshakeEvent<E>) -> bool {
        match (self, event) {
            (HandshakePoint::IsHandshaking, HandshakeEvent::IsHandshaking(_)) => true,
            (HandshakePoint::Pump, HandshakeEvent::Pumped(_)) => true,
            (HandshakePoint::Recheck(held), HandshakeEvent::Rechecked(outcome, _)) => held
                == outcome,
            _ => false,
        }
    }
}

/// Whether `events` is what the steps of one poll are given, where the
/// step on `events[i]` found the stream as `streams[i]`: the start, and
/// then at each step an answer at the point that the step before asked.
pub open spec fn handshake_run<S, C, E>(
    streams: Seq<TlsStream<S, C>>,
    events: Seq<HandshakeEvent<E>>,
) -> bool
    decreases events.len(),
{
    if events.len() == 0 || streams.len() != events.len() {
        false
    } else if events.len() == 1 {
        events[0] is Start
    } else {
        &&& handshake_run(streams.drop_last(), events.drop_last())
        &&& handshake_next(streams.drop_last().last(), events.drop_last().last()) matches Step::Ask(
            point,
        )
        &&& point.answered_by(events.last())
    }
}

/// The handshake never completes silently. A poll hands the stream out
/// only on the session's answer that it is no longer handshaking, and then
/// it hands out the stream that it held. While the session is still
/// handshaking, a run of the pump that succeeded with the end-of-input
/// flag up ends the poll with an unexpected end of input; nothing else
/// does, but a pump that itself ended with that error.
pub proof fn law_handshake_fatal_eof<S, C, E>(stream: TlsStream<S, C>, last: HandshakeEvent<E>)
    ensures
        ({
            let step = handshake_next(stream, last);
            &&& step matches Step::Done(Ok(Readiness::Ready(handed))) ==> {
                &&& handed == stream
                &&& (last matches HandshakeEvent::IsHandshaking(false))
                    || (last matches HandshakeEvent::Rechecked(_, false))
            }
            &&& (step matches Step::Done(Ok(Readiness::Ready(_)))) <==> handshake_completes(last)
            &&& stream.eof() && (last matches HandshakeEvent::Rechecked(Ok(_), true)) ==> step
                == HandshakeStep::<S, C, E>::Done(Err(StreamError::UnexpectedEof))
            &&& step == HandshakeStep::<S, C, E>::Done(Err(StreamError::UnexpectedEof)) ==> {
                ||| stream.eof() && (last matches HandshakeEvent::Rechecked(Ok(_), true))
                ||| last matches HandshakeEvent::Rechecked(Err(StreamError::UnexpectedEof), _)
            }
        }),
{
}

/// While the session is handshaking, each round of a poll runs the pump
/// once and then asks the session again: the pump's result that a step
/// weighs is the result of the run just before it, and that run was asked
/// for on the session's answer that it is handshaking. Any error of the
/// pump but "would block" ends the poll with that error; a pump that would
/// block suspends the poll while the session is still handshaking, and
/// does not keep a handshake that is over from completing.
pub proof fn law_handshake_rounds<S, C, E>(
    streams: Seq<TlsStream<S, C>>,
    events: Seq<HandshakeEvent<E>>,
)
    requires
        handshake_run(streams, events),
    ensures
        events.last() matches HandshakeEvent::Rechecked(outcome, handshaking) ==> {
            let n = events.len() as int;
            let step = handshake_next(streams.last(), events.last());
            &&& n >= 4
            &&& events[n - 2] == HandshakeEvent::<E>::Pumped(outcome)
            &&& events[n - 3] == HandshakeEvent::<E>::IsHandshaking(true)
            &&& outcome matches Err(error) ==> step == if !error.blocked() {
                HandshakeStep::<S, C, E>::Done(Err(error))
            } else if handshaking {
                HandshakeStep::<S, C, E>::Done(Ok(Readiness::NotReady))
            } else {
                HandshakeStep::<S, C, E>::Done(Ok(Readiness::Ready(streams.last())))
            }
        },
{
    reveal_with_fuel(handshake_run, 4);
    let n = events.len() as int;
    if events.last() is Rechecked {
        assert(n >= 2);
        let before = events.drop_last();
        assert(before.last() == events[n - 2]);
        assert(n >= 3);
        assert(before.drop_last().last() == events[n - 3]);
    }
}

/// How a poll can end, and on what.
///
/// - It is ready, with the stream, only on the session's answer that it is
///   no longer handshaking.
/// - It is not ready only when the pump would block while the session is
///   still handshaking.
/// - It fails with the error of the pump, unchanged, whenever that error
///   does not mean "would block", whatever the session answers; and with
///   an unexpected end of input when the pump succeeded, the session is
///   still handshaking and the end-of-input flag is up.
pub proof fn law_handshake_outcomes<S, C, E>(stream: TlsStream<S, C>, last: HandshakeEvent<E>)
    ensures
        ({
            match handshake_next(stream, last) {
                Step::Ask(_) => true,
                Step::Done(Ok(Readiness::Ready(handed))) => {
                    &&& handed == stream
                    &&& (last matches HandshakeEvent::IsHandshaking(false))
                        || (last matches HandshakeEvent::Rechecked(_, false))
                },
                Step::Done(Ok(Readiness::NotReady)) => {
                    &&& last matches HandshakeEvent::Rechecked(Err(error), true)
                    &&& error.blocked()
                },
                Step::Done(Err(error)) => {
                    ||| {
                        &&& last matches HandshakeEvent::Rechecked(Err(pumped), _)
                        &&& pumped == error
                        &&& !error.blocked()
                    }
                    ||| {
                        &&& last matches HandshakeEvent::Rechecked(Ok(_), true)
                        &&& stream.eof()
                        &&& error == StreamError::<E>::UnexpectedEof
                    }
                },
            }
        }),
{
}

/// A handshake in progress: it holds the stream until the handshake is
/// over, and nothing afterwards.
#[derive(Debug)]
pub struct MidHandshake<S, C> {
    inner: Option<TlsStream<S, C>>,
}

impl<S, C> MidHandshake<S, C> {
    /// The stream that the handshake holds, if it still holds one.
    pub closed spec fn stream(&self) -> Option<TlsStream<S, C>> {
        self.inner
    }

    /// Begins the handshake of a stream.
    pub fn new(stream: TlsStream<S, C>) -> (handshake: MidHandshake<S, C>)
        ensures
            handshake.stream() == Some(stream),
    {
        MidHandshake { inner: Some(stream) }
    }

    /// Whether the handshake still holds its stream, that is, whether it
    /// may be polled.
    pub fn is_pending(&self) -> (pending: bool)
        ensures
            pending == self.stream().is_some(),
    {
        self.inner.is_some()
    }

    /// The stream that the handshake holds, to run the pump on it.
    pub fn get_mut(&mut self) -> (stream: Option<&mut TlsStream<S, C>>)
        ensures
            stream.is_some() == old(self).stream().is_some(),
            final(self).stream().is_some() == old(self).stream().is_some(),
            stream matches Some(held) ==> *held == old(self).stream().unwrap()
                && *final(held) == final(self).stream().unwrap(),
    {
        self.inner.as_mut()
    }

    /// Takes the stream out.
    fn take(&mut self) -> (stream: TlsStream<S, C>)
        requires
            old(self).stream().is_some(),
        ensures
            stream == old(self).stream().unwrap(),
            final(self).stream().is_none(),
    {
        self.inner.take().unwrap()
    }

    /// The end-of-input flag of the stream that the handshake holds.
    fn eof(&self) -> (eof: bool)
        requires
            self.stream().is_some(),
        ensures
            eof == self.stream().unwrap().eof(),
    {
        match &self.inner {
            Some(stream) => stream.eof(),
            None => false,
        }
    }

    /// One step of a poll of the handshake.
    ///
    /// A handshake that has handed its stream out is over: it is not polled
    /// again. The step that hands the stream out leaves none behind; every
    /// other step leaves the stream where it is, untouched.
    pub fn poll<E>(&mut self, event: HandshakeEvent<E>) -> (step: HandshakeStep<S, C, E>)
        requires
            old(self).stream().is_some(),
        ensures
            step == handshake_next(old(self).stream().unwrap(), event),
            final(self).stream() == if handshake_completes(event) {
                None
            } else {
                old(self).stream()
            },
    {
        match event {
            HandshakeEvent::Start => Step::Ask(HandshakePoint::IsHandshaking),
            HandshakeEvent::IsHandshaking(true) => Step::Ask(HandshakePoint::Pump),
            HandshakeEvent::Pumped(outcome) => Step::Ask(HandshakePoint::Recheck(outcome)),
            HandshakeEvent::IsHandshaking(false) => Step::Done(Ok(Readiness::Ready(self.take()))),
            HandshakeEvent::Rechecked(Ok(_), handshaking) => {
                if !handshaking {
                    Step::Done(Ok(Readiness::Ready(self.take())))
                } else if self.eof() {
                    Step::Done(Err(StreamError::UnexpectedEof))
                } else {
                    Step::Ask(HandshakePoint::IsHandshaking)
                }
            },
            HandshakeEvent::Rechecked(Err(error), handshaking) => {
                if !error.is_would_block() {
                    Step::Done(Err(error))
                } else if handshaking {
                    Step::Done(Ok(Readiness::NotReady))
                } else {
                    // What is left to write after the handshake can wait.
                    Step::Done(Ok(Readiness::Ready(self.take())))
                }
            },
        }
    }
}

} // verus!
