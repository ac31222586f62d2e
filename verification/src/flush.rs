//! Flushing: push everything that the session has buffered into the
//! transport, then flush the transport.

use vstd::prelude::*;
use crate::outcome::{Failure, Step};

verus! {

/// The places in a flush at which it waits for an answer.
#[derive(Debug, PartialEq, Eq)]
pub enum FlushPoint {
    /// Flush the session's plaintext buffers.
    Session,
    /// Does the session want to write?
    WantsWrite,
    /// Write records from the session to the transport.
    WriteTls,
    /// Flush the transport.
    Transport,
}

/// What a step of a flush is given.
#[derive(Debug, PartialEq, Eq)]
pub enum FlushEvent<E> {
    /// Begin a flush.
    Start,
    /// The answer at [`FlushPoint::Session`].
    Session(Result<(), Failure<E>>),
    /// The answer at [`FlushPoint::WantsWrite`].
    WantsWrite(bool),
    /// The answer at [`FlushPoint::WriteTls`]: the number of bytes written.
    WriteTls(Result<usize, Failure<E>>),
    /// The answer at [`FlushPoint::Transport`].
    Transport(Result<(), Failure<E>>),
}

/// How a flush ends. It raises no error of its own: a failure is the
/// session's or the transport's, unchanged.
pub type FlushResult<E> = Result<(), Failure<E>>;

/// A step of a flush.
pub type FlushStep<E> = Step<FlushPoint, FlushResult<E>>;

/// What a step of a flush does next.
pub open spec fn flush_next<E>(event: FlushEvent<E>) -> FlushStep<E> {
    match event {
        FlushEvent::Start => Step::Ask(FlushPoint::Session),
        FlushEvent::Session(Ok(_)) => Step::Ask(FlushPoint::WantsWrite),
        FlushEvent::Session(Err(failure)) => Step::Done(Err(failure)),
        FlushEvent::WantsWrite(wanted) => if wanted {
            Step::Ask(FlushPoint::WriteTls)
        } else {
            Step::Ask(FlushPoint::Transport)
        },
        FlushEvent::WriteTls(Ok(_)) => Step::Ask(FlushPoint::WantsWrite),
        FlushEvent::WriteTls(Err(failure)) => Step::Done(Err(failure)),
        FlushEvent::Transport(outcome) => Step::Done(outcome),
    }
}

impl FlushPoint {
    /// Whether `event` is an answer given at this point.
    pub open spec fn answered_by<E>(self, event: FlushEvent<E>) -> bool {
        match (self, event) {
            (FlushPoint::Session, FlushEvent::Session(_)) => true,
            (FlushPoint::WantsWrite, FlushEvent::WantsWrite(_)) => true,
            (FlushPoint::WriteTls, FlushEvent::WriteTls(_)) => true,
            (FlushPoint::Transport, FlushEvent::Transport(_)) => true,
            _ => false,
        }
    }
}

/// Whether `events` is what the steps of one flush are given: the start,
/// and then at each step an answer at the point that the step before asked.
pub open spec fn flush_run<E>(events: Seq<FlushEvent<E>>) -> bool
    decreases events.len(),
{
    if events.len() == 0 {
        false
    } else if events.len() == 1 {
        events[0] is Start
    } else {
        &&& flush_run(events.drop_last())
        &&& flush_next(events.drop_last().last()) matches Step::Ask(point)
        &&& point.answered_by(events.last())
    }
}

/// How a flush can end, and on what.
///
/// - The session is flushed first: its flush is the answer that follows
///   the start.
/// - The transport is flushed only once the session wants no write, and
///   the flush succeeds only if the transport's flush did.
/// - A failure is that of the session's flush, of a write or of the
///   transport's flush, unchanged, whatever its class.
pub proof fn law_flush_outcomes<E>(events: Seq<FlushEvent<E>>)
    requires
        flush_run(events),
    ensures
        ({
            let n = events.len() as int;
            let last = events.last();
            &&& n >= 2 ==> events[1] is Session
            &&& match flush_next(last) {
                Step::Ask(FlushPoint::Transport) => last == FlushEvent::<E>::WantsWrite(false),
                Step::Ask(_) => true,
                Step::Done(Ok(_)) => {
                    &&& n >= 3
                    &&& last matches FlushEvent::Transport(Ok(_))
                    &&& events[n - 2] == FlushEvent::<E>::WantsWrite(false)
                },
                Step::Done(Err(failure)) => {
                    ||| last == FlushEvent::<E>::Session(Err(failure))
                    ||| last == FlushEvent::<E>::WriteTls(Err(failure))
                    ||| last == FlushEvent::<E>::Transport(Err(failure))
                },
            }
        }),
    decreases events.len(),
{
    reveal_with_fuel(flush_run, 3);
    let n = events.len() as int;
    if n >= 2 {
        let before = events.drop_last();
        assert(before.last() == events[n - 2]);
        if n >= 3 {
            law_flush_outcomes(before);
            assert(before[1] == events[1]);
        }
    }
}

} // verus!
