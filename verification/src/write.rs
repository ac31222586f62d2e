//! Writing plaintext: hand the caller's bytes to the session, then drain
//! the records that the session made of them to the transport.

use vstd::prelude::*;
use crate::outcome::{Failure, Step, StreamError};

verus! {

/// The places in a write at which it waits for an answer.
#[derive(Debug, PartialEq, Eq)]
pub enum WritePoint {
    /// Hand the caller's buffer to the session.
    Plain,
    /// The session took `accepted` bytes. Does it want to write?
    WantsWrite { accepted: usize },
    /// Write records from the session to the transport.
    WriteTls { accepted: usize },
}

/// What a step of a write is given.
#[derive(Debug, PartialEq, Eq)]
pub enum WriteEvent<E> {
    /// Begin a write of a buffer of `len` bytes.
    Start { len: usize },
    /// The answer at [`WritePoint::Plain`]: the number of bytes that the
    /// session took.
    Plain(Result<usize, Failure<E>>),
    /// The answer at [`WritePoint::WantsWrite`].
    WantsWrite { accepted: usize, wanted: bool },
    /// The answer at [`WritePoint::WriteTls`]: the number of bytes written.
    WriteTls { accepted: usize, outcome: Result<usize, Failure<E>> },
}

/// How a write ends: with the number of bytes that the session took, or
/// with an error.
pub type WriteResult<E> = Result<usize, StreamError<E>>;

/// A step of a write.
pub type WriteStep<E> = Step<WritePoint, WriteResult<E>>;

/// Where a write goes once draining has stopped: it is over if the session
/// took anything, and hands the buffer to the session again if not.
pub open spec fn write_settled<E>(accepted: usize) -> WriteStep<E> {
    if accepted > 0 {
        Step::Done(Ok(accepted))
    } else {
        Step::Ask(WritePoint::Plain)
    }
}

/// What a step of a write does next.
pub open spec fn write_next<E>(event: WriteEvent<E>) -> WriteStep<E> {
    match event {
        WriteEvent::Start { len } => if len == 0 {
            Step::Done(Ok(0))
        } else {
            Step::Ask(WritePoint::Plain)
        },
        WriteEvent::Plain(Ok(accepted)) => Step::Ask(WritePoint::WantsWrite { accepted }),
        WriteEvent::Plain(Err(failure)) => Step::Done(Err(StreamError::Outside(failure))),
        WriteEvent::WantsWrite { accepted, wanted } => if wanted {
            Step::Ask(WritePoint::WriteTls { accepted })
        } else {
            write_settled(accepted)
        },
        WriteEvent::WriteTls { accepted, outcome: Ok(_) } => Step::Ask(
            WritePoint::WantsWrite { accepted },
        ),
        WriteEvent::WriteTls { accepted, outcome: Err(failure) } => if !failure.blocked() {
            Step::Done(Err(StreamError::Outside(failure)))
        } else if accepted == 0 {
            Step::Done(Err(StreamError::WouldBlock))
        } else {
            Step::Done(Ok(accepted))
        },
    }
}

impl WritePoint {
    /// Whether `event` is an answer given at this point: the answer to the
    /// point's call, with the count that the point carried.
    pub open spec fn answered_by<E>(self, event: WriteEvent<E>) -> bool {
        match (self, event) {
            (WritePoint::Plain, WriteEvent::Plain(_)) => true,
            (WritePoint::WantsWrite { accepted: held }, WriteEvent::WantsWrite { accepted, .. }) => held
                == accepted,
            (WritePoint::WriteTls { accepted: held }, WriteEvent::WriteTls { accepted, .. }) => held
                == accepted,
            _ => false,
        }
    }
}

/// Whether `events` is what the steps of one write are given: the start,
/// and then at each step an answer at the point that the step before asked.
pub open spec fn write_run<E>(events: Seq<WriteEvent<E>>) -> bool
    decreases events.len(),
{
    if events.len() == 0 {
        false
    } else if events.len() == 1 {
        events[0] is Start
    } else {
        &&& write_run(events.drop_last())
        &&& write_next(events.drop_last().last()) matches Step::Ask(point)
        &&& point.answered_by(events.last())
    }
}

/// The number of bytes that the session took when the buffer was last
/// handed to it, as far as `events` tell.
pub open spec fn write_accepted<E>(events: Seq<WriteEvent<E>>) -> Option<usize>
    decreases events.len(),
{
    if events.len() == 0 {
        None
    } else {
        match events.last() {
            WriteEvent::Start { .. } => None,
            WriteEvent::Plain(Ok(accepted)) => Some(accepted),
            WriteEvent::Plain(Err(_)) => None,
            _ => write_accepted(events.drop_last()),
        }
    }
}

/// A write of an empty buffer is over at once: it returns zero, and asks
/// for no call on the session or the transport.
pub proof fn law_empty_write_is_noop<E>(events: Seq<WriteEvent<E>>)
    requires
        write_run(events),
        events[0] == (WriteEvent::<E>::Start { len: 0 }),
    ensures
        events.len() == 1,
        write_next(events.last()) == WriteStep::<E>::Done(Ok(0)),
    decreases events.len(),
{
    if events.len() > 1 {
        let before = events.drop_last();
        assert(before[0] == events[0]);
        law_empty_write_is_noop(before);
    }
}

/// While a write drains the session, the count that it carries is the
/// number of bytes that the session took when the buffer was last handed
/// to it.
pub proof fn law_write_carries_accepted<E>(events: Seq<WriteEvent<E>>)
    requires
        write_run(events),
    ensures
        events.last() matches WriteEvent::WantsWrite { accepted, .. } ==> write_accepted(events)
            == Some(accepted),
        events.last() matches WriteEvent::WriteTls { accepted, .. } ==> write_accepted(events)
            == Some(accepted),
    decreases events.len(),
{
    if events.len() > 1 {
        law_write_carries_accepted(events.drop_last());
    }
}

/// Backpressure. When draining blocks on the transport, the write reports
/// "would block" if the session had taken nothing of the buffer, and
/// otherwise reports the number of bytes that the session took, as a write
/// that succeeded in part.
pub proof fn law_backpressure<E>(events: Seq<WriteEvent<E>>, failure: Failure<E>)
    requires
        write_run(events),
        events.last() matches WriteEvent::WriteTls { outcome: Err(blocked), .. } && blocked
            == failure,
        failure.blocked(),
    ensures
        write_accepted(events) matches Some(accepted) && write_next(events.last()) == (
        if accepted == 0 {
            WriteStep::<E>::Done(Err(StreamError::WouldBlock))
        } else {
            WriteStep::<E>::Done(Ok(accepted))
        }),
{
    law_write_carries_accepted(events);
}

/// How a write can end, and on what.
///
/// - It succeeds with zero only on an empty buffer, and with more only
///   with the number of bytes that the session took.
/// - It reports "would block" only when the session took nothing and a
///   write to the transport was blocked.
/// - It hands on a failure only from the session's plaintext write or from
///   a write to the transport that failed with it, unchanged.
/// - It reports no protocol error and no unexpected end of input.
pub proof fn law_write_outcomes<E>(events: Seq<WriteEvent<E>>)
    requires
        write_run(events),
    ensures
        ({
            let last = events.last();
            match write_next(last) {
                Step::Ask(_) => true,
                Step::Done(Ok(n)) => if n == 0 {
                    last == (WriteEvent::<E>::Start { len: 0 })
                } else {
                    &&& write_accepted(events) == Some(n)
                    &&& last is WantsWrite || last is WriteTls
                },
                Step::Done(Err(StreamError::WouldBlock)) => {
                    &&& write_accepted(events) == Some(0usize)
                    &&& last matches WriteEvent::WriteTls { outcome: Err(failure), .. }
                    &&& failure.blocked()
                },
                Step::Done(Err(StreamError::Outside(failure))) => {
                    ||| last == WriteEvent::<E>::Plain(Err(failure))
                    ||| {
                        &&& last matches WriteEvent::WriteTls { outcome: Err(other), .. }
                        &&& other == failure
                        &&& !failure.blocked()
                    }
                },
                Step::Done(Err(_)) => false,
            }
        }),
{
    law_write_carries_accepted(events);
}

} // verus!
