//! Reading plaintext: ask the session for plaintext, and run the record
//! pump when it has none.

use vstd::prelude::*;
use crate::outcome::{Failure, Step, StreamError};
use crate::pump::PumpResult;

verus! {

/// The places in a read at which it waits for an answer.
#[derive(Debug, PartialEq, Eq)]
pub enum ReadPoint<E> {
    /// Read plaintext from the session into the caller's buffer.
    Plain,
    /// The session had no plaintext and the transport has not ended: run
    /// the pump, then ask the session again.
    Pump,
    /// The session reported, with this failure, that the peer has closed
    /// it: run the pump so that the end-of-input flag settles.
    Settle(Failure<E>),
}

/// What a step of a read is given.
#[derive(Debug, PartialEq, Eq)]
pub enum ReadEvent<E> {
    /// Begin a read.
    Start,
    /// The answer at [`ReadPoint::Plain`]: the number of bytes read.
    Plain(Result<usize, Failure<E>>),
    /// The answer at [`ReadPoint::Pump`]: how the run of the pump ended.
    Pumped(PumpResult<E>),
    /// The answer at [`ReadPoint::Settle`], with the failure it held.
    Settled(Failure<E>, PumpResult<E>),
}

/// How a read ends: with the number of plaintext bytes, zero at the end of
/// the stream, or with an error.
pub type ReadResult<E> = Result<usize, StreamError<E>>;

/// A step of a read.
pub type ReadStep<E> = Step<ReadPoint<E>, ReadResult<E>>;

/// What a step of a read does next, given the stream's end-of-input flag.
pub open spec fn read_next<E>(eof: bool, event: ReadEvent<E>) -> ReadStep<E> {
    match event {
        ReadEvent::Start => Step::Ask(ReadPoint::Plain),
        ReadEvent::Plain(Ok(n)) => if n == 0 && !eof {
            Step::Ask(ReadPoint::Pump)
        } else {
            Step::Done(Ok(n))
        },
        ReadEvent::Plain(Err(failure)) => if failure.aborted() {
            Step::Ask(ReadPoint::Settle(failure))
        } else {
            Step::Done(Err(StreamError::Outside(failure)))
        },
        ReadEvent::Pumped(Ok(_)) => Step::Ask(ReadPoint::Plain),
        ReadEvent::Pumped(Err(error)) => Step::Done(Err(error)),
        ReadEvent::Settled(failure, Ok(_)) => if eof {
            Step::Done(Ok(0))
        } else {
            Step::Done(Err(StreamError::Outside(failure)))
        },
        ReadEvent::Settled(_, Err(error)) => Step::Done(Err(error)),
    }
}

impl<E> ReadPoint<E> {
    /// Whether `event` is an answer given at this point: the answer to the
    /// point's call, with what the point carried.
    pub open spec fn answered_by(self, event: ReadEvent<E>) -> bool {
        match (self, event) {
            (ReadPoint::Plain, ReadEvent::Plain(_)) => true,
            (ReadPoint::Pump, ReadEvent::Pumped(_)) => true,
            (ReadPoint::Settle(held), ReadEvent::Settled(failure, _)) => held == failure,
            _ => false,
        }
    }
}

/// Whether `events` is what the steps of one read are given, where the
/// step on `events[i]` found the stream's end-of-input flag at `flags[i]`:
/// the start, and then at each step an answer at the point that the step
/// before asked.
pub open spec fn read_run<E>(flags: Seq<bool>, events: Seq<ReadEvent<E>>) -> bool
    decreases events.len(),
{
    if events.len() == 0 || flags.len() != events.len() {
        false
    } else if events.len() == 1 {
        events[0] is Start
    } else {
        &&& read_run(flags.drop_last(), events.drop_last())
        &&& read_next(flags.drop_last().last(), events.drop_last().last()) matches Step::Ask(point)
        &&& point.answered_by(events.last())
    }
}

/// A read that finds no plaintext, with the transport not at its end, runs
/// the pump exactly once before it either asks the session again or
/// returns: the pump is asked for on such a plaintext read of zero bytes
/// and on no other answer, and after its run the read never asks for it
/// again at once. If the pump ended with an error, "would block" above
/// all, the read is over and reports that error.
pub proof fn law_read_pumps_once<E>(flags: Seq<bool>, events: Seq<ReadEvent<E>>)
    requires
        read_run(flags, events),
    ensures
        read_next(flags.last(), events.last()) == ReadStep::<E>::Ask(ReadPoint::Pump) <==> !flags.last()
            && events.last() == ReadEvent::<E>::Plain(Ok(0)),
        events.last() matches ReadEvent::Pumped(outcome) ==> {
            let n = events.len() as int;
            &&& n >= 3
            &&& events[n - 2] == ReadEvent::<E>::Plain(Ok(0))
            &&& !flags[n - 2]
            &&& read_next(flags.last(), events.last()) == match outcome {
                Ok(_) => ReadStep::<E>::Ask(ReadPoint::Plain),
                Err(error) => ReadStep::<E>::Done(Err(error)),
            }
        },
{
    reveal_with_fuel(read_run, 3);
    let n = events.len() as int;
    if n >= 2 {
        assert(events.drop_last().last() == events[n - 2]);
        assert(flags.drop_last().last() == flags[n - 2]);
    }
}

/// An abort settles into a clean end of stream only through the pump. When
/// the session reports that the peer has closed it, the read runs the pump
/// once; if the pump failed, the read reports the pump's
/// error; else it ends with zero bytes if the end-of-input flag is up by
/// then, and with the session's failure, unchanged, if it is not.
pub proof fn law_abort_settles<E>(flags: Seq<bool>, events: Seq<ReadEvent<E>>)
    requires
        read_run(flags, events),
    ensures
        (read_next(flags.last(), events.last()) matches Step::Ask(ReadPoint::Settle(held)))
            <==> (events.last() matches ReadEvent::Plain(Err(failure)) && failure.aborted()),
        events.last() matches ReadEvent::Settled(failure, outcome) ==> {
            let n = events.len() as int;
            &&& n >= 3
            &&& events[n - 2] == ReadEvent::<E>::Plain(Err(failure))
            &&& failure.aborted()
            &&& read_next(flags.last(), events.last()) == match outcome {
                Err(error) => ReadStep::<E>::Done(Err(error)),
                Ok(_) => if flags.last() {
                    ReadStep::<E>::Done(Ok(0))
                } else {
                    ReadStep::<E>::Done(Err(StreamError::Outside(failure)))
                },
            }
        },
{
    reveal_with_fuel(read_run, 3);
    let n = events.len() as int;
    if n >= 2 {
        assert(events.drop_last().last() == events[n - 2]);
        assert(flags.drop_last().last() == flags[n - 2]);
    }
}

/// At the end of input a read is a clean end of stream: with the
/// end-of-input flag up, a plaintext read of zero bytes ends the read with
/// zero and runs no pump.
pub proof fn law_read_at_eof<E>()
    ensures
        read_next(true, ReadEvent::<E>::Plain(Ok(0))) == ReadStep::<E>::Done(Ok(0)),
{
}

/// How a read can end, and on what.
///
/// - It returns a count above zero only as the session's plaintext read
///   gave it.
/// - It returns zero only with the end-of-input flag up: on a plaintext
///   read of zero bytes, or after an abort that the pump has settled.
/// - It hands on the session's failure, unchanged, from a plaintext read
///   that failed with it, at once unless the failure is an abort, and for
///   an abort once the pump has run and left the end-of-input flag down.
/// - Any other error is that of a run of the pump, unchanged.
pub proof fn law_read_outcomes<E>(eof: bool, last: ReadEvent<E>)
    ensures
        ({
            match read_next(eof, last) {
                Step::Ask(_) => true,
                Step::Done(Ok(n)) => if n > 0 {
                    last == ReadEvent::<E>::Plain(Ok(n))
                } else {
                    &&& eof
                    &&& last == ReadEvent::<E>::Plain(Ok(0)) || last matches ReadEvent::Settled(
                        _,
                        Ok(_),
                    )
                },
                Step::Done(Err(error)) => {
                    ||| last == ReadEvent::<E>::Pumped(Err(error))
                    ||| last matches ReadEvent::Settled(_, Err(pumped)) && pumped == error
                    ||| {
                        &&& last matches ReadEvent::Plain(Err(failure))
                        &&& !failure.aborted()
                        &&& error == StreamError::Outside(failure)
                    }
                    ||| {
                        &&& last matches ReadEvent::Settled(failure, Ok(_))
                        &&& !eof
                        &&& error == StreamError::Outside(failure)
                    }
                },
            }
        }),
{
}

} // verus!
