//! The record pump: one run moves as many record-layer bytes between the
//! session and the transport as can be moved without blocking.
//!
//! A run is a series of steps. Each step takes the answer to the call that
//! the step before asked for, and either asks for the next call or ends the
//! run. The pump itself never calls anything; the only state it keeps
//! between steps is the stream's end-of-input flag and what the point that
//! it hands out carries.

use vstd::prelude::*;
use crate::outcome::{Failure, Step, StreamError};

verus! {

/// The places in a run at which the pump waits for an answer.
#[derive(Debug, PartialEq, Eq)]
pub enum PumpPoint<E> {
    /// Does the session want to read?
    WantsRead,
    /// Read records from the transport into the session.
    ReadTls,
    /// Let the session decode what was read.
    Process,
    /// The session rejected what was read, with this error. Has it queued
    /// anything, an alert above all, to send?
    AlertWantsWrite(E),
    /// Write what the session queued, once, before the error is reported.
    AlertFlush(E),
    /// Does the session want to write?
    WantsWrite { read_blocked: bool },
    /// Write records from the session to the transport.
    WriteTls { read_blocked: bool },
}

/// What a step of the pump is given: the start of a run, or the point that
/// was asked together with the answer to its call.
#[derive(Debug, PartialEq, Eq)]
pub enum PumpEvent<E> {
    /// Begin a run.
    Start,
    /// The answer at [`PumpPoint::WantsRead`].
    WantsRead(bool),
    /// The answer at [`PumpPoint::ReadTls`]: the number of bytes read.
    ReadTls(Result<usize, Failure<E>>),
    /// The answer at [`PumpPoint::Process`].
    Processed(Result<(), E>),
    /// The answer at [`PumpPoint::AlertWantsWrite`], with the error it held.
    AlertWantsWrite(E, bool),
    /// The answer at [`PumpPoint::AlertFlush`], with the error it held.
    AlertFlushed(E, Result<usize, Failure<E>>),
    /// The answer at [`PumpPoint::WantsWrite`].
    WantsWrite { read_blocked: bool, wanted: bool },
    /// The answer at [`PumpPoint::WriteTls`]: the number of bytes written.
    WriteTls { read_blocked: bool, outcome: Result<usize, Failure<E>> },
}

/// How a run of the pump ends.
pub type PumpResult<E> = Result<(), StreamError<E>>;

/// A step of the pump.
pub type PumpStep<E> = Step<PumpPoint<E>, PumpResult<E>>;

/// Where a round of the pump begins: with the read side, unless the
/// transport has already ended.
pub open spec fn pump_round<E>(eof: bool) -> PumpStep<E> {
    if eof {
        Step::Ask(PumpPoint::WantsWrite { read_blocked: false })
    } else {
        Step::Ask(PumpPoint::WantsRead)
    }
}

/// The end-of-input flag after a step that began with the flag at `eof`:
/// it is raised when the transport read nothing, and never lowered.
pub open spec fn pump_eof<E>(eof: bool, event: PumpEvent<E>) -> bool {
    eof || event == PumpEvent::<E>::ReadTls(Ok(0))
}

/// What a step does next, given the end-of-input flag it began with.
pub open spec fn pump_next<E>(eof: bool, event: PumpEvent<E>) -> PumpStep<E> {
    match event {
        PumpEvent::Start => pump_round(eof),
        PumpEvent::WantsRead(wanted) => if wanted {
            Step::Ask(PumpPoint::ReadTls)
        } else {
            Step::Ask(PumpPoint::WantsWrite { read_blocked: false })
        },
        PumpEvent::ReadTls(Ok(n)) => if n == 0 {
            pump_round(true)
        } else {
            Step::Ask(PumpPoint::Process)
        },
        PumpEvent::ReadTls(Err(failure)) => if failure.blocked() {
            Step::Ask(PumpPoint::WantsWrite { read_blocked: true })
        } else {
            Step::Done(Err(StreamError::Outside(failure)))
        },
        PumpEvent::Processed(Ok(_)) => pump_round(eof),
        PumpEvent::Processed(Err(error)) => Step::Ask(PumpPoint::AlertWantsWrite(error)),
        PumpEvent::AlertWantsWrite(error, queued) => if queued {
            Step::Ask(PumpPoint::AlertFlush(error))
        } else {
            Step::Done(Err(StreamError::Protocol(error)))
        },
        PumpEvent::AlertFlushed(error, _) => Step::Done(Err(StreamError::Protocol(error))),
        PumpEvent::WantsWrite { read_blocked, wanted } => if wanted {
            Step::Ask(PumpPoint::WriteTls { read_blocked })
        } else if read_blocked {
            Step::Done(Err(StreamError::WouldBlock))
        } else {
            Step::Done(Ok(()))
        },
        PumpEvent::WriteTls { read_blocked, outcome: Ok(_) } => pump_round(eof),
        PumpEvent::WriteTls { read_blocked, outcome: Err(failure) } => if failure.blocked() {
            Step::Done(Err(StreamError::WouldBlock))
        } else {
            Step::Done(Err(StreamError::Outside(failure)))
        },
    }
}

impl<E> PumpPoint<E> {
    /// Whether `event` is an answer given at this point: the answer to the
    /// point's call, with what the point carried.
    pub open spec fn answered_by(self, event: PumpEvent<E>) -> bool {
        match (self, event) {
            (PumpPoint::WantsRead, PumpEvent::WantsRead(_)) => true,
            (PumpPoint::ReadTls, PumpEvent::ReadTls(_)) => true,
            (PumpPoint::Process, PumpEvent::Processed(_)) => true,
            (PumpPoint::AlertWantsWrite(held), PumpEvent::AlertWantsWrite(error, _)) => held
                == error,
            (PumpPoint::AlertFlush(held), PumpEvent::AlertFlushed(error, _)) => held == error,
            (
                PumpPoint::WantsWrite { read_blocked: held },
                PumpEvent::WantsWrite { read_blocked, .. },
            ) => held == read_blocked,
            (
                PumpPoint::WriteTls { read_blocked: held },
                PumpEvent::WriteTls { read_blocked, .. },
            ) => held == read_blocked,
            _ => false,
        }
    }
}

/// The end-of-input flag after steps on each of `events` in turn, the first
/// of which began with the flag at `eof`.
pub open spec fn pump_eof_after<E>(eof: bool, events: Seq<PumpEvent<E>>) -> bool
    decreases events.len(),
{
    if events.len() == 0 {
        eof
    } else {
        pump_eof(pump_eof_after(eof, events.drop_last()), events.last())
    }
}

/// What the step on the last of `events` does next, after steps on each of
/// those before it.
pub open spec fn pump_step_after<E>(eof: bool, events: Seq<PumpEvent<E>>) -> PumpStep<E>
    recommends
        events.len() > 0,
{
    pump_next(pump_eof_after(eof, events.drop_last()), events.last())
}

/// Whether `events` is what the steps of one run are given: the start, and
/// then at each step an answer at the point that the step before asked.
pub open spec fn pump_run<E>(eof: bool, events: Seq<PumpEvent<E>>) -> bool
    decreases events.len(),
{
    if events.len() == 0 {
        false
    } else if events.len() == 1 {
        events[0] is Start
    } else {
        &&& pump_run(eof, events.drop_last())
        &&& pump_step_after(eof, events.drop_last()) matches Step::Ask(point)
        &&& point.answered_by(events.last())
    }
}

/// The end-of-input flag never reverts: once it is up after some of the
/// events, it is up after all of them.
pub proof fn law_eof_never_reverts<E>(eof: bool, events: Seq<PumpEvent<E>>, seen: int)
    requires
        0 <= seen <= events.len(),
        pump_eof_after(eof, events.take(seen)),
    ensures
        pump_eof_after(eof, events),
    decreases events.len(),
{
    if seen == events.len() {
        assert(events.take(seen) == events);
    } else {
        assert(events.drop_last().take(seen) == events.take(seen));
        law_eof_never_reverts(eof, events.drop_last(), seen);
    }
}

/// A transport read of zero bytes raises the end-of-input flag, whatever
/// came before it.
pub proof fn law_zero_read_is_eof<E>(eof: bool, events: Seq<PumpEvent<E>>)
    requires
        events.len() > 0,
        events.last() == PumpEvent::<E>::ReadTls(Ok(0)),
    ensures
        pump_eof_after(eof, events),
{
}

/// Once the end-of-input flag is up, a run asks for nothing on the read
/// side: it does not ask whether the session wants to read, reads nothing
/// from the transport and has nothing decoded.
pub proof fn law_no_read_after_eof<E>(eof: bool, events: Seq<PumpEvent<E>>)
    requires
        pump_run(eof, events),
        pump_eof_after(eof, events),
    ensures
        pump_step_after(eof, events) matches Step::Ask(point) ==> {
            &&& !(point is WantsRead)
            &&& !(point is ReadTls)
            &&& !(point is Process)
        },
    decreases events.len(),
{
    let last = events.last();
    if last != PumpEvent::<E>::ReadTls(Ok(0)) && events.len() > 1 {
        law_no_read_after_eof(eof, events.drop_last());
    }
}

/// A protocol error is reported only after the alert had its chance. A run
/// that ends with the session's protocol error asked, after the failed
/// decoding, whether the session had anything queued to send; and where it
/// had, the run asked for one write to the transport, whose outcome it
/// ignored, before it returned the error.
pub proof fn law_alert_before_error<E>(eof: bool, events: Seq<PumpEvent<E>>, error: E)
    requires
        pump_run(eof, events),
        pump_step_after(eof, events) == PumpStep::<E>::Done(Err(StreamError::Protocol(error))),
    ensures
        ({
            let n = events.len() as int;
            ||| {
                &&& n >= 3
                &&& events[n - 2] == PumpEvent::<E>::Processed(Err(error))
                &&& events[n - 1] == PumpEvent::<E>::AlertWantsWrite(error, false)
            }
            ||| {
                &&& n >= 4
                &&& events[n - 3] == PumpEvent::<E>::Processed(Err(error))
                &&& events[n - 2] == PumpEvent::<E>::AlertWantsWrite(error, true)
                &&& pump_step_after(eof, events.drop_last()) == PumpStep::<E>::Ask(
                    PumpPoint::AlertFlush(error),
                )
                &&& events[n - 1] matches PumpEvent::AlertFlushed(held, _)
                &&& held == error
            }
        }),
{
    reveal_with_fuel(pump_run, 4);
    let n = events.len() as int;
    let before = events.drop_last();
    assert(n >= 3);
    assert(before.last() == events[n - 2]);
    if events.last() is AlertFlushed {
        let earlier = before.drop_last();
        assert(n >= 4);
        assert(earlier.last() == events[n - 3]);
    }
}

/// How a run can end, and on what.
///
/// - It succeeds only when the session wanted no write and the read side
///   was not blocked: the session wanted no read either, or the transport
///   has ended.
/// - It reports "would block" only when a read or a write that the
///   session wanted was blocked on the transport, and only after the write
///   side had its turn.
/// - It hands on a failure of the transport only from a read or a write
///   that failed with it, unchanged, and never one that means "would
///   block".
/// - It never reports an unexpected end of input.
pub proof fn law_pump_outcomes<E>(eof: bool, events: Seq<PumpEvent<E>>)
    requires
        pump_run(eof, events),
    ensures
        ({
            let n = events.len() as int;
            let last = events.last();
            match pump_step_after(eof, events) {
                Step::Ask(_) => true,
                Step::Done(Ok(_)) => {
                    &&& n >= 2
                    &&& last == PumpEvent::<E>::WantsWrite { read_blocked: false, wanted: false }
                    &&& events[n - 2] == PumpEvent::<E>::WantsRead(false) || pump_eof_after(
                        eof,
                        events,
                    )
                },
                Step::Done(Err(StreamError::WouldBlock)) => {
                    ||| {
                        &&& last matches PumpEvent::WriteTls { outcome: Err(failure), .. }
                        &&& failure.blocked()
                    }
                    ||| {
                        &&& n >= 3
                        &&& last == PumpEvent::<E>::WantsWrite { read_blocked: true, wanted: false }
                        &&& events[n - 2] matches PumpEvent::ReadTls(Err(failure))
                        &&& failure.blocked()
                    }
                },
                Step::Done(Err(StreamError::Outside(failure))) => {
                    &&& !failure.blocked()
                    &&& last == PumpEvent::<E>::ReadTls(Err(failure)) || (last matches PumpEvent::WriteTls {
                        outcome: Err(other),
                        ..
                    } && other == failure)
                },
                Step::Done(Err(StreamError::Protocol(error))) => last matches PumpEvent::AlertWantsWrite(
                    _,
                    false,
                ) || last is AlertFlushed,
                Step::Done(Err(StreamError::UnexpectedEof)) => false,
            }
        }),
{
    reveal_with_fuel(pump_run, 3);
    let n = events.len() as int;
    if n >= 2 {
        let before = events.drop_last();
        assert(before.last() == events[n - 2]);
        if events.last() == (PumpEvent::<E>::WantsWrite { read_blocked: false, wanted: false }) {
            lemma_round_without_read(eof, before);
        }
    }
}

/// A step that asks whether the session wants to write, with the read side
/// not blocked, was told that the session wants no read, or left the
/// end-of-input flag up.
proof fn lemma_round_without_read<E>(eof: bool, events: Seq<PumpEvent<E>>)
    requires
        events.len() > 0,
        pump_step_after(eof, events) == PumpStep::<E>::Ask(
            PumpPoint::WantsWrite { read_blocked: false },
        ),
    ensures
        events.last() == PumpEvent::<E>::WantsRead(false) || pump_eof_after(eof, events),
{
}

/// In every round the read side comes first. A run turns to the write
/// side only when the transport has ended, when the session wants no read,
/// or when the read that it wanted was blocked; and it reads from the
/// transport only on the session's answer that it wants to read, with the
/// end-of-input flag down.
pub proof fn law_read_side_first<E>(eof: bool, events: Seq<PumpEvent<E>>)
    requires
        pump_run(eof, events),
    ensures
        pump_step_after(eof, events) matches Step::Ask(PumpPoint::WantsWrite { read_blocked }) ==> {
            if read_blocked {
                events.last() matches PumpEvent::ReadTls(Err(failure)) && failure.blocked()
            } else {
                events.last() == PumpEvent::<E>::WantsRead(false) || pump_eof_after(eof, events)
            }
        },
        pump_step_after(eof, events) == PumpStep::<E>::Ask(PumpPoint::ReadTls) ==> {
            &&& events.last() == PumpEvent::<E>::WantsRead(true)
            &&& !pump_eof_after(eof, events)
        },
{
    reveal_with_fuel(pump_run, 2);
    if pump_eof_after(eof, events) && pump_step_after(eof, events) == PumpStep::<E>::Ask(
        PumpPoint::ReadTls,
    ) {
        law_no_read_after_eof(eof, events);
    }
}

} // verus!
