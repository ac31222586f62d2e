//! Shutting down: queue a close-notify once, drain the session to the
//! transport, flush the transport, and let the transport close its side.

use vstd::prelude::*;
use crate::outcome::{Failure, Readiness, Step};

verus! {

/// The places in a shutdown at which it waits for an answer.
#[derive(Debug, PartialEq, Eq)]
pub enum ShutdownPoint {
    /// Tell the session to queue a close-notify.
    CloseNotify,
    /// Does the session want to write?
    WantsWrite,
    /// Write records from the session to the transport.
    WriteTls,
    /// Flush the transport.
    Flush,
    /// Let the transport close its side.
    Transport,
}

/// What a step of a shutdown is given.
#[derive(Debug, PartialEq, Eq)]
pub enum ShutdownEvent<E> {
    /// Begin a shutdown, or take one up again that was not ready.
    Start,
    /// The session has queued the close-notify.
    CloseNotify,
    /// The answer at [`ShutdownPoint::WantsWrite`].
    WantsWrite(bool),
    /// The answer at [`ShutdownPoint::WriteTls`]: the number of bytes
    /// written.
    WriteTls(Result<usize, Failure<E>>),
    /// The answer at [`ShutdownPoint::Flush`].
    Flush(Result<(), Failure<E>>),
    /// The answer at [`ShutdownPoint::Transport`].
    Transport(Result<Readiness<()>, Failure<E>>),
}

/// How a shutdown ends: done, not ready yet, or with a failure of the
/// session or the transport, unchanged.
pub type ShutdownResult<E> = Result<Readiness<()>, Failure<E>>;

/// A step of a shutdown.
pub type ShutdownStep<E> = Step<ShutdownPoint, ShutdownResult<E>>;

/// How a shutdown ends on a failure while draining or flushing: a failure
/// that only means "try again later" makes the shutdown not ready; any
/// other is handed on.
pub open spec fn shutdown_stopped<E>(failure: Failure<E>) -> ShutdownStep<E> {
    if failure.blocked() {
        Step::Done(Ok(Readiness::NotReady))
    } else {
        Step::Done(Err(failure))
    }
}

/// The close-notify flag after a step that began with the flag at `sent`:
/// it is raised when the session has queued the alert, and never lowered.
pub open spec fn shutdown_flag<E>(sent: bool, event: ShutdownEvent<E>) -> bool {
    sent || event is CloseNotify
}

/// What a step of a shutdown does next, given the close-notify flag it
/// began with.
pub open spec fn shutdown_next<E>(sent: bool, event: ShutdownEvent<E>) -> ShutdownStep<E> {
    match event {
        ShutdownEvent::Start => if sent {
            Step::Ask(ShutdownPoint::WantsWrite)
        } else {
            Step::Ask(ShutdownPoint::CloseNotify)
        },
        ShutdownEvent::CloseNotify => Step::Ask(ShutdownPoint::WantsWrite),
        ShutdownEvent::WantsWrite(wanted) => if wanted {
            Step::Ask(ShutdownPoint::WriteTls)
        } else {
            Step::Ask(ShutdownPoint::Flush)
        },
        ShutdownEvent::WriteTls(Ok(_)) => Step::Ask(ShutdownPoint::WantsWrite),
        ShutdownEvent::WriteTls(Err(failure)) => shutdown_stopped(failure),
        ShutdownEvent::Flush(Ok(_)) => Step::Ask(ShutdownPoint::Transport),
        ShutdownEvent::Flush(Err(failure)) => shutdown_stopped(failure),
        ShutdownEvent::Transport(outcome) => Step::Done(outcome),
    }
}

impl ShutdownPoint {
    /// Whether `event` is an answer given at this point.
    pub open spec fn answered_by<E>(self, event: ShutdownEvent<E>) -> bool {
        match (self, event) {
            (ShutdownPoint::CloseNotify, ShutdownEvent::CloseNotify) => true,
            (ShutdownPoint::WantsWrite, ShutdownEvent::WantsWrite(_)) => true,
            (ShutdownPoint::WriteTls, ShutdownEvent::WriteTls(_)) => true,
            (ShutdownPoint::Flush, ShutdownEvent::Flush(_)) => true,
            (ShutdownPoint::Transport, ShutdownEvent::Transport(_)) => true,
            _ => false,
        }
    }
}

/// The close-notify flag after steps on each of `events` in turn, the
/// first of which began with the flag at `sent`.
pub open spec fn shutdown_flag_after<E>(sent: bool, events: Seq<ShutdownEvent<E>>) -> bool
    decreases events.len(),
{
    if events.len() == 0 {
        sent
    } else {
        shutdown_flag(shutdown_flag_after(sent, events.drop_last()), events.last())
    }
}

/// What the step on the last of `events` does next, after steps on each of
/// those before it.
pub open spec fn shutdown_step_after<E>(
    sent: bool,
    events: Seq<ShutdownEvent<E>>,
) -> ShutdownStep<E>
    recommends
        events.len() > 0,
{
    shutdown_next(shutdown_flag_after(sent, events.drop_last()), events.last())
}

/// Whether `events` is what the steps of one shutdown are given: the
/// start, and then at each step an answer at the point that the step
/// before asked.
pub open spec fn shutdown_run<E>(sent: bool, events: Seq<ShutdownEvent<E>>) -> bool
    decreases events.len(),
{
    if events.len() == 0 {
        false
    } else if events.len() == 1 {
        events[0] is Start
    } else {
        &&& shutdown_run(sent, events.drop_last())
        &&& shutdown_step_after(sent, events.drop_last()) matches Step::Ask(point)
        &&& point.answered_by(events.last())
    }
}

/// The close-notify is queued once. A shutdown asks for it only at its
/// start and only with the flag down; the flag is up from the session's
/// answer on, and never reverts; so a shutdown that begins with the flag
/// up never asks for it.
pub proof fn law_close_notify_once<E>(sent: bool, events: Seq<ShutdownEvent<E>>)
    requires
        shutdown_run(sent, events),
    ensures
        sent ==> shutdown_flag_after(sent, events),
        events.len() >= 2 ==> shutdown_flag_after(sent, events),
        shutdown_step_after(sent, events) == ShutdownStep::<E>::Ask(ShutdownPoint::CloseNotify)
            <==> !sent && events.len() == 1,
    decreases events.len(),
{
    if events.len() > 1 {
        law_close_notify_once(sent, events.drop_last());
    }
}

/// How a shutdown can end, and on what.
///
/// - The transport closes its side only after it was flushed, and it is
///   flushed only once the session wants no write.
/// - The shutdown is done, or fails, as the transport's own shutdown says,
///   or fails with a failure of a write or of the flush, unchanged, that
///   does not mean "would block".
/// - It is not ready when a write or the flush would block, or when the
///   transport's own shutdown says so.
pub proof fn law_shutdown_outcomes<E>(sent: bool, events: Seq<ShutdownEvent<E>>)
    requires
        shutdown_run(sent, events),
    ensures
        ({
            let n = events.len() as int;
            let last = events.last();
            match shutdown_step_after(sent, events) {
                Step::Ask(ShutdownPoint::Transport) => {
                    &&& n >= 3
                    &&& last matches ShutdownEvent::Flush(Ok(_))
                    &&& events[n - 2] == ShutdownEvent::<E>::WantsWrite(false)
                },
                Step::Ask(_) => true,
                Step::Done(Ok(Readiness::Ready(_))) => last matches ShutdownEvent::Transport(
                    Ok(Readiness::Ready(_)),
                ),
                Step::Done(Ok(Readiness::NotReady)) => {
                    ||| last == ShutdownEvent::<E>::Transport(Ok(Readiness::NotReady))
                    ||| last matches ShutdownEvent::WriteTls(Err(failure)) && failure.blocked()
                    ||| last matches ShutdownEvent::Flush(Err(failure)) && failure.blocked()
                },
                Step::Done(Err(failure)) => {
                    ||| last == ShutdownEvent::<E>::Transport(Err(failure))
                    ||| last == ShutdownEvent::<E>::WriteTls(Err(failure)) && !failure.blocked()
                    ||| last == ShutdownEvent::<E>::Flush(Err(failure)) && !failure.blocked()
                },
            }
        }),
{
    reveal_with_fuel(shutdown_run, 3);
    let n = events.len() as int;
    if n >= 2 {
        assert(events.drop_last().last() == events[n - 2]);
    }
}

} // verus!
