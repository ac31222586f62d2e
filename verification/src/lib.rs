//! The decision core of a non-blocking TLS stream adapter.
//!
//! The adapter couples a TLS session, which turns plaintext into records and
//! back, with a non-blocking transport. It decides which call to make next
//! on either of them and what to report to its caller; it never makes a call
//! itself, so it never blocks and never waits.
//!
//! Every operation (the record pump, the handshake, a read, a write, a
//! flush, a shutdown) is a series of steps. A step is a function from the
//! stream's two flags and an event to what comes next: a point, which names
//! the next call and carries what the operation has to remember, or the
//! operation's result. The first event is the operation's start; each later
//! event is the point that was asked, together with the answer to its call.
//! The caller makes the calls:
//!
//! ```text
//! let mut step = stream.do_io(PumpEvent::Start);
//! loop {
//!     let event = match step {
//!         Step::Done(result) => return result,
//!         Step::Ask(PumpPoint::WantsRead) => PumpEvent::WantsRead(session.wants_read()),
//!         ...
//!     };
//!     step = stream.do_io(event);
//! }
//! ```
//!
//! Each step function is specified by a transition function over plain
//! values (`pump_next`, `read_next`, ...). What holds of whole operations
//! is stated and proved over the sequences of events that such a loop can
//! produce (`pump_run`, `read_run`, ...), in the `law_` functions of each
//! module: that the end-of-input flag never reverts, that a protocol error
//! is reported only after the session's alert was written, that a write
//! reports "would block" only when nothing was accepted, and so on.

pub mod connect;
pub mod flush;
pub mod handshake;
pub mod outcome;
pub mod pump;
pub mod read;
pub mod shutdown;
pub mod stream;
pub mod write;

pub use crate::outcome::{Failure, FailureKind, Readiness, Step, StreamError};
pub use crate::connect::{
    accept_async_with_session, connect_async_with_session, AcceptAsync, ConnectAsync,
};
pub use crate::handshake::MidHandshake;
pub use crate::stream::TlsStream;
