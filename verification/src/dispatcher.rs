//! The command dispatcher: what is written for a command, which reply it
//! waits for, and how the two phases of a reset follow each other.
//!
//! The dispatcher never touches the line. It is a pair of state machines:
//! each takes what happened on the line and answers with the next state and
//! what to do next. The surrounding program performs the action and comes
//! back with the next event.
//!
//! A command that waits for a reply has the reader expect that reply before
//! its bytes go out, so that no acknowledgement can come too early to be
//! recognised, and has the reader forget it when the command is over. One
//! command is in flight at a time: while a reply is awaited, another command
//! that needs one fails at once.
//!
//! Every failure is reported as the same error, and nothing is retried here.

use crate::command::{encode, Command};
use crate::reader::Reader;
use vstd::prelude::*;

verus! {

/// What went wrong on the line.
#[derive(Debug, Clone, Copy, PartialEq, Eq, Structural)]
pub enum UartError {
    /// Writing failed, or no acknowledgement came in time, or the wrong one
    /// came.
    GenericError,
}

/// Why a command failed.
#[derive(Debug, Clone, Copy, PartialEq, Eq, Structural)]
pub enum DriverError {
    /// The exchange on the line failed.
    UartError { cause: UartError },
}

/// The one error that a failed exchange gives.
pub open spec fn line_failure() -> DriverError {
    DriverError::UartError { cause: UartError::GenericError }
}

/// What happened on the line since the last action.
#[derive(Debug, Clone, Copy, PartialEq, Eq, Structural)]
pub enum Event {
    /// The bytes were written.
    Written,
    /// The bytes could not be written.
    WriteFailed,
    /// The reader delivered an acknowledgement with this message code.
    Acknowledged { code: u8 },
    /// The wait for an acknowledgement ended without one.
    TimedOut,
}

/// What the surrounding program is to do next.
#[derive(Debug, PartialEq, Eq)]
pub enum Action {
    /// Write these bytes, then report `Written` or `WriteFailed`.
    Write { bytes: Vec<u8> },
    /// Wait, for a bounded time, until the reader delivers the
    /// acknowledgement with this code; then report `Acknowledged` or
    /// `TimedOut`.
    AwaitAck { code: u8 },
    /// The command is over, with this result.
    Finish { result: Result<(), DriverError> },
}

/// The life of one command on the line.
#[derive(Debug, Clone, Copy, PartialEq, Eq, Structural)]
pub enum Exchange {
    /// The bytes are being written; `awaits` is the code to wait for after.
    Writing { awaits: Option<u8> },
    /// The bytes are out and the reply is awaited.
    Awaiting { reply: u8 },
    /// The command succeeded.
    Done,
    /// The command failed.
    Failed,
}

impl Exchange {
    /// The state after `event`.
    ///
    /// A command succeeds when its bytes are written and, if it waits for a
    /// reply, the reply with its code is delivered. Anything else that
    /// happens before that fails it. `Done` and `Failed` are final.
    pub open spec fn after(self, event: Event) -> Exchange {
        match (self, event) {
            (Exchange::Writing { awaits: Some(code) }, Event::Written) => Exchange::Awaiting {
                reply: code,
            },
            (Exchange::Writing { awaits: None }, Event::Written) => Exchange::Done,
            (Exchange::Writing { .. }, _) => Exchange::Failed,
            (Exchange::Awaiting { reply }, Event::Acknowledged { code }) => if code == reply {
                Exchange::Done
            } else {
                Exchange::Failed
            },
            (Exchange::Awaiting { .. }, _) => Exchange::Failed,
            (Exchange::Done, _) => Exchange::Done,
            (Exchange::Failed, _) => Exchange::Failed,
        }
    }

    /// The state after a sequence of events, in order.
    pub open spec fn after_all(self, events: Seq<Event>) -> Exchange
        decreases events.len(),
    {
        if events.len() == 0 {
            self
        } else {
            self.after_all(events.drop_last()).after(events.last())
        }
    }

    /// The result of the command, once it is over.
    pub open spec fn outcome(self) -> Option<Result<(), DriverError>> {
        match self {
            Exchange::Done => Some(Ok(())),
            Exchange::Failed => Some(Err(line_failure())),
            _ => None,
        }
    }

    /// Whether the command is in flight and a reply is awaited for it.
    pub open spec fn awaits_reply(self) -> bool {
        self is Awaiting || (self matches Exchange::Writing { awaits } && awaits is Some)
    }

    /// The state in which a command starts while the reader awaits
    /// `pending`: it is being written, unless it needs a reply and another
    /// reply is still awaited.
    pub open spec fn started(command: Command, pending: Option<u8>) -> Exchange {
        match command.spec_kind().spec_code() {
            Some(code) => if pending is None {
                Exchange::Writing { awaits: Some(code) }
            } else {
                Exchange::Failed
            },
            None => Exchange::Writing { awaits: None },
        }
    }

    /// Starts a command.
    ///
    /// A framed command waits for a reply with its own message code: the
    /// reader is made to expect it, and the packet is to be written. If the
    /// reader already awaits a reply, the command fails at once and nothing
    /// changes. The passthrough is to be written as it is and waits for
    /// nothing.
    pub fn begin(command: &Command, reader: &mut Reader) -> (started: (Exchange, Action))
        ensures
            started.0 == Exchange::started(*command, old(reader).pending),
            match started.0 {
                Exchange::Writing { awaits } => {
                    &&& started.1 matches Action::Write { bytes } && bytes@ == command.wire()
                    &&& *final(reader) == (Reader {
                        pending: if awaits is Some {
                            awaits
                        } else {
                            old(reader).pending
                        },
                        ..*old(reader)
                    })
                },
                _ => {
                    &&& started.1 == (Action::Finish { result: Err(line_failure()) })
                    &&& *final(reader) == *old(reader)
                },
            },
    {
        match command.kind().code() {
            Some(code) => {
                if !reader.expect(code) {
                    return (
                        Exchange::Failed,
                        Action::Finish {
                            result: Err(DriverError::UartError { cause: UartError::GenericError }),
                        },
                    );
                }
                (Exchange::Writing { awaits: Some(code) }, Action::Write { bytes: encode(command) })
            },
            None => (Exchange::Writing { awaits: None }, Action::Write { bytes: encode(command) }),
        }
    }

    /// Takes an event and says what to do next.
    ///
    /// When a command that awaited a reply is over, however it ended, the
    /// reader awaits nothing any more: a reply that comes later is not this
    /// command's.
    pub fn step(self, event: Event, reader: &mut Reader) -> (next: (Exchange, Action))
        ensures
            next.0 == self.after(event),
            match next.0.outcome() {
                Some(result) => next.1 == (Action::Finish { result }),
                None => next.0 matches Exchange::Awaiting { reply } && next.1 == (Action::AwaitAck {
                    code: reply,
                }),
            },
            *final(reader) == if self.awaits_reply() && !(next.0 is Awaiting) {
                Reader { pending: None, ..*old(reader) }
            } else {
                *old(reader)
            },
    {
        let state: Exchange = match self {
            Exchange::Writing { awaits } => match event {
                Event::Written => match awaits {
                    Some(code) => Exchange::Awaiting { reply: code },
                    None => Exchange::Done,
                },
                _ => Exchange::Failed,
            },
            Exchange::Awaiting { reply } => match event {
                Event::Acknowledged { code } => if code == reply {
                    Exchange::Done
                } else {
                    Exchange::Failed
                },
                _ => Exchange::Failed,
            },
            Exchange::Done => Exchange::Done,
            Exchange::Failed => Exchange::Failed,
        };
        let was_awaiting: bool = match self {
            Exchange::Writing { awaits: Some(_) } => true,
            Exchange::Awaiting { .. } => true,
            _ => false,
        };
        let action: Action = match state {
            Exchange::Awaiting { reply } => Action::AwaitAck { code: reply },
            Exchange::Done => {
                if was_awaiting {
                    reader.cancel();
                }
                Action::Finish { result: Ok(()) }
            },
            _ => {
                if was_awaiting {
                    reader.cancel();
                }
                Action::Finish {
                    result: Err(DriverError::UartError { cause: UartError::GenericError }),
                }
            },
        };
        (state, action)
    }
}

/// The phases of a reset.
#[derive(Debug, Clone, Copy, PartialEq, Eq, Structural)]
pub enum ResetState {
    /// Nothing was sent yet.
    Idle,
    /// The request is out and its acknowledgement is awaited.
    RequestSent,
    /// The request was acknowledged; the confirmation is out and its
    /// acknowledgement is awaited.
    ConfirmSent,
    /// Both phases were acknowledged.
    Done,
    /// A phase failed.
    Failed,
}

/// What happened to a reset since its last action.
#[derive(Debug, Clone, Copy, PartialEq, Eq)]
pub enum ResetEvent {
    /// The caller asked for the reset.
    Start,
    /// The command of the current phase is over, with this result.
    Completed { result: Result<(), DriverError> },
}

/// What the surrounding program is to do next for a reset.
#[derive(Debug, PartialEq, Eq)]
pub enum ResetAction {
    /// Send this command and report how it ended.
    Send { command: Command },
    /// The reset is over, with this result.
    Finish { result: Result<(), DriverError> },
}

impl ResetState {
    /// The phase after `event`.
    ///
    /// The request goes out on `Start`; the confirmation goes out once the
    /// request was acknowledged; the reset is done once the confirmation
    /// was. Any other event in any phase fails the reset. `Done` and
    /// `Failed` are final.
    pub open spec fn after(self, event: ResetEvent) -> ResetState {
        match (self, event) {
            (ResetState::Idle, ResetEvent::Start) => ResetState::RequestSent,
            (ResetState::RequestSent, ResetEvent::Completed { result: Ok(_) }) => {
                ResetState::ConfirmSent
            },
            (ResetState::ConfirmSent, ResetEvent::Completed { result: Ok(_) }) => ResetState::Done,
            (ResetState::Done, _) => ResetState::Done,
            _ => ResetState::Failed,
        }
    }

    /// The phase after a sequence of events, in order.
    pub open spec fn after_all(self, events: Seq<ResetEvent>) -> ResetState
        decreases events.len(),
    {
        if events.len() == 0 {
            self
        } else {
            self.after_all(events.drop_last()).after(events.last())
        }
    }

    /// The result of the reset, once it is over.
    pub open spec fn outcome(self) -> Option<Result<(), DriverError>> {
        match self {
            ResetState::Done => Some(Ok(())),
            ResetState::Failed => Some(Err(line_failure())),
            _ => None,
        }
    }

    /// Takes an event and says what to do next.
    pub fn step(self, event: ResetEvent) -> (next: (ResetState, ResetAction))
        ensures
            next.0 == self.after(event),
            match next.0.outcome() {
                Some(result) => next.1 == (ResetAction::Finish { result }),
                None => match next.0 {
                    ResetState::RequestSent => next.1 == (ResetAction::Send {
                        command: Command::RequestReset,
                    }),
                    ResetState::ConfirmSent => next.1 == (ResetAction::Send {
                        command: Command::ConfirmReset,
                    }),
                    _ => false,
                },
            },
    {
        let state: ResetState = match self {
            ResetState::Idle => match event {
                ResetEvent::Start => ResetState::RequestSent,
                _ => ResetState::Failed,
            },
            ResetState::RequestSent => match event {
                ResetEvent::Completed { result: Ok(_) } => ResetState::ConfirmSent,
                _ => ResetState::Failed,
            },
            ResetState::ConfirmSent => match event {
                ResetEvent::Completed { result: Ok(_) } => ResetState::Done,
                _ => ResetState::Failed,
            },
            ResetState::Done => ResetState::Done,
            ResetState::Failed => ResetState::Failed,
        };
        let action: ResetAction = match state {
            ResetState::RequestSent => ResetAction::Send { command: Command::RequestReset },
            ResetState::ConfirmSent => ResetAction::Send { command: Command::ConfirmReset },
            ResetState::Done => ResetAction::Finish { result: Ok(()) },
            _ => ResetAction::Finish {
                result: Err(DriverError::UartError { cause: UartError::GenericError }),
            },
        };
        (state, action)
    }
}

/// How a framed command ends, for every course of events.
///
/// A command that waits for the reply `code` succeeds exactly when its bytes
/// were written and the next thing to happen is the delivery of that reply.
/// After one event it is waiting, or it has failed; after two it is over,
/// and nothing that happens later changes the result. So a line that
/// delivers no acknowledgement never gives a success.
pub proof fn lemma_exchange_course(code: u8, events: Seq<Event>)
    ensures
        ({
            let end = (Exchange::Writing { awaits: Some(code) }).after_all(events);
            let written = events.len() >= 1 && events[0] is Written;
            let acknowledged = written && events.len() >= 2 && events[1] == (Event::Acknowledged {
                code,
            });
            &&& events.len() == 0 ==> end == (Exchange::Writing { awaits: Some(code) })
            &&& events.len() == 1 ==> end == if written {
                Exchange::Awaiting { reply: code }
            } else {
                Exchange::Failed
            }
            &&& events.len() >= 2 ==> end == if acknowledged {
                Exchange::Done
            } else {
                Exchange::Failed
            }
        }),
    decreases events.len(),
{
    if events.len() > 0 {
        let before = events.drop_last();
        lemma_exchange_course(code, before);
        if before.len() >= 1 {
            assert(before[0] == events[0]);
        }
        if before.len() >= 2 {
            assert(before[1] == events[1]);
        }
    }
}

/// How the passthrough ends, for every course of events: it succeeds
/// exactly when its bytes were written, waits for nothing, and nothing that
/// happens later changes the result.
pub proof fn lemma_passthrough_course(events: Seq<Event>)
    ensures
        ({
            let end = (Exchange::Writing { awaits: None }).after_all(events);
            &&& events.len() == 0 ==> end == (Exchange::Writing { awaits: None })
            &&& events.len() >= 1 ==> end == if events[0] is Written {
                Exchange::Done
            } else {
                Exchange::Failed
            }
        }),
    decreases events.len(),
{
    if events.len() > 0 {
        let before = events.drop_last();
        lemma_passthrough_course(before);
        if before.len() >= 1 {
            assert(before[0] == events[0]);
        }
    }
}

/// How a reset ends, for every course of events.
///
/// A reset succeeds exactly when it was started, its request was
/// acknowledged and then its confirmation was acknowledged. If either
/// command fails, or anything else happens, the reset has failed, and it
/// stays failed: `Done` is the only success.
pub proof fn lemma_reset_course(events: Seq<ResetEvent>)
    ensures
        ({
            let end = ResetState::Idle.after_all(events);
            let started = events.len() >= 1 && events[0] is Start;
            let requested = started && events.len() >= 2 && (events[1] matches ResetEvent::Completed {
                result,
            } && result is Ok);
            let confirmed = requested && events.len() >= 3 && (events[2] matches ResetEvent::Completed {
                result,
            } && result is Ok);
            &&& events.len() == 0 ==> end == ResetState::Idle
            &&& events.len() == 1 ==> end == if started {
                ResetState::RequestSent
            } else {
                ResetState::Failed
            }
            &&& events.len() == 2 ==> end == if requested {
                ResetState::ConfirmSent
            } else {
                ResetState::Failed
            }
            &&& events.len() >= 3 ==> end == if confirmed {
                ResetState::Done
            } else {
                ResetState::Failed
            }
        }),
    decreases events.len(),
{
    if events.len() > 0 {
        let before = events.drop_last();
        lemma_reset_course(before);
        if before.len() >= 1 {
            assert(before[0] == events[0]);
        }
        if before.len() >= 2 {
            assert(before[1] == events[1]);
        }
        if before.len() >= 3 {
            assert(before[2] == events[2]);
        }
    }
}

/// A failure never turns into a success: from `Failed`, a command stays
/// failed and a reset stays failed, whatever happens.
pub proof fn lemma_failure_is_final(events: Seq<Event>, reset_events: Seq<ResetEvent>)
    ensures
        Exchange::Failed.after_all(events) == Exchange::Failed,
        ResetState::Failed.after_all(reset_events) == ResetState::Failed,
    decreases events.len() + reset_events.len(),
{
    if events.len() > 0 {
        lemma_failure_is_final(events.drop_last(), reset_events);
    } else if reset_events.len() > 0 {
        lemma_failure_is_final(events, reset_events.drop_last());
    }
}

} // verus!
