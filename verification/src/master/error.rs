//! Errors of master tasks and sessions.
use vstd::prelude::*;

use crate::app::ObjectParseError;
use crate::error::{FrameError, LogicError, ParseError};

verus! {

/// A failure of the link below the master: of the physical channel, or a
/// frame that the link layer rejected.
#[derive(Copy, Clone, Debug, PartialEq, Eq, Structural)]
pub enum LinkError {
    Stdio,
    BadFrame(FrameError),
    BadLogic(LogicError),
}

impl From<ParseError> for LinkError {
    fn from(err: ParseError) -> (e: LinkError) {
        match err {
            ParseError::BadFrame(x) => LinkError::BadFrame(x),
            ParseError::BadLogic(x) => LinkError::BadLogic(x),
        }
    }
}

impl vstd::std_specs::convert::FromSpecImpl<ParseError> for LinkError {
    open spec fn obeys_from_spec() -> bool {
        true
    }

    open spec fn from_spec(err: ParseError) -> LinkError {
        match err {
            ParseError::BadFrame(x) => LinkError::BadFrame(x),
            ParseError::BadLogic(x) => LinkError::BadLogic(x),
        }
    }
}

/// Why a task did not complete.
#[derive(Copy, Clone, Debug, PartialEq, Eq, Structural)]
pub enum TaskError {
    /// The link failed.
    Link(LinkError),
    /// The response's object headers could not be parsed.
    MalformedResponse(ObjectParseError),
    /// No response came before the timeout.
    ResponseTimeout,
    /// A response that must fit in one fragment spanned several.
    MultiFragmentResponse,
    /// A fragment other than the first carried FIR.
    UnexpectedFir,
    /// The first fragment did not carry FIR.
    NeverReceivedFir,
    /// A fragment without FIN did not ask for a confirmation.
    NonFinWithoutCon,
    /// No association has this address.
    NoSuchAssociation(u16),
    /// The response did not hold what the task expected.
    UnexpectedResponseHeaders,
    /// Communication was disabled.
    Disabled,
    /// The master is shutting down.
    Shutdown,
}

impl From<LinkError> for TaskError {
    fn from(err: LinkError) -> (e: TaskError) {
        TaskError::Link(err)
    }
}

impl vstd::std_specs::convert::FromSpecImpl<LinkError> for TaskError {
    open spec fn obeys_from_spec() -> bool {
        true
    }

    open spec fn from_spec(err: LinkError) -> TaskError {
        TaskError::Link(err)
    }
}

/// The outstation's answer to a command differs from the request.
#[derive(Copy, Clone, Debug, PartialEq, Eq, Structural)]
pub struct CommandResponseError;

/// Why a command did not succeed.
#[derive(Copy, Clone, Debug, PartialEq, Eq, Structural)]
pub enum CommandError {
    Task(TaskError),
    Response(CommandResponseError),
}

impl From<TaskError> for CommandError {
    fn from(err: TaskError) -> (e: CommandError) {
        CommandError::Task(err)
    }
}

impl vstd::std_specs::convert::FromSpecImpl<TaskError> for CommandError {
    open spec fn obeys_from_spec() -> bool {
        true
    }

    open spec fn from_spec(err: TaskError) -> CommandError {
        CommandError::Task(err)
    }
}

impl From<CommandResponseError> for CommandError {
    fn from(err: CommandResponseError) -> (e: CommandError) {
        CommandError::Response(err)
    }
}

impl vstd::std_specs::convert::FromSpecImpl<CommandResponseError> for CommandError {
    open spec fn obeys_from_spec() -> bool {
        true
    }

    open spec fn from_spec(err: CommandResponseError) -> CommandError {
        CommandError::Response(err)
    }
}

/// Why an association could not be added.
#[derive(Copy, Clone, Debug, PartialEq, Eq, Structural)]
pub enum AssociationError {
    /// An association with this address exists already.
    DuplicateAddress(u16),
}

} // verus!
