//! The command task: select-before-operate or direct-operate.
//!
//! The task decides which request goes out and, for each response, whether
//! another request follows or the command is complete and with what result.
//! The caller sends the requests and completes the task's promise with the
//! result handed back.
use vstd::prelude::*;

use crate::app::{FunctionCode, ObjectParseError};
use crate::master::error::{CommandError, CommandResponseError, TaskError};

verus! {

/// How a command is carried out.
#[derive(Copy, Clone, Debug, PartialEq, Eq, Structural)]
pub enum CommandMode {
    /// One request, DIRECT_OPERATE.
    DirectOperate,
    /// A SELECT, then an OPERATE once the outstation echoes the select.
    SelectBeforeOperate,
}

/// The request a command task sends next.
#[derive(Copy, Clone, Debug, PartialEq, Eq, Structural)]
pub enum State {
    Select,
    Operate,
    DirectOperate,
}

/// The first state of a task in `mode`.
pub open spec fn spec_to_state(mode: CommandMode) -> State {
    match mode {
        CommandMode::DirectOperate => State::DirectOperate,
        CommandMode::SelectBeforeOperate => State::Select,
    }
}

/// The function code of the request sent in `state`.
pub open spec fn spec_function(state: State) -> FunctionCode {
    match state {
        State::DirectOperate => FunctionCode::DirectOperate,
        State::Select => FunctionCode::Select,
        State::Operate => FunctionCode::Operate,
    }
}

impl CommandMode {
    fn to_state(self) -> (s: State)
        ensures
            s == spec_to_state(self),
    {
        match self {
            CommandMode::DirectOperate => State::DirectOperate,
            CommandMode::SelectBeforeOperate => State::Select,
        }
    }
}

/// A response to a command request, as far as the task reads it: its
/// objects could not be parsed, or they differ from the request's headers,
/// or they echo them.
#[derive(Copy, Clone, Debug, PartialEq, Eq, Structural)]
pub enum CommandResponse {
    Malformed(ObjectParseError),
    Mismatch(CommandResponseError),
    Echo,
}

/// A command in progress: the request it sends next, the command headers
/// (carried unchanged), and the promise that receives the command's result.
pub struct CommandTask<H, P> {
    state: State,
    headers: H,
    promise: P,
}

/// What follows a response or an error: another request, or completion of
/// the promise with a result.
pub enum CommandStep<H, P> {
    Next(CommandTask<H, P>),
    Complete(P, Result<(), CommandError>),
}

/// What `handle` does with a response in `state`.
pub open spec fn spec_handle_result(state: State, response: CommandResponse) -> Option<
    Result<(), CommandError>,
> {
    match response {
        CommandResponse::Malformed(err) => Some(
            Err(CommandError::Task(TaskError::MalformedResponse(err))),
        ),
        CommandResponse::Mismatch(err) => Some(Err(CommandError::Response(err))),
        CommandResponse::Echo => match state {
            State::Select => None,
            _ => Some(Ok(())),
        },
    }
}

impl<H, P> CommandTask<H, P> {
    pub closed spec fn state(&self) -> State {
        self.state
    }

    pub closed spec fn spec_headers(&self) -> H {
        self.headers
    }

    pub closed spec fn spec_promise(&self) -> P {
        self.promise
    }

    pub fn from_mode(mode: CommandMode, headers: H, promise: P) -> (t: Self)
        ensures
            t.state() == spec_to_state(mode),
            t.spec_headers() == headers,
            t.spec_promise() == promise,
    {
        Self { state: mode.to_state(), headers, promise }
    }

    fn new(state: State, headers: H, promise: P) -> (t: Self)
        ensures
            t.state() == state,
            t.spec_headers() == headers,
            t.spec_promise() == promise,
    {
        Self { state, headers, promise }
    }

    fn change_state(self, state: State) -> (t: Self)
        ensures
            t.state() == state,
            t.spec_headers() == self.spec_headers(),
            t.spec_promise() == self.spec_promise(),
    {
        Self::new(state, self.headers, self.promise)
    }

    /// The command headers, for writing the request.
    pub fn headers(&self) -> (h: &H)
        ensures
            *h == self.spec_headers(),
    {
        &self.headers
    }

    /// The function code of the next request.
    pub fn function(&self) -> (f: FunctionCode)
        ensures
            f == spec_function(self.state()),
    {
        match self.state {
            State::DirectOperate => FunctionCode::DirectOperate,
            State::Select => FunctionCode::Select,
            State::Operate => FunctionCode::Operate,
        }
    }

    /// The task failed: its promise receives the error.
    pub fn on_task_error(self, err: TaskError) -> (r: (P, Result<(), CommandError>))
        ensures
            r.0 == self.spec_promise(),
            r.1 == Err::<(), CommandError>(CommandError::Task(err)),
    {
        (self.promise, Err(CommandError::from(err)))
    }

    /// A response arrived: a malformed one or one that differs from the
    /// request completes the command with that error; an echo of a SELECT is
    /// followed by the OPERATE; any other echo completes it with success.
    pub fn handle(self, response: CommandResponse) -> (r: CommandStep<H, P>)
        ensures
            match spec_handle_result(self.state(), response) {
                Some(result) => r == CommandStep::<H, P>::Complete(self.spec_promise(), result),
                None => r matches CommandStep::Next(t) && t.state() == State::Operate
                    && t.spec_headers() == self.spec_headers() && t.spec_promise()
                    == self.spec_promise(),
            },
    {
        match response {
            CommandResponse::Malformed(err) => {
                return CommandStep::Complete(
                    self.promise,
                    Err(CommandError::from(TaskError::MalformedResponse(err))),
                );
            },
            CommandResponse::Mismatch(err) => {
                return CommandStep::Complete(self.promise, Err(CommandError::from(err)));
            },
            CommandResponse::Echo => {},
        }
        match self.state {
            State::Select => CommandStep::Next(self.change_state(State::Operate)),
            _ => {
                // Complete w/ success
                CommandStep::Complete(self.promise, Ok(()))
            },
        }
    }
}

/// A select-before-operate command sends SELECT; once the outstation echoes
/// it, OPERATE; once that is echoed, it completes with success. A direct
/// operate command sends DIRECT_OPERATE and completes on its echo.
pub proof fn lemma_command_sequence()
    ensures
        spec_function(spec_to_state(CommandMode::SelectBeforeOperate)) == FunctionCode::Select,
        spec_handle_result(
            spec_to_state(CommandMode::SelectBeforeOperate),
            CommandResponse::Echo,
        ) is None,
        spec_function(State::Operate) == FunctionCode::Operate,
        spec_handle_result(State::Operate, CommandResponse::Echo) == Some(
            Ok::<(), CommandError>(()),
        ),
        spec_function(spec_to_state(CommandMode::DirectOperate)) == FunctionCode::DirectOperate,
        spec_handle_result(
            spec_to_state(CommandMode::DirectOperate),
            CommandResponse::Echo,
        ) == Some(Ok::<(), CommandError>(())),
{
}

/// In every state, a malformed response or one that differs from the
/// request ends the command with that error: a malformed one as a task
/// failure, a differing one as the difference found.
pub proof fn lemma_bad_response_completes_with_error(state: State, response: CommandResponse)
    requires
        !(response is Echo),
    ensures
        spec_handle_result(state, response) matches Some(r) && r is Err,
        response matches CommandResponse::Malformed(e) ==> spec_handle_result(state, response)
            == Some(Err::<(), CommandError>(CommandError::Task(TaskError::MalformedResponse(e)))),
        response matches CommandResponse::Mismatch(e) ==> spec_handle_result(state, response)
            == Some(Err::<(), CommandError>(CommandError::Response(e))),
{
}

} // verus!
