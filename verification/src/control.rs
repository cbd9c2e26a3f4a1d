//! The control plane: what the host's request to run a command leads to.
//!
//! A request names a command as a list of tokens. The first token is the
//! program, the others are its arguments. What is sent back is always a
//! response with a text that is not empty: the command's standard output,
//! the report of a command that could not be started, or a sentinel where
//! there is nothing else to say. That a command could not be started is not
//! a fault of the transport, so it is a response like any other.
//!
//! Nothing here starts or awaits a process. A command that this module
//! hands out is started by the caller, who collects its standard output up
//! to the end of the stream and does not wait for the child: the exit of
//! every child is collected in one place only, by the reaper
//! ([`crate::reaper`]), so that no exit is collected twice.

use vstd::prelude::*;
use vstd::string::StringExecFns;
use vstd::utf8::{decode_utf8, valid_utf8};

use crate::error::{opt_error, Cause, CauseView, InitError, InitErrorView, OpKind};
use crate::text::texts;

verus! {

/// The context identifier on which the control plane listens.
pub const CONTROL_CID: u32 = 3;

/// The port on which the control plane listens.
pub const CONTROL_PORT: u32 = 10000;

/// First segment of the path of the one route.
pub const ROUTE_VERSION: &'static str = "v1";

/// Second segment of the path of the one route.
pub const ROUTE_NAME: &'static str = "exec";

/// The text of a response where there is nothing else to say: the request
/// named no command, or the command wrote nothing. No response is empty.
pub const SENTINEL: &'static str = "No command provided";

/// What the report of a command that could not be started begins with.
pub const FAILURE_PREFIX: &'static str = "Failed to execute command: ";

/// A request to run a command.
#[derive(Clone, Debug, PartialEq, Eq)]
pub struct ExecRequest {
    /// The tokens of the command.
    pub cmd: Vec<String>,
}

impl View for ExecRequest {
    type V = Seq<Seq<char>>;

    open spec fn view(&self) -> Seq<Seq<char>> {
        texts(self.cmd@)
    }
}

/// The response to a request. Its text is never empty.
#[derive(Debug, PartialEq, Eq)]
pub struct ExecResponse {
    output: String,
}

impl View for ExecResponse {
    type V = Seq<char>;

    closed spec fn view(&self) -> Seq<char> {
        self.output@
    }
}

/// A command to start.
#[derive(Clone, Debug, PartialEq, Eq)]
pub struct Command {
    pub program: String,
    pub args: Vec<String>,
}

/// The mathematical model of [`Command`].
pub struct CommandView {
    pub program: Seq<char>,
    pub args: Seq<Seq<char>>,
}

impl View for Command {
    type V = CommandView;

    open spec fn view(&self) -> CommandView {
        CommandView { program: self.program@, args: texts(self.args@) }
    }
}

/// What a request leads to.
#[derive(Debug, PartialEq, Eq)]
pub enum Dispatch {
    /// The response is known; nothing is started.
    Reply(ExecResponse),
    /// The command is to be started.
    Spawn(Command),
}

/// The mathematical model of [`Dispatch`].
pub enum DispatchView {
    Reply(Seq<char>),
    Spawn(CommandView),
}

impl View for Dispatch {
    type V = DispatchView;

    open spec fn view(&self) -> DispatchView {
        match *self {
            Dispatch::Reply(response) => DispatchView::Reply(response@),
            Dispatch::Spawn(command) => DispatchView::Spawn(command@),
        }
    }
}

/// What a request with the tokens `cmd` leads to: the sentinel if there is no
/// token, else the command made of the first token and the rest.
pub open spec fn dispatch_of(cmd: Seq<Seq<char>>) -> DispatchView {
    if cmd.len() == 0 {
        DispatchView::Reply(SENTINEL@)
    } else {
        DispatchView::Spawn(CommandView { program: cmd[0], args: cmd.skip(1) })
    }
}

/// What became of a command.
#[derive(Clone, Debug, PartialEq, Eq)]
pub enum SpawnOutcome {
    /// The command ran; `stdout` is all that it wrote to its standard
    /// output.
    Captured { stdout: Vec<u8> },
    /// The command could not be started. `errno` is the error number, where
    /// the system gave one; `reason` describes the error.
    NotStarted { errno: Option<i32>, reason: String },
}

/// The mathematical model of [`SpawnOutcome`].
pub enum SpawnOutcomeView {
    Captured { stdout: Seq<u8> },
    NotStarted { errno: Option<i32>, reason: Seq<char> },
}

impl View for SpawnOutcome {
    type V = SpawnOutcomeView;

    open spec fn view(&self) -> SpawnOutcomeView {
        match *self {
            SpawnOutcome::Captured { stdout } => SpawnOutcomeView::Captured { stdout: stdout@ },
            SpawnOutcome::NotStarted { errno, reason } => SpawnOutcomeView::NotStarted {
                errno,
                reason: reason@,
            },
        }
    }
}

/// The text that `bytes` are read as: the text they encode where they are
/// UTF-8, and else that text with a replacement character for each part
/// that is not.
pub uninterp spec fn utf8_lossy(bytes: Seq<u8>) -> Seq<char>;

/// Reads `bytes` as text with `String::from_utf8_lossy`.
///
/// Trusted: the result is the one that [`utf8_lossy`] names, and bytes that
/// are UTF-8 give the text that they encode.
#[verifier::external_body]
fn decode_lossy(bytes: &Vec<u8>) -> (text: String)
    ensures
        text@ == utf8_lossy(bytes@),
        valid_utf8(bytes@) ==> text@ == decode_utf8(bytes@),
{
    String::from_utf8_lossy(bytes).into_owned()
}

/// `text`, or the sentinel in place of an empty one.
pub open spec fn or_sentinel(text: Seq<char>) -> Seq<char> {
    if text.len() == 0 {
        SENTINEL@
    } else {
        text
    }
}

/// The report of a command that could not be started.
pub open spec fn failure_report(reason: Seq<char>) -> Seq<char> {
    FAILURE_PREFIX@ + reason
}

/// The text of the response to a command with the given outcome.
pub open spec fn response_of(outcome: SpawnOutcomeView) -> Seq<char> {
    match outcome {
        SpawnOutcomeView::Captured { stdout } => or_sentinel(utf8_lossy(stdout)),
        SpawnOutcomeView::NotStarted { reason, .. } => failure_report(reason),
    }
}

/// The error that a command which could not be started is recorded as: the
/// program, and the error number or, without one, the description.
pub open spec fn failure_of(
    command: CommandView,
    outcome: SpawnOutcomeView,
) -> Option<InitErrorView> {
    match outcome {
        SpawnOutcomeView::Captured { .. } => None,
        SpawnOutcomeView::NotStarted { errno, reason } => Some(
            InitErrorView {
                kind: OpKind::RpcExecution,
                subject: command.program,
                origin: None,
                cause: match errno {
                    Some(n) => CauseView::Errno(n),
                    None => CauseView::Other(reason),
                },
            },
        ),
    }
}

/// The fixed texts are not empty.
pub proof fn lemma_fixed_texts()
    ensures
        SENTINEL@.len() > 0,
        FAILURE_PREFIX@.len() > 0,
{
    reveal_strlit("No command provided");
    reveal_strlit("Failed to execute command: ");
}

/// No response is empty, whatever became of the command.
pub proof fn lemma_response_never_empty(outcome: SpawnOutcomeView)
    ensures
        response_of(outcome).len() > 0,
{
    lemma_fixed_texts();
}

impl ExecResponse {
    #[verifier::type_invariant]
    spec fn never_empty(self) -> bool {
        self.output@.len() > 0
    }

    /// The text of the response.
    pub fn output(&self) -> (text: &str)
        ensures
            text@ == self@,
            text@.len() > 0,
    {
        proof {
            use_type_invariant(self);
        }
        self.output.as_str()
    }

    /// The text of the response, without the response around it.
    pub fn into_output(self) -> (text: String)
        ensures
            text@ == self@,
            text@.len() > 0,
    {
        proof {
            use_type_invariant(&self);
        }
        self.output
    }

    /// The response to a request that names no command.
    pub fn no_command() -> (r: ExecResponse)
        ensures
            r@ == SENTINEL@,
            r@.len() > 0,
    {
        proof {
            lemma_fixed_texts();
        }
        ExecResponse { output: String::from_str(SENTINEL) }
    }

    /// The response that carries what a command wrote: `text` itself, or
    /// the sentinel if the command wrote nothing.
    pub fn from_text(text: String) -> (r: ExecResponse)
        ensures
            r@ == or_sentinel(text@),
            r@.len() > 0,
    {
        proof {
            lemma_fixed_texts();
        }
        if text.as_str().is_empty() {
            ExecResponse::no_command()
        } else {
            ExecResponse { output: text }
        }
    }

    /// The response that reports a command that could not be started.
    pub fn from_failure(reason: &str) -> (r: ExecResponse)
        ensures
            r@ == failure_report(reason@),
            r@.len() > 0,
    {
        proof {
            lemma_fixed_texts();
        }
        ExecResponse { output: String::from_str(FAILURE_PREFIX).concat(reason) }
    }
}

/// The end of a command: the response to send, and the error to record if
/// the command could not be started.
#[derive(Debug, PartialEq, Eq)]
pub struct Conclusion {
    pub response: ExecResponse,
    pub failure: Option<InitError>,
}

impl ExecRequest {
    /// Decides what the request leads to.
    ///
    /// A request without tokens is answered at once with the sentinel, and
    /// nothing is started. Any other request gives the command to
    /// start: the first token as the program, the others, in order, as its
    /// arguments.
    pub fn dispatch(self) -> (d: Dispatch)
        ensures
            d@ == dispatch_of(self@),
    {
        let mut cmd = self.cmd;
        if cmd.len() == 0 {
            Dispatch::Reply(ExecResponse::no_command())
        } else {
            let program = cmd.remove(0);
            assert(texts(cmd@) =~= self@.skip(1));
            Dispatch::Spawn(Command { program, args: cmd })
        }
    }
}

impl Command {
    /// Turns what became of the command into the response.
    ///
    /// The response to a command that ran carries its standard output read
    /// as text, or the sentinel if there was no output. The response to a
    /// command that could not be started carries the report of that, and the
    /// failure is handed back as an error as well.
    pub fn conclude(&self, outcome: SpawnOutcome) -> (c: Conclusion)
        ensures
            c.response@ == response_of(outcome@),
            c.response@.len() > 0,
            opt_error(c.failure) == failure_of(self@, outcome@),
    {
        match outcome {
            SpawnOutcome::Captured { stdout } => Conclusion {
                response: ExecResponse::from_text(decode_lossy(&stdout)),
                failure: None,
            },
            SpawnOutcome::NotStarted { errno, reason } => {
                let response = ExecResponse::from_failure(reason.as_str());
                let cause = match errno {
                    Some(n) => Cause::Errno(n),
                    None => Cause::Other(reason),
                };
                Conclusion {
                    response,
                    failure: Some(
                        InitError::about(OpKind::RpcExecution, self.program.as_str(), cause),
                    ),
                }
            },
        }
    }
}

} // verus!
