//! Programs that are run to install an update, and what can go wrong with them.

use crate::error;
use crate::text;
use vstd::prelude::*;
use vstd::string::*;
use vstd::utf8::*;

verus! {

/// A program and its arguments.
#[derive(Debug)]
pub struct CommandLine {
    pub program: Vec<u8>,
    pub args: Vec<Vec<u8>>,
    /// Whether the program ends when nobody waits for it any more.
    pub kill_on_drop: bool,
}

/// The contents of a [`CommandLine`].
#[verifier::ext_equal]
pub struct CommandView {
    pub program: Seq<u8>,
    pub args: Seq<Seq<u8>>,
    pub kill_on_drop: bool,
}

impl View for CommandLine {
    type V = CommandView;

    open spec fn view(&self) -> CommandView {
        CommandView {
            program: self.program@,
            args: self.args@.map_values(|arg: Vec<u8>| arg@),
            kill_on_drop: self.kill_on_drop,
        }
    }
}

impl CommandLine {
    /// A program without arguments.
    pub fn new(program: &[u8], kill_on_drop: bool) -> (command: CommandLine)
        ensures
            command@ == (CommandView { program: program@, args: seq![], kill_on_drop }),
    {
        CommandLine {
            program: vstd::slice::slice_to_vec(program),
            args: Vec::new(),
            kill_on_drop,
        }
    }

    /// Adds an argument.
    pub fn arg(&mut self, arg: &[u8])
        ensures
            final(self)@ == (CommandView { args: old(self)@.args.push(arg@), ..old(self)@ }),
    {
        self.args.push(vstd::slice::slice_to_vec(arg));
    }

    /// Adds an argument that is text.
    pub fn text_arg(&mut self, arg: &str)
        ensures
            final(self)@ == (CommandView {
                args: old(self)@.args.push(encode_utf8(arg@)),
                ..old(self)@
            }),
    {
        self.arg(arg.as_bytes());
    }
}

/// How a program ended.
#[derive(Debug)]
pub enum CommandResult {
    /// It could not be run. The command is shown as it was to be run.
    NotRun { command: String, cause: String },
    /// It ended by itself.
    Exited { success: bool, stdout: Vec<u8>, stderr: Vec<u8> },
}

/// Why a part of an installation failed.
#[derive(Debug)]
pub struct InstallError {
    pub message: String,
    /// What led to the failure, where it is known.
    pub cause: Option<String>,
}

/// The contents of an [`InstallError`].
#[verifier::ext_equal]
pub struct InstallErrorView {
    pub message: Seq<char>,
    pub cause: Option<Seq<char>>,
}

impl View for InstallError {
    type V = InstallErrorView;

    open spec fn view(&self) -> InstallErrorView {
        InstallErrorView { message: self.message@, cause: text::optional_text(self.cause) }
    }
}

impl InstallErrorView {
    /// An error of which no more is known than `message`.
    pub open spec fn plain(message: Seq<char>) -> InstallErrorView {
        InstallErrorView { message, cause: None }
    }

    /// An error that came of `cause`.
    pub open spec fn caused(message: Seq<char>, cause: Seq<char>) -> InstallErrorView {
        InstallErrorView { message, cause: Some(cause) }
    }

    /// The message together with its cause.
    pub open spec fn full(self) -> Seq<char> {
        match self.cause {
            Some(cause) => self.message + ": "@ + cause,
            None => self.message,
        }
    }
}

/// The outcome of a part of an installation.
pub open spec fn install_result(result: Result<(), InstallError>) -> Result<(), InstallErrorView> {
    match result {
        Ok(_) => Ok(()),
        Err(error) => Err(error@),
    }
}

/// The outcome of a step that either works or says why it does not.
pub open spec fn step_result(result: Result<(), String>, message: Seq<char>) -> Result<
    (),
    InstallErrorView,
> {
    match result {
        Ok(_) => Ok(()),
        Err(cause) => Err(InstallErrorView::caused(message, cause@)),
    }
}

impl InstallError {
    /// An error of which no more is known than `message`.
    pub fn plain(message: String) -> (error: InstallError)
        ensures
            error@ == InstallErrorView::plain(message@),
    {
        InstallError { message, cause: None }
    }

    /// An error that came of `cause`.
    pub fn caused(message: &str, cause: String) -> (error: InstallError)
        ensures
            error@ == InstallErrorView::caused(message@, cause@),
    {
        InstallError { message: message.to_string(), cause: Some(cause) }
    }

    /// The message together with its cause.
    pub fn full(&self) -> (text: String)
        ensures
            text@ == self@.full(),
    {
        match &self.cause {
            Some(cause) => text::surrounded(self.message.as_str(), ": ", cause.as_str()),
            None => self.message.clone(),
        }
    }
}

/// The error of a step that could not be done.
pub(crate) fn checked_step(result: Result<(), String>, message: &str) -> (checked: Result<
    (),
    InstallError,
>)
    ensures
        install_result(checked) == step_result(result, message@),
{
    match result {
        Ok(_) => Ok(()),
        Err(cause) => Err(InstallError::caused(message, cause)),
    }
}

/// `head`, then the paths `first` and `second` with " to " in between, then what a program said,
/// in quotes.
pub open spec fn copy_message(
    head: Seq<char>,
    first: Seq<char>,
    second: Seq<char>,
    stderr: Seq<u8>,
) -> Seq<char> {
    head + first + " to "@ + second + ": "@ + error::debug_quoted(error::utf8_lossy(stderr))
}

/// The message about a program that could not bring something from one place to another.
pub(crate) fn copy_message_text(head: &str, first: &str, second: &str, stderr: &[u8]) -> (message:
    String)
    ensures
        message@ == copy_message(head@, first@, second@, stderr@),
{
    let said = error::quoted(error::lossy(stderr).as_str());
    let mut message = text::appended(head, first);
    message.append(" to ");
    message.append(second);
    message.append(": ");
    message.append(said.as_str());
    message
}

/// An error in full is what it says, followed by its cause where that is known.
pub proof fn law_full_error_has_its_cause(message: Seq<char>, cause: Seq<char>)
    ensures
        InstallErrorView::plain(message).full() == message,
        message.is_prefix_of(InstallErrorView::caused(message, cause).full()),
        cause.is_suffix_of(InstallErrorView::caused(message, cause).full()),
        InstallErrorView::caused(message, cause).full().len() == message.len() + 2 + cause.len(),
{
    reveal_strlit(": ");
    let full = message + ": "@ + cause;
    assert(full =~= message + (": "@ + cause));
    text::lemma_starts_with(message, ": "@ + cause);
    text::lemma_ends_with(message + ": "@, cause);
}

/// The message about a failed copy has both places and what the program said.
pub proof fn law_copy_message_has_both_places(
    head: Seq<char>,
    first: Seq<char>,
    second: Seq<char>,
    stderr: Seq<u8>,
)
    ensures
        (head + first + " to "@ + second).is_prefix_of(copy_message(head, first, second, stderr)),
        error::debug_quoted(error::utf8_lossy(stderr)).is_suffix_of(
            copy_message(head, first, second, stderr),
        ),
{
    let said = error::debug_quoted(error::utf8_lossy(stderr));
    let places = head + first + " to "@ + second;
    assert(copy_message(head, first, second, stderr) =~= places + (": "@ + said));
    text::lemma_starts_with(places, ": "@ + said);
    text::lemma_ends_with(places + ": "@, said);
}

/// A step that worked gives no error; one that did not gives the message with its cause.
pub proof fn law_step_fails_with_its_cause(result: Result<(), String>, message: Seq<char>)
    ensures
        step_result(result, message) is Ok <==> result is Ok,
        result matches Err(cause) ==> step_result(result, message)->Err_0.message == message
            && step_result(result, message)->Err_0.cause == Some(cause@),
{
}

/// Commands and errors count as they are.
pub proof fn law_commands_count_as_they_are(
    command: CommandLine,
    error: InstallError,
    index: int,
)
    requires
        0 <= index < command.args@.len(),
    ensures
        command@.program == command.program@,
        command@.args.len() == command.args@.len(),
        command@.args[index] == command.args@[index]@,
        command@.kill_on_drop == command.kill_on_drop,
        error@.message == error.message@,
        error@.cause == text::optional_text(error.cause),
        install_result(Ok(())) is Ok,
        install_result(Err(error)) == Err::<(), InstallErrorView>(error@),
{
}

} // verus!
