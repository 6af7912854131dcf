//! Running the version-control tool: what the library asks of whoever runs
//! it, and how a finished process is read.

use vstd::prelude::*;
use vstd::utf8::{decode_utf8, valid_utf8};

verus! {

/// What a command wrote.
#[derive(Clone, Debug, PartialEq, Eq)]
pub struct CapturedOutput {
    pub stdout: String,
    pub stderr: String,
}

/// A [`CapturedOutput`] as plain text.
pub struct CapturedOutputView {
    pub stdout: Seq<char>,
    pub stderr: Seq<char>,
}

impl View for CapturedOutput {
    type V = CapturedOutputView;

    open spec fn view(&self) -> CapturedOutputView {
        CapturedOutputView { stdout: self.stdout@, stderr: self.stderr@ }
    }
}

/// Why a command counts as failed.
#[derive(Clone, Debug, PartialEq, Eq)]
pub enum ExecError {
    /// The process ended with a status other than zero; the text is what it
    /// wrote to standard error.
    NonZeroExit(String),
    /// What the process wrote is not valid text.
    Decode,
}

/// An [`ExecError`] as plain text.
pub enum ExecErrorView {
    NonZeroExit(Seq<char>),
    Decode,
}

impl View for ExecError {
    type V = ExecErrorView;

    open spec fn view(&self) -> ExecErrorView {
        match self {
            ExecError::NonZeroExit(stderr) => ExecErrorView::NonZeroExit(stderr@),
            ExecError::Decode => ExecErrorView::Decode,
        }
    }
}

/// Runs a program and waits for it to end. The library makes one call for
/// each command that is due and never repeats one.
pub trait CommandExecutor {
    /// Runs `command_name` with `arguments` in `working_dir`.
    fn run(&mut self, working_dir: &str, command_name: &str, arguments: &Vec<String>) -> Result<
        CapturedOutput,
        ExecError,
    >;
}

/// How a finished process is read: undecodable output is a decoding error
/// whatever the status, then a status other than zero is a failure that
/// carries standard error, and otherwise both streams are handed back.
pub open spec fn capture_spec(success: bool, stdout: Seq<u8>, stderr: Seq<u8>) -> Result<
    CapturedOutputView,
    ExecErrorView,
> {
    if !valid_utf8(stdout) || !valid_utf8(stderr) {
        Err(ExecErrorView::Decode)
    } else if !success {
        Err(ExecErrorView::NonZeroExit(decode_utf8(stderr)))
    } else {
        Ok(CapturedOutputView { stdout: decode_utf8(stdout), stderr: decode_utf8(stderr) })
    }
}

/// The view of a result of [`capture`].
pub open spec fn capture_view(result: Result<CapturedOutput, ExecError>) -> Result<
    CapturedOutputView,
    ExecErrorView,
> {
    match result {
        Ok(output) => Ok(output@),
        Err(error) => Err(error@),
    }
}

/// Calls `String::from_utf8`.
///
/// Trusted: the bytes are accepted exactly when they are valid UTF-8, and the
/// string then holds the characters that they encode.
#[verifier::external_body]
fn text_of(bytes: Vec<u8>) -> (text: Option<String>)
    ensures
        text is Some <==> valid_utf8(bytes@),
        text matches Some(s) ==> s@ == decode_utf8(bytes@),
{
    match String::from_utf8(bytes) {
        Ok(text) => Some(text),
        Err(_) => None,
    }
}

/// Reads a finished process: `success` says whether it ended with status
/// zero, `stdout` and `stderr` are the bytes that it wrote.
pub fn capture(success: bool, stdout: Vec<u8>, stderr: Vec<u8>) -> (result: Result<
    CapturedOutput,
    ExecError,
>)
    ensures
        capture_view(result) == capture_spec(success, stdout@, stderr@),
{
    match text_of(stdout) {
        None => Err(ExecError::Decode),
        Some(stdout) => match text_of(stderr) {
            None => Err(ExecError::Decode),
            Some(stderr) => if success {
                Ok(CapturedOutput { stdout, stderr })
            } else {
                Err(ExecError::NonZeroExit(stderr))
            },
        },
    }
}

} // verus!
