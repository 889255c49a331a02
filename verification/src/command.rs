//! How a run of runc ended, and what that means.

use crate::error;
use crate::error::{Error, ErrorView, IoError, IoErrorKind, TimeoutError};
use std::string::FromUtf8Error;
use vstd::prelude::*;
use vstd::utf8;

verus! {

/// How a run of runc ended.
#[derive(Debug)]
pub enum CommandEnd {
    /// The binary could not be started
    NotSpawned(IoError),
    /// Waiting for its end failed, or took too long
    Failed(TimeoutError),
    /// It came to an end: of its own, with this status, or by a signal
    Exited { status: Option<i32>, stdout: Vec<u8>, stderr: Vec<u8> },
}

/// What a call asks of the end of a run.
#[derive(Debug, Clone, Copy, PartialEq, Eq, Structural)]
pub enum Wanted {
    /// The output, where the run succeeded
    Output,
    /// The exit status, whichever it is
    Status,
}

/// What a call gives back.
#[derive(Debug, Clone, PartialEq, Eq)]
pub enum Answer {
    /// The output of runc
    Output(String),
    /// The exit status, or nothing where a signal was the end
    Status(Option<i32>),
}

#[verifier::ext_equal]
pub enum AnswerView {
    Output(Seq<char>),
    Status(Option<i32>),
}

impl View for Answer {
    type V = AnswerView;

    open spec fn view(&self) -> AnswerView {
        match *self {
            Answer::Output(text) => AnswerView::Output(text@),
            Answer::Status(status) => AnswerView::Status(status),
        }
    }
}

/// `String::from_utf8` gives the text that the bytes encode, and fails on just
/// those bytes that are no UTF-8.
pub assume_specification[ String::from_utf8 ](vec: Vec<u8>) -> (r: Result<String, FromUtf8Error>)
    ensures
        match r {
            Ok(s) => utf8::valid_utf8(vec@) && s@ == utf8::decode_utf8(vec@),
            Err(_) => !utf8::valid_utf8(vec@),
        },
;

/// What a result says.
pub open spec fn text_outcome(r: Result<String, Error>) -> Result<Seq<char>, ErrorView> {
    match r {
        Ok(s) => Ok(s@),
        Err(e) => Err(e@),
    }
}

/// What the result of a call says.
pub open spec fn outcome_view(r: Result<Answer, Error>) -> Result<AnswerView, ErrorView> {
    match r {
        Ok(answer) => Ok(answer@),
        Err(e) => Err(e@),
    }
}

/// The text of an answer.
pub open spec fn decoded(bytes: Seq<u8>) -> Result<Seq<char>, ErrorView> {
    if utf8::valid_utf8(bytes) {
        Ok(utf8::decode_utf8(bytes))
    } else {
        Err(ErrorView::UnicodeError)
    }
}

/// The error for work under a time limit that failed.
pub open spec fn timeout_view(e: TimeoutError) -> ErrorView {
    match e {
        TimeoutError::Inner(inner) => inner@,
        TimeoutError::Elapsed => ErrorView::CommandTimeout,
        TimeoutError::Timer => ErrorView::CommandTimeout,
    }
}

/// Whether a status is that of a success.
pub open spec fn succeeded(status: Option<i32>) -> bool {
    status == Some(0i32)
}

/// The answer of runc, or why there is none.
pub open spec fn answer(end: CommandEnd, combined_output: bool) -> Result<Seq<char>, ErrorView> {
    match end {
        CommandEnd::NotSpawned(e) => Err(ErrorView::IoError(e@)),
        CommandEnd::Failed(e) => Err(timeout_view(e)),
        CommandEnd::Exited { status, stdout, stderr } => if succeeded(status) {
            decoded(
                if combined_output {
                    stdout@ + stderr@
                } else {
                    stdout@
                },
            )
        } else if utf8::valid_utf8(stdout@) && utf8::valid_utf8(stderr@) {
            Err(error::failure(IoErrorKind::Other, "runc command execution failed"@))
        } else {
            Err(ErrorView::UnicodeError)
        },
    }
}

/// The exit status of a run, or why there is none.
pub open spec fn exit_status(end: CommandEnd) -> Result<Option<i32>, ErrorView> {
    match end {
        CommandEnd::NotSpawned(e) => Err(ErrorView::IoError(e@)),
        CommandEnd::Failed(e) => Err(timeout_view(e)),
        CommandEnd::Exited { status, .. } => Ok(status),
    }
}

/// What a call gives back when its run has ended.
pub open spec fn given_back(end: CommandEnd, wanted: Wanted, combined_output: bool) -> Result<
    AnswerView,
    ErrorView,
> {
    match wanted {
        Wanted::Output => match answer(end, combined_output) {
            Ok(text) => Ok(AnswerView::Output(text)),
            Err(e) => Err(e),
        },
        Wanted::Status => match exit_status(end) {
            Ok(status) => Ok(AnswerView::Status(status)),
            Err(e) => Err(e),
        },
    }
}

/// Reads bytes as text.
pub fn decode(bytes: Vec<u8>) -> (r: Result<String, Error>)
    ensures
        text_outcome(r) == decoded(bytes@),
{
    match String::from_utf8(bytes) {
        Ok(s) => Ok(s),
        Err(e) => Err(Error::from(e)),
    }
}

/// What the end of a run means: the answer of runc where it succeeded.
pub fn command_output(end: CommandEnd, combined_output: bool) -> (r: Result<String, Error>)
    ensures
        text_outcome(r) == answer(end, combined_output),
{
    match end {
        CommandEnd::NotSpawned(e) => Err(Error::IoError(e)),
        CommandEnd::Failed(e) => Err(Error::from(e)),
        CommandEnd::Exited { status, stdout, stderr } => {
            let success = match status {
                Some(code) => code == 0,
                None => false,
            };
            if success {
                if combined_output {
                    let mut combined = stdout;
                    let mut stderr = stderr;
                    combined.append(&mut stderr);
                    decode(combined)
                } else {
                    decode(stdout)
                }
            } else {
                decode(stdout)?;
                decode(stderr)?;
                Err(Error::found(IoErrorKind::Other, "runc command execution failed"))
            }
        },
    }
}

/// The exit status of a run, whichever it is, and whatever was printed.
pub fn run_status(end: CommandEnd) -> (r: Result<Option<i32>, Error>)
    ensures
        match end {
            CommandEnd::NotSpawned(e) => r == Err::<Option<i32>, Error>(Error::IoError(e)),
            CommandEnd::Failed(e) => r matches Err(f) && f@ == timeout_view(e),
            CommandEnd::Exited { status, .. } => r == Ok::<Option<i32>, Error>(status),
        },
{
    match end {
        CommandEnd::NotSpawned(e) => Err(Error::IoError(e)),
        CommandEnd::Failed(e) => Err(Error::from(e)),
        CommandEnd::Exited { status, .. } => Ok(status),
    }
}

/// What a call gives back when its run has ended.
pub fn give_back(end: CommandEnd, wanted: Wanted, combined_output: bool) -> (r: Result<
    Answer,
    Error,
>)
    ensures
        outcome_view(r) == given_back(end, wanted, combined_output),
{
    match wanted {
        Wanted::Output => match command_output(end, combined_output) {
            Ok(text) => Ok(Answer::Output(text)),
            Err(e) => Err(e),
        },
        Wanted::Status => match run_status(end) {
            Ok(status) => Ok(Answer::Status(status)),
            Err(e) => Err(e),
        },
    }
}

} // verus!
