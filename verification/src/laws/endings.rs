//! What holds of errors, of the ends of runs, and of calls from step to step.

use crate::command;
use crate::command::{Answer, AnswerView, CommandEnd, Wanted};
use crate::error;
use crate::error::{Error, ErrorView, IoError, IoErrorKind, IoErrorView, TimeoutError};
use crate::invocation;
use crate::task::{Action, ActionView, HostReply, Stage, StageView, TaskView};
use serde_json::Error as JsonFault;
use std::string::FromUtf8Error;
use vstd::prelude::*;
use vstd::std_specs::convert::FromSpec;
use vstd::utf8;

verus! {

/// What an error says is what it holds, under its own variant.
pub proof fn law_error_views(e: Error, io: IoError)
    ensures
        io@.kind == io.kind,
        io@.os_code == io.os_code,
        io@.message == io.message@,
        e is Unknown <==> e@ is Unknown,
        e is CommandTimeout <==> e@ is CommandTimeout,
        e is UnicodeError <==> e@ is UnicodeError,
        e is IoError <==> e@ is IoError,
        e is JsonError <==> e@ is JsonError,
        e is UnixSocketOpenError <==> e@ is UnixSocketOpenError,
        e is UnixSocketConnectError <==> e@ is UnixSocketConnectError,
        e is UnixSocketReceiveMessageError <==> e@ is UnixSocketReceiveMessageError,
        e matches Error::IoError(io) ==> e@ == ErrorView::IoError(io@),
        e matches Error::JsonError(fault) ==> e@ == ErrorView::JsonError(fault),
        e matches Error::UnixSocketOpenError(io) ==> e@ == ErrorView::UnixSocketOpenError(io@),
        e matches Error::UnixSocketConnectError(io) ==> e@ == ErrorView::UnixSocketConnectError(
            io@,
        ),
{
}

/// An error of another kind becomes the error that stands for it, with what it
/// holds. Bytes that are no text are that and no more.
pub proof fn law_conversions(io: IoError, fault: JsonFault, bytes: FromUtf8Error, t: TimeoutError)
    ensures
        <Error as FromSpec<IoError>>::from_spec(io) == Error::IoError(io),
        <Error as FromSpec<JsonFault>>::from_spec(fault) == Error::JsonError(fault),
        <Error as FromSpec<FromUtf8Error>>::from_spec(bytes) == Error::UnicodeError,
        t is Elapsed || t is Timer ==> <Error as FromSpec<TimeoutError>>::from_spec(t)
            == Error::CommandTimeout,
        t matches TimeoutError::Inner(inner) ==> <Error as FromSpec<TimeoutError>>::from_spec(t)
            == inner,
        <Error as FromSpec<TimeoutError>>::from_spec(t)@ == command::timeout_view(t),
{
}

/// A failure that the client itself found has the kind and the message that were
/// given, and no number of the operating system.
pub proof fn law_found_failure(kind: IoErrorKind, message: Seq<char>)
    ensures
        error::failure(kind, message) == ErrorView::IoError(
            IoErrorView { kind, os_code: None, message },
        ),
        error::found(kind, message) == (IoErrorView { kind, os_code: None, message }),
{
}

/// What a result says: its text or its answer, or the error.
pub proof fn law_outcome_views(text: Result<String, Error>, r: Result<Answer, Error>)
    ensures
        text is Ok <==> command::text_outcome(text) is Ok,
        text is Ok ==> command::text_outcome(text)->Ok_0 == text->Ok_0@,
        text is Err ==> command::text_outcome(text)->Err_0 == text->Err_0@,
        r is Ok <==> command::outcome_view(r) is Ok,
        r is Err ==> command::outcome_view(r)->Err_0 == r->Err_0@,
        r matches Ok(Answer::Output(s)) ==> command::outcome_view(r) == Ok::<AnswerView, ErrorView>(
            AnswerView::Output(s@),
        ),
        r matches Ok(Answer::Status(s)) ==> command::outcome_view(r) == Ok::<AnswerView, ErrorView>(
            AnswerView::Status(s),
        ),
{
}

/// Bytes are read as the text whose encoding they are, all of them, and are an
/// error just where they are no UTF-8.
pub proof fn law_decoded(bytes: Seq<u8>)
    ensures
        utf8::valid_utf8(bytes) ==> command::decoded(bytes) is Ok && utf8::encode_utf8(
            command::decoded(bytes)->Ok_0,
        ) == bytes,
        !utf8::valid_utf8(bytes) ==> command::decoded(bytes) == Err::<Seq<char>, ErrorView>(
            ErrorView::UnicodeError,
        ),
{
    if utf8::valid_utf8(bytes) {
        utf8::decode_utf8_encode_utf8(bytes);
    }
}

/// Where runc succeeds and the outputs are not combined, the answer is all of
/// standard output, byte for byte, whatever standard error holds.
pub proof fn law_plain_answer(stdout: Vec<u8>, stderr: Vec<u8>, other: Vec<u8>)
    ensures
        ({
            let said = command::answer(CommandEnd::Exited { status: Some(0), stdout, stderr }, false);
            &&& said == command::answer(
                CommandEnd::Exited { status: Some(0), stdout, stderr: other },
                false,
            )
            &&& utf8::valid_utf8(stdout@) ==> said is Ok && utf8::encode_utf8(said->Ok_0) == stdout@
            &&& !utf8::valid_utf8(stdout@) ==> said == Err::<Seq<char>, ErrorView>(
                ErrorView::UnicodeError,
            )
        }),
{
    if utf8::valid_utf8(stdout@) {
        utf8::decode_utf8_encode_utf8(stdout@);
    }
}

/// Where runc succeeds and the outputs are combined, the answer is all of
/// standard output followed by all of standard error, byte for byte. A character
/// may begin in the one and end in the other.
pub proof fn law_combined_bytes(stdout: Vec<u8>, stderr: Vec<u8>)
    ensures
        ({
            let said = command::answer(CommandEnd::Exited { status: Some(0), stdout, stderr }, true);
            &&& utf8::valid_utf8(stdout@ + stderr@) ==> said is Ok && utf8::encode_utf8(said->Ok_0)
                == stdout@ + stderr@
            &&& !utf8::valid_utf8(stdout@ + stderr@) ==> said == Err::<Seq<char>, ErrorView>(
                ErrorView::UnicodeError,
            )
        }),
{
    if utf8::valid_utf8(stdout@ + stderr@) {
        utf8::decode_utf8_encode_utf8(stdout@ + stderr@);
    }
}

/// Any status but zero, and an end by a signal, is an error: that the command
/// failed where both outputs are text, and that they are none otherwise.
pub proof fn law_answer_of_failure(
    status: Option<i32>,
    stdout: Vec<u8>,
    stderr: Vec<u8>,
    combined_output: bool,
)
    requires
        !(status matches Some(code) && code == 0),
    ensures
        command::answer(CommandEnd::Exited { status, stdout, stderr }, combined_output) == Err::<
            Seq<char>,
            ErrorView,
        >(
            if utf8::valid_utf8(stdout@) && utf8::valid_utf8(stderr@) {
                ErrorView::IoError(
                    IoErrorView {
                        kind: IoErrorKind::Other,
                        os_code: None,
                        message: "runc command execution failed"@,
                    },
                )
            } else {
                ErrorView::UnicodeError
            },
        ),
{
}

/// Where runc could not be started, or did not come to its end, there is an
/// error, for an output and for a status alike: that of the host, or that the
/// time was up.
pub proof fn law_no_end(end: CommandEnd, combined_output: bool)
    requires
        !(end is Exited),
    ensures
        ({
            let e = match end {
                CommandEnd::NotSpawned(io) => ErrorView::IoError(io@),
                CommandEnd::Failed(TimeoutError::Inner(inner)) => inner@,
                _ => ErrorView::CommandTimeout,
            };
            &&& command::answer(end, combined_output) == Err::<Seq<char>, ErrorView>(e)
            &&& command::exit_status(end) == Err::<Option<i32>, ErrorView>(e)
        }),
{
}

/// The error for work under a time limit is that of the work, where the work
/// failed, and that the time was up otherwise.
pub proof fn law_timeout_view(e: TimeoutError)
    ensures
        command::timeout_view(e) == match e {
            TimeoutError::Inner(inner) => inner@,
            _ => ErrorView::CommandTimeout,
        },
{
}

/// A call for an output gives back the answer, and a call for a status the
/// status with which runc ended, whichever it is and whatever was printed.
pub proof fn law_given_back(end: CommandEnd, combined_output: bool)
    ensures
        ({
            let output = command::given_back(end, Wanted::Output, combined_output);
            let said = command::answer(end, combined_output);
            &&& said is Ok ==> output == Ok::<AnswerView, ErrorView>(
                AnswerView::Output(said->Ok_0),
            )
            &&& said is Err ==> output == Err::<AnswerView, ErrorView>(said->Err_0)
        }),
        ({
            let status = command::given_back(end, Wanted::Status, combined_output);
            &&& end matches CommandEnd::Exited { status: s, .. } ==> status == Ok::<
                AnswerView,
                ErrorView,
            >(AnswerView::Status(s))
            &&& !(end is Exited) ==> status is Err && status->Err_0 == command::answer(
                end,
                combined_output,
            )->Err_0
        }),
        command::succeeded(Some(0)),
        forall|code: i32| code != 0 ==> !#[trigger] command::succeeded(Some(code)),
        !command::succeeded(None),
{
}

/// What an action says is what it holds, under its own variant.
pub proof fn law_action_views(a: Action)
    ensures
        a is Encode <==> a@ is Encode,
        a is Flush <==> a@ is Flush,
        a is Finish <==> a@ is Finish,
        a is Create <==> a@ is Create,
        a is Write <==> a@ is Write,
        a is Resolve <==> a@ is Resolve,
        a is Run <==> a@ is Run,
        a is Remove <==> a@ is Remove,
        a matches Action::Create(file) ==> a@ == ActionView::Create(file@),
        a matches Action::Write(text) ==> a@ == ActionView::Write(text@),
        a matches Action::Resolve(p) ==> a@ == ActionView::Resolve(p.bytes@),
        a matches Action::Remove(file) ==> a@ == ActionView::Remove(file@),
        a matches Action::Run(words) ==> a@->Run_0.len() == words@.len() && forall|i: int|
            0 <= i < words@.len() ==> #[trigger] a@->Run_0[i] == words@[i]@,
{
}

/// What a stage says is what it holds, under its own variant.
pub proof fn law_stage_views(s: Stage)
    ensures
        s matches Stage::Encode { file } ==> s@ == (StageView::Encode { file: file@ }),
        s matches Stage::Create { file, text } ==> s@ == (StageView::Create {
            file: file@,
            text: text@,
        }),
        s matches Stage::Write { file, text } ==> s@ == (StageView::Write {
            file: file@,
            text: text@,
        }),
        s matches Stage::Flush { file } ==> s@ == (StageView::Flush { file: file@ }),
        s matches Stage::Launch { temporary } ==> s@ == (StageView::Launch {
            temporary: match temporary {
                Some(file) => Some(file@),
                None => None,
            },
        }),
        s matches Stage::Remove { file, outcome } ==> s@ is Remove && s@->Remove_file == file@
            && s@->Remove_outcome == command::outcome_view(outcome),
        s matches Stage::Finished { outcome } ==> s@ == (StageView::Finished {
            outcome: command::outcome_view(outcome),
        }),
{
}

/// Each stage asks for its own action. To launch is to ask for the paths that
/// are pending, and to run the command line when there is none.
pub proof fn law_action_of_a_stage(t: TaskView)
    ensures
        match t.stage {
            StageView::Encode { .. } => t.action() == ActionView::Encode,
            StageView::Create { file, .. } => t.action() == ActionView::Create(file),
            StageView::Write { text, .. } => t.action() == ActionView::Write(text),
            StageView::Flush { .. } => t.action() == ActionView::Flush,
            StageView::Launch { .. } => match t.invocation.pending() {
                Some(p) => t.action() == ActionView::Resolve(p),
                None => t.invocation.argv() is Some && t.action() == ActionView::Run(
                    t.invocation.argv()->0,
                ),
            },
            StageView::Remove { file, .. } => t.action() == ActionView::Remove(file),
            StageView::Finished { .. } => t.action() == ActionView::Finish,
        },
{
}

/// A step towards the file of a specification that fails ends the call with the
/// error of the host. Nothing is run.
pub proof fn law_failed_preparation(t: TaskView, reply: HostReply)
    ensures
        t.stage is Encode && (reply matches HostReply::Encoded(Err(e))) ==> t.next(reply)
            == (TaskView {
            stage: StageView::Finished {
                outcome: Err(ErrorView::JsonError(reply->Encoded_0->Err_0)),
            },
            ..t
        }),
        t.stage is Create && (reply matches HostReply::Created(Err(e))) ==> t.next(reply)
            == (TaskView {
            stage: StageView::Finished {
                outcome: Err(ErrorView::IoError(reply->Created_0->Err_0@)),
            },
            ..t
        }),
        t.stage is Write && (reply matches HostReply::Written(Err(e))) ==> t.next(reply)
            == (TaskView {
            stage: StageView::Finished {
                outcome: Err(ErrorView::IoError(reply->Written_0->Err_0@)),
            },
            ..t
        }),
        t.stage is Flush && (reply matches HostReply::Flushed(Err(e))) ==> t.next(reply)
            == (TaskView {
            stage: StageView::Finished {
                outcome: Err(ErrorView::IoError(reply->Flushed_0->Err_0@)),
            },
            ..t
        }),
{
}

/// A path that the host found takes its place in the command line, and the call
/// goes on to launch.
pub proof fn law_found_path(t: TaskView, p: crate::path::HostPath)
    requires
        t.stage is Launch,
        t.invocation.pending() is Some,
    ensures
        t.next(HostReply::Resolved(Ok(p))) == (TaskView {
            invocation: t.invocation.answered(p.bytes@),
            ..t
        }),
{
}

/// When the run has ended, a call without a file is finished, and one with a
/// file goes on to remove it. Either has what the end gives back for its outcome.
pub proof fn law_end_of_run(t: TaskView, end: CommandEnd)
    requires
        t.stage is Launch,
        t.invocation.pending() is None,
    ensures
        ({
            let outcome = command::given_back(end, t.wanted, t.invocation.combined_output);
            t.next(HostReply::Ended(end)) == (TaskView {
                stage: match t.stage->Launch_temporary {
                    Some(file) => StageView::Remove { file, outcome },
                    None => StageView::Finished { outcome },
                },
                ..t
            })
        }),
{
}

/// When the file is removed, the call is finished with its outcome. Where it
/// cannot be removed, the error of the host is the outcome.
pub proof fn law_removal(t: TaskView, e: IoError)
    requires
        t.stage is Remove,
    ensures
        t.next(HostReply::Removed(Ok(()))) == (TaskView {
            stage: StageView::Finished { outcome: t.stage->Remove_outcome },
            ..t
        }),
        t.next(HostReply::Removed(Err(e))) == (TaskView {
            stage: StageView::Finished { outcome: Err(ErrorView::IoError(e@)) },
            ..t
        }),
{
}

/// What is run does not change from step to step, but for the paths that the
/// host finds.
pub proof fn law_invocation_is_kept(t: TaskView, reply: HostReply)
    ensures
        !(reply is Resolved) || !(t.stage is Launch) ==> t.next(reply).invocation == t.invocation,
        t.next(reply).invocation.program == t.invocation.program,
        t.next(reply).invocation.timeout == t.invocation.timeout,
        t.next(reply).invocation.combined_output == t.invocation.combined_output,
        t.next(reply).invocation.args.len() == t.invocation.args.len(),
        t.next(reply).invocation.globals.len() == t.invocation.globals.len(),
        t.next(reply).wanted == t.wanted,
{
    invocation::lemma_first_open(t.invocation.args, 0);
    invocation::lemma_first_open(t.invocation.globals, 0);
}

} // verus!
