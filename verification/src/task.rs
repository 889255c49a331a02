//! A call of runc from its start to its outcome, as questions to the host.

use crate::command;
use crate::command::{Answer, AnswerView, CommandEnd, Wanted};
use crate::error::{Error, ErrorView, IoError};
use crate::invocation;
use crate::invocation::{Invocation, InvocationView};
use crate::path;
use crate::path::HostPath;
use crate::text;
use serde_json::Error as JsonFault;
use vstd::prelude::*;

verus! {

/// How far a call of runc has come. A call that hands runc a specification goes
/// through a temporary file.
#[derive(Debug)]
pub enum Stage {
    /// The specification is to be written as JSON
    Encode { file: String },
    /// The file for this text is to be created
    Create { file: String, text: String },
    /// The text is to be written to the file
    Write { file: String, text: String },
    /// The file is to be flushed
    Flush { file: String },
    /// The command line is to be completed, and runc to be run
    Launch { temporary: Option<String> },
    /// The file is to be removed
    Remove { file: String, outcome: Result<Answer, Error> },
    /// There is nothing left to do
    Finished { outcome: Result<Answer, Error> },
}

#[verifier::ext_equal]
pub enum StageView {
    Encode { file: Seq<char> },
    Create { file: Seq<char>, text: Seq<char> },
    Write { file: Seq<char>, text: Seq<char> },
    Flush { file: Seq<char> },
    Launch { temporary: Option<Seq<char>> },
    Remove { file: Seq<char>, outcome: Result<AnswerView, ErrorView> },
    Finished { outcome: Result<AnswerView, ErrorView> },
}

impl View for Stage {
    type V = StageView;

    open spec fn view(&self) -> StageView {
        match *self {
            Stage::Encode { file } => StageView::Encode { file: file@ },
            Stage::Create { file, text } => StageView::Create { file: file@, text: text@ },
            Stage::Write { file, text } => StageView::Write { file: file@, text: text@ },
            Stage::Flush { file } => StageView::Flush { file: file@ },
            Stage::Launch { temporary } => StageView::Launch { temporary: text::text_view(temporary) },
            Stage::Remove { file, outcome } => StageView::Remove {
                file: file@,
                outcome: command::outcome_view(outcome),
            },
            Stage::Finished { outcome } => StageView::Finished {
                outcome: command::outcome_view(outcome),
            },
        }
    }
}

/// A call of runc.
#[derive(Debug)]
pub struct Task {
    pub invocation: Invocation,
    /// What the call is to give back
    pub wanted: Wanted,
    pub stage: Stage,
}

#[verifier::ext_equal]
pub struct TaskView {
    pub invocation: InvocationView,
    pub wanted: Wanted,
    pub stage: StageView,
}

impl View for Task {
    type V = TaskView;

    open spec fn view(&self) -> TaskView {
        TaskView { invocation: self.invocation@, wanted: self.wanted, stage: self.stage@ }
    }
}

/// What the host is asked to do.
#[derive(Debug)]
pub enum Action {
    /// Write the specification as JSON
    Encode,
    /// Create this file
    Create(String),
    /// Write this text to the file
    Write(String),
    /// Flush the file
    Flush,
    /// Find the canonical form of this path
    Resolve(HostPath),
    /// Run the binary with these arguments
    Run(Vec<String>),
    /// Remove this file
    Remove(String),
    /// Nothing: the outcome is there
    Finish,
}

#[verifier::ext_equal]
pub enum ActionView {
    Encode,
    Create(Seq<char>),
    Write(Seq<char>),
    Flush,
    Resolve(Seq<u8>),
    Run(Seq<Seq<char>>),
    Remove(Seq<char>),
    Finish,
}

impl View for Action {
    type V = ActionView;

    open spec fn view(&self) -> ActionView {
        match *self {
            Action::Encode => ActionView::Encode,
            Action::Create(file) => ActionView::Create(file@),
            Action::Write(text) => ActionView::Write(text@),
            Action::Flush => ActionView::Flush,
            Action::Resolve(path) => ActionView::Resolve(path@),
            Action::Run(words) => ActionView::Run(text::texts(words@)),
            Action::Remove(file) => ActionView::Remove(file@),
            Action::Finish => ActionView::Finish,
        }
    }
}

/// What the host has to say of the action it was asked for.
#[derive(Debug)]
pub enum HostReply {
    Encoded(Result<String, JsonFault>),
    Created(Result<(), IoError>),
    Written(Result<(), IoError>),
    Flushed(Result<(), IoError>),
    Resolved(Result<HostPath, IoError>),
    Ended(CommandEnd),
    Removed(Result<(), IoError>),
}

pub open spec fn finished(outcome: Result<AnswerView, ErrorView>) -> StageView {
    StageView::Finished { outcome }
}

/// The stage behind a step that the host took, or the end where it failed.
pub open spec fn after(done: Result<(), IoError>, stage: StageView) -> StageView {
    match done {
        Ok(_) => stage,
        Err(e) => finished(Err(ErrorView::IoError(e@))),
    }
}

/// The stage when runc has come to an end, or could not be run.
pub open spec fn ended(
    temporary: Option<Seq<char>>,
    outcome: Result<AnswerView, ErrorView>,
) -> StageView {
    match temporary {
        Some(file) => StageView::Remove { file, outcome },
        None => finished(outcome),
    }
}

impl TaskView {
    /// What the host is to do.
    pub open spec fn action(self) -> ActionView {
        match self.stage {
            StageView::Encode { .. } => ActionView::Encode,
            StageView::Create { file, .. } => ActionView::Create(file),
            StageView::Write { text, .. } => ActionView::Write(text),
            StageView::Flush { .. } => ActionView::Flush,
            StageView::Launch { .. } => match self.invocation.pending() {
                Some(path) => ActionView::Resolve(path),
                None => ActionView::Run(self.invocation.argv()->0),
            },
            StageView::Remove { file, .. } => ActionView::Remove(file),
            StageView::Finished { .. } => ActionView::Finish,
        }
    }

    /// The task when the host has replied. A reply that does not answer the
    /// action changes nothing.
    pub open spec fn next(self, reply: HostReply) -> TaskView {
        match (self.stage, reply) {
            (StageView::Encode { file }, HostReply::Encoded(Ok(text))) => TaskView {
                stage: StageView::Create { file, text: text@ },
                ..self
            },
            (StageView::Encode { .. }, HostReply::Encoded(Err(e))) => TaskView {
                stage: finished(Err(ErrorView::JsonError(e))),
                ..self
            },
            (StageView::Create { file, text }, HostReply::Created(done)) => TaskView {
                stage: after(done, StageView::Write { file, text }),
                ..self
            },
            (StageView::Write { file, .. }, HostReply::Written(done)) => TaskView {
                stage: after(done, StageView::Flush { file }),
                ..self
            },
            (StageView::Flush { file }, HostReply::Flushed(done)) => TaskView {
                stage: after(done, StageView::Launch { temporary: Some(file) }),
                ..self
            },
            (StageView::Launch { temporary }, HostReply::Resolved(found)) => if self.invocation.pending()
                is None {
                self
            } else {
                match found {
                    Ok(path) => TaskView { invocation: self.invocation.answered(path@), ..self },
                    // A command that cannot be written leaves its file behind
                    Err(e) => if invocation::open_path(self.invocation.args) is Some {
                        TaskView { stage: finished(Err(ErrorView::IoError(e@))), ..self }
                    } else {
                        TaskView { stage: ended(temporary, Err(ErrorView::IoError(e@))), ..self }
                    },
                }
            },
            (StageView::Launch { temporary }, HostReply::Ended(end)) => if self.invocation.pending()
                is None {
                TaskView {
                    stage: ended(
                        temporary,
                        command::given_back(end, self.wanted, self.invocation.combined_output),
                    ),
                    ..self
                }
            } else {
                self
            },
            (StageView::Remove { outcome, .. }, HostReply::Removed(done)) => TaskView {
                stage: after(done, finished(outcome)),
                ..self
            },
            _ => self,
        }
    }

    /// The task when a number of replies have come.
    pub open spec fn after(self, replies: Seq<HostReply>) -> TaskView
        decreases replies.len(),
    {
        if replies.len() == 0 {
            self
        } else {
            self.after(replies.drop_last()).next(replies.last())
        }
    }

    /// The task when the host, which finds `canonical(p)` for the path `p`, has
    /// answered for `n` paths.
    pub open spec fn resolved(self, canonical: spec_fn(Seq<u8>) -> HostPath, n: nat) -> TaskView
        decreases n,
    {
        if n == 0 {
            self
        } else {
            let before = self.resolved(canonical, (n - 1) as nat);
            before.next(HostReply::Resolved(Ok(canonical(before.invocation.pending()->0))))
        }
    }
}

fn finish(outcome: Result<Answer, Error>) -> (r: Stage)
    ensures
        r@ == finished(command::outcome_view(outcome)),
{
    Stage::Finished { outcome }
}

fn proceed(done: Result<(), IoError>, stage: Stage) -> (r: Stage)
    ensures
        r@ == after(done, stage@),
{
    match done {
        Ok(_) => stage,
        Err(e) => finish(Err(Error::IoError(e))),
    }
}

fn close(temporary: Option<String>, outcome: Result<Answer, Error>) -> (r: Stage)
    ensures
        r@ == ended(text::text_view(temporary), command::outcome_view(outcome)),
{
    match temporary {
        Some(file) => Stage::Remove { file, outcome },
        None => finish(outcome),
    }
}

impl Task {
    /// A call that needs no file.
    pub fn plain(invocation: Invocation, wanted: Wanted) -> (r: Self)
        ensures
            r@ == (TaskView {
                invocation: invocation@,
                wanted,
                stage: StageView::Launch { temporary: None },
            }),
    {
        Task { invocation, wanted, stage: Stage::Launch { temporary: None } }
    }

    /// A call that hands runc a specification in `file`.
    pub fn with_specification(invocation: Invocation, file: String) -> (r: Self)
        ensures
            r@ == (TaskView {
                invocation: invocation@,
                wanted: Wanted::Output,
                stage: StageView::Encode { file: file@ },
            }),
    {
        Task { invocation, wanted: Wanted::Output, stage: Stage::Encode { file } }
    }

    /// What the host is to do next.
    pub fn action(&self) -> (r: Action)
        ensures
            r@ == self@.action(),
    {
        match &self.stage {
            Stage::Encode { .. } => Action::Encode,
            Stage::Create { file, .. } => Action::Create(file.clone()),
            Stage::Write { text, .. } => Action::Write(text.clone()),
            Stage::Flush { .. } => Action::Flush,
            Stage::Launch { .. } => match self.invocation.pending() {
                Some(path) => Action::Resolve(path),
                None => match self.invocation.argv() {
                    Some(words) => Action::Run(words),
                    None => {
                        assert(false);
                        Action::Finish
                    },
                },
            },
            Stage::Remove { file, .. } => Action::Remove(file.clone()),
            Stage::Finished { .. } => Action::Finish,
        }
    }

    /// Takes the host's reply to the action.
    pub fn step(self, reply: HostReply) -> (r: Self)
        ensures
            r@ == self@.next(reply),
    {
        let Task { invocation, wanted, stage } = self;
        match (stage, reply) {
            (Stage::Encode { file }, HostReply::Encoded(encoded)) => match encoded {
                Ok(text) => Task { invocation, wanted, stage: Stage::Create { file, text } },
                Err(e) => Task { invocation, wanted, stage: finish(Err(Error::from(e))) },
            },
            (Stage::Create { file, text }, HostReply::Created(done)) => Task {
                invocation,
                wanted,
                stage: proceed(done, Stage::Write { file, text }),
            },
            (Stage::Write { file, .. }, HostReply::Written(done)) => Task {
                invocation,
                wanted,
                stage: proceed(done, Stage::Flush { file }),
            },
            (Stage::Flush { file }, HostReply::Flushed(done)) => Task {
                invocation,
                wanted,
                stage: proceed(done, Stage::Launch { temporary: Some(file) }),
            },
            (Stage::Launch { temporary }, HostReply::Resolved(found)) => {
                let mut invocation = invocation;
                if invocation.pending().is_none() {
                    return Task { invocation, wanted, stage: Stage::Launch { temporary } };
                }
                let in_command = invocation.pending_in_command();
                match invocation.answer(found) {
                    Ok(_) => Task { invocation, wanted, stage: Stage::Launch { temporary } },
                    Err(e) => if in_command {
                        Task { invocation, wanted, stage: finish(Err(e)) }
                    } else {
                        Task { invocation, wanted, stage: close(temporary, Err(e)) }
                    },
                }
            },
            (Stage::Launch { temporary }, HostReply::Ended(end)) => {
                if invocation.pending().is_some() {
                    return Task { invocation, wanted, stage: Stage::Launch { temporary } };
                }
                let outcome = command::give_back(end, wanted, invocation.combined_output);
                Task { invocation, wanted, stage: close(temporary, outcome) }
            },
            (Stage::Remove { outcome, .. }, HostReply::Removed(done)) => Task {
                invocation,
                wanted,
                stage: proceed(done, finish(outcome)),
            },
            (stage, _) => Task { invocation, wanted, stage },
        }
    }

    /// The outcome, once the call is finished.
    pub fn outcome(self) -> (r: Option<Result<Answer, Error>>)
        ensures
            match r {
                Some(outcome) => self@.stage == finished(command::outcome_view(outcome)),
                None => !(self@.stage is Finished),
            },
    {
        match self.stage {
            Stage::Finished { outcome } => Some(outcome),
            _ => None,
        }
    }
}

} // verus!
