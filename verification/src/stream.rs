//! Reading the output of runc line by line while it runs.

use crate::command;
use crate::error;
use crate::error::{Error, ErrorView, IoError, IoErrorKind};
use crate::events::Event;
use crate::path;
use crate::reply;
use serde_json::Error as JsonFault;
use vstd::prelude::*;
use vstd::utf8;

verus! {

/// What an attempt to read one byte led to.
#[derive(Debug)]
pub enum ReadEvent {
    /// There is nothing left to read
    Eof,
    /// The byte
    Byte(u8),
    /// There is nothing to read yet
    NotReady,
    /// Reading failed
    Failed(IoError),
}

/// Where a byte is to be read.
#[derive(Debug, Clone, Copy, PartialEq, Eq, Structural)]
pub enum Source {
    Stdout,
    Stderr,
}

/// Whose turn it is. When it is that of standard error, standard output had its
/// turn before.
#[derive(Debug, Clone, Copy, PartialEq, Eq, Structural)]
pub enum Turn {
    Stdout,
    Stderr { stdout_ready: bool },
}

/// What a read led to.
#[derive(Debug)]
pub enum StreamStep {
    /// A further byte is to be read
    Read,
    /// The stream is at its end
    End,
    /// A line is complete
    Line(String),
    /// There is nothing to read yet
    NotReady,
}

#[verifier::ext_equal]
pub enum StepView {
    Read,
    End,
    Line(Seq<char>),
    NotReady,
}

/// What a step says.
pub open spec fn step_view(r: Result<StreamStep, Error>) -> Result<StepView, ErrorView> {
    match r {
        Ok(StreamStep::Read) => Ok(StepView::Read),
        Ok(StreamStep::End) => Ok(StepView::End),
        Ok(StreamStep::Line(line)) => Ok(StepView::Line(line@)),
        Ok(StreamStep::NotReady) => Ok(StepView::NotReady),
        Err(e) => Err(e@),
    }
}

/// The output of runc, with the lines that are not complete yet.
#[derive(Debug)]
pub struct ConsoleStream {
    combined_output: bool,
    stdout_buf: Vec<u8>,
    stderr_buf: Vec<u8>,
    turn: Turn,
}

#[verifier::ext_equal]
pub struct StreamView {
    pub combined_output: bool,
    pub stdout_buf: Seq<u8>,
    pub stderr_buf: Seq<u8>,
    pub turn: Turn,
}

impl View for ConsoleStream {
    type V = StreamView;

    closed spec fn view(&self) -> StreamView {
        StreamView {
            combined_output: self.combined_output,
            stdout_buf: self.stdout_buf@,
            stderr_buf: self.stderr_buf@,
            turn: self.turn,
        }
    }
}

/// The bytes of a line when a read has been made.
pub open spec fn fed(buf: Seq<u8>, event: ReadEvent) -> Seq<u8> {
    match event {
        ReadEvent::Byte(b) => buf.push(b),
        _ => buf,
    }
}

/// Whether the bytes end in a newline.
pub open spec fn complete(buf: Seq<u8>) -> bool {
    buf.len() > 0 && buf.last() == 0x0a
}

/// What is left of the bytes of a line: nothing of a complete one that is text.
pub open spec fn left(buf: Seq<u8>) -> Seq<u8> {
    if complete(buf) && utf8::valid_utf8(buf) {
        Seq::empty()
    } else {
        buf
    }
}

/// The outcome of a read at the end of a turn.
pub open spec fn turned(buf: Seq<u8>, otherwise: StepView) -> Result<StepView, ErrorView> {
    if !complete(buf) {
        Ok(otherwise)
    } else if utf8::valid_utf8(buf) {
        Ok(StepView::Line(utf8::decode_utf8(buf)))
    } else {
        Err(ErrorView::UnicodeError)
    }
}

/// What to do when no line is complete.
pub open spec fn onward(ready: bool) -> StepView {
    if ready {
        StepView::Read
    } else {
        StepView::NotReady
    }
}

impl StreamView {
    /// Where the next byte is to be read.
    pub open spec fn source(self) -> Source {
        match self.turn {
            Turn::Stdout => Source::Stdout,
            Turn::Stderr { .. } => Source::Stderr,
        }
    }

    /// The bytes of the line that is not complete yet.
    pub open spec fn buf(self, source: Source) -> Seq<u8> {
        match source {
            Source::Stdout => self.stdout_buf,
            Source::Stderr => self.stderr_buf,
        }
    }

    /// The stream when the read has been made.
    pub open spec fn next(self, event: ReadEvent) -> StreamView {
        if event is Eof || event is Failed {
            StreamView { turn: Turn::Stdout, ..self }
        } else {
            match self.turn {
                Turn::Stdout => {
                    let buf = fed(self.stdout_buf, event);
                    StreamView {
                        stdout_buf: left(buf),
                        turn: if self.combined_output && !complete(buf) {
                            Turn::Stderr { stdout_ready: event is Byte }
                        } else {
                            Turn::Stdout
                        },
                        ..self
                    }
                },
                Turn::Stderr { .. } => StreamView {
                    stderr_buf: left(fed(self.stderr_buf, event)),
                    turn: Turn::Stdout,
                    ..self
                },
            }
        }
    }

    /// What the read leads to.
    pub open spec fn outcome(self, event: ReadEvent) -> Result<StepView, ErrorView> {
        match event {
            ReadEvent::Eof => Ok(StepView::End),
            ReadEvent::Failed(e) => Err(ErrorView::IoError(e@)),
            _ => match self.turn {
                Turn::Stdout => turned(
                    fed(self.stdout_buf, event),
                    onward(self.combined_output || event is Byte),
                ),
                Turn::Stderr { stdout_ready } => turned(
                    fed(self.stderr_buf, event),
                    onward(stdout_ready || event is Byte),
                ),
            },
        }
    }

    /// The stream when a number of reads have been made.
    pub open spec fn after(self, events: Seq<ReadEvent>) -> StreamView
        decreases events.len(),
    {
        if events.len() == 0 {
            self
        } else {
            self.after(events.drop_last()).next(events.last())
        }
    }

    /// The bytes that a number of reads brought from `source`.
    pub open spec fn received(self, events: Seq<ReadEvent>, source: Source) -> Seq<u8>
        decreases events.len(),
    {
        if events.len() == 0 {
            Seq::empty()
        } else {
            let before = self.received(events.drop_last(), source);
            if self.after(events.drop_last()).source() == source {
                fed(before, events.last())
            } else {
                before
            }
        }
    }

    /// The bytes of the lines from `source` that a number of reads completed.
    pub open spec fn delivered(self, events: Seq<ReadEvent>, source: Source) -> Seq<u8>
        decreases events.len(),
    {
        if events.len() == 0 {
            Seq::empty()
        } else {
            let before = self.delivered(events.drop_last(), source);
            let stream = self.after(events.drop_last());
            match stream.outcome(events.last()) {
                Ok(StepView::Line(line)) => if stream.source() == source {
                    before + utf8::encode_utf8(line)
                } else {
                    before
                },
                _ => before,
            }
        }
    }
}

/// Takes the line out of `buf` where it is complete.
fn take_line(buf: &mut Vec<u8>, ready: bool) -> (r: Result<StreamStep, Error>)
    ensures
        final(buf)@ == left(old(buf)@),
        step_view(r) == turned(old(buf)@, onward(ready)),
{
    if buf.len() > 0 && buf[buf.len() - 1] == 0x0a {
        match command::decode(path::copy_bytes(buf)) {
            Ok(line) => {
                buf.clear();
                Ok(StreamStep::Line(line))
            },
            Err(e) => Err(e),
        }
    } else if ready {
        Ok(StreamStep::Read)
    } else {
        Ok(StreamStep::NotReady)
    }
}

impl ConsoleStream {
    /// The output of a process that was started, where the host has both ends
    /// of it.
    pub fn new(stdout: bool, stderr: bool, combined_output: bool) -> (r: Result<Self, Error>)
        ensures
            if !stdout {
                r matches Err(e) && e@ == error::failure(
                    IoErrorKind::NotFound,
                    "missing stdout handle"@,
                )
            } else if !stderr {
                r matches Err(e) && e@ == error::failure(
                    IoErrorKind::NotFound,
                    "missing stderr handle"@,
                )
            } else {
                r matches Ok(stream) && stream@ == (StreamView {
                    combined_output,
                    stdout_buf: Seq::empty(),
                    stderr_buf: Seq::empty(),
                    turn: Turn::Stdout,
                })
            },
    {
        if !stdout {
            return Err(Error::found(IoErrorKind::NotFound, "missing stdout handle"));
        }
        if !stderr {
            return Err(Error::found(IoErrorKind::NotFound, "missing stderr handle"));
        }
        Ok(
            ConsoleStream {
                combined_output,
                stdout_buf: Vec::new(),
                stderr_buf: Vec::new(),
                turn: Turn::Stdout,
            },
        )
    }

    /// Where the host is to read a byte.
    pub fn source(&self) -> (r: Source)
        ensures
            r == self@.source(),
    {
        match self.turn {
            Turn::Stdout => Source::Stdout,
            Turn::Stderr { .. } => Source::Stderr,
        }
    }

    /// Takes what the read led to.
    pub fn poll(&mut self, event: ReadEvent) -> (r: Result<StreamStep, Error>)
        ensures
            final(self)@ == old(self)@.next(event),
            step_view(r) == old(self)@.outcome(event),
    {
        let turn = self.turn;
        self.turn = Turn::Stdout;
        let byte: Option<u8> = match event {
            ReadEvent::Eof => {
                return Ok(StreamStep::End);
            },
            ReadEvent::Failed(e) => {
                return Err(Error::IoError(e));
            },
            ReadEvent::Byte(b) => Some(b),
            ReadEvent::NotReady => None,
        };
        match turn {
            Turn::Stdout => {
                if let Some(b) = byte {
                    self.stdout_buf.push(b);
                }
                let r = take_line(&mut self.stdout_buf, self.combined_output || byte.is_some());
                if self.combined_output {
                    match &r {
                        Ok(StreamStep::Read) => {
                            self.turn = Turn::Stderr { stdout_ready: byte.is_some() };
                        },
                        _ => {},
                    }
                }
                r
            },
            Turn::Stderr { stdout_ready } => {
                if let Some(b) = byte {
                    self.stderr_buf.push(b);
                }
                take_line(&mut self.stderr_buf, stdout_ready || byte.is_some())
            },
        }
    }
}

/// Stream of container events
#[derive(Debug)]
pub struct EventStream {
    inner: ConsoleStream,
}

impl View for EventStream {
    type V = StreamView;

    closed spec fn view(&self) -> StreamView {
        self.inner@
    }
}

impl EventStream {
    pub fn new(inner: ConsoleStream) -> (r: Self)
        ensures
            r@ == inner@,
    {
        EventStream { inner }
    }

    /// Where the host is to read a byte.
    pub fn source(&self) -> (r: Source)
        ensures
            r == self@.source(),
    {
        self.inner.source()
    }

    /// Takes what the read led to. A line is the JSON of an event.
    pub fn poll(&mut self, event: ReadEvent) -> (r: Result<StreamStep, Error>)
        ensures
            final(self)@ == old(self)@.next(event),
            step_view(r) == old(self)@.outcome(event),
    {
        self.inner.poll(event)
    }

    /// The event that a line was read as.
    pub fn event(decoded: Result<Event, JsonFault>) -> (r: Result<Event, Error>)
        ensures
            match decoded {
                Ok(event) => r == Ok::<Event, Error>(event),
                Err(e) => r == Err::<Event, Error>(Error::JsonError(e)),
            },
    {
        reply::read(decoded)
    }
}

} // verus!
