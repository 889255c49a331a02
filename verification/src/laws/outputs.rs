//! What holds of the streams of output and of the receipt of a terminal.

use crate::console::{Control, PtyReply, PtyStage, PtyView};
use crate::error::{Error, ErrorView};
use crate::laws;
use crate::stream;
use crate::stream::{ReadEvent, Source, StepView, StreamStep, StreamView, Turn};
use vstd::prelude::*;
use vstd::utf8;

verus! {

/// What a step says is what it holds, under its own variant.
pub proof fn law_step_views(r: Result<StreamStep, Error>)
    ensures
        r is Err <==> stream::step_view(r) is Err,
        r is Err ==> stream::step_view(r)->Err_0 == r->Err_0@,
        r matches Ok(StreamStep::Read) ==> stream::step_view(r) == Ok::<StepView, ErrorView>(
            StepView::Read,
        ),
        r matches Ok(StreamStep::End) ==> stream::step_view(r) == Ok::<StepView, ErrorView>(
            StepView::End,
        ),
        r matches Ok(StreamStep::NotReady) ==> stream::step_view(r) == Ok::<StepView, ErrorView>(
            StepView::NotReady,
        ),
        r matches Ok(StreamStep::Line(line)) ==> stream::step_view(r) == Ok::<StepView, ErrorView>(
            StepView::Line(line@),
        ),
{
}

/// The stream is at its end just when a read reports the end of the output.
pub proof fn law_stream_ends_at_eof(s: StreamView, event: ReadEvent)
    ensures
        s.outcome(event) == Ok::<StepView, ErrorView>(StepView::End) <==> event is Eof,
{
}

/// The bytes that the output whose turn it is has for its next line, when the
/// read has been made.
pub open spec fn grown(s: StreamView, event: ReadEvent) -> Seq<u8> {
    let held = match s.turn {
        Turn::Stdout => s.stdout_buf,
        Turn::Stderr { .. } => s.stderr_buf,
    };
    match event {
        ReadEvent::Byte(b) => held.push(b),
        _ => held,
    }
}

/// Whether bytes end in a newline.
pub open spec fn ends_line(bytes: Seq<u8>) -> bool {
    bytes.len() > 0 && bytes[bytes.len() - 1] == 0x0a
}

/// A byte that does not end the line leads to a further read, however long the
/// line is, and is held behind the bytes that were there.
pub proof fn law_byte_within_a_line(s: StreamView, b: u8)
    requires
        b != 0x0a,
    ensures
        s.outcome(ReadEvent::Byte(b)) == Ok::<StepView, ErrorView>(StepView::Read),
        s.turn == Turn::Stdout ==> s.next(ReadEvent::Byte(b)).stdout_buf == s.stdout_buf.push(b)
            && s.next(ReadEvent::Byte(b)).stderr_buf == s.stderr_buf,
        s.turn != Turn::Stdout ==> s.next(ReadEvent::Byte(b)).stderr_buf == s.stderr_buf.push(b)
            && s.next(ReadEvent::Byte(b)).stdout_buf == s.stdout_buf,
{
    assert(s.stdout_buf.push(b).last() == b);
    assert(s.stderr_buf.push(b).last() == b);
}

/// The newline delivers the line: all bytes that were held, and itself. Where
/// they are no text there is an error, and they are kept.
pub proof fn law_newline_delivers(s: StreamView)
    ensures
        ({
            let event = ReadEvent::Byte(0x0a);
            let bytes = grown(s, event);
            let after = s.next(event);
            let kept = match s.turn {
                Turn::Stdout => after.stdout_buf,
                Turn::Stderr { .. } => after.stderr_buf,
            };
            &&& utf8::valid_utf8(bytes) ==> {
                &&& s.outcome(event) is Ok
                &&& s.outcome(event)->Ok_0 is Line
                &&& utf8::encode_utf8(s.outcome(event)->Ok_0->Line_0) == bytes
                &&& kept == Seq::<u8>::empty()
            }
            &&& !utf8::valid_utf8(bytes) ==> {
                &&& s.outcome(event) == Err::<StepView, ErrorView>(ErrorView::UnicodeError)
                &&& kept == bytes
            }
        }),
{
    let bytes = grown(s, ReadEvent::Byte(0x0a));
    assert(bytes.last() == 0x0a);
    if utf8::valid_utf8(bytes) {
        utf8::decode_utf8_encode_utf8(bytes);
    }
}

/// A read that fails is an error of the host, and a read at the end is the end.
/// Neither changes what is held, and standard output has the next turn.
pub proof fn law_stream_stops(s: StreamView, event: ReadEvent)
    requires
        event is Failed || event is Eof,
    ensures
        event matches ReadEvent::Failed(e) ==> s.outcome(event) == Err::<StepView, ErrorView>(
            ErrorView::IoError(e@),
        ),
        event is Eof ==> s.outcome(event) == Ok::<StepView, ErrorView>(StepView::End),
        s.next(event) == (StreamView { turn: Turn::Stdout, ..s }),
{
}

/// Where there is nothing to read yet and no line is held back, nothing that is
/// held changes. One output alone is then not ready. With both, standard error is
/// asked next, and they are not ready where neither had a byte.
pub proof fn law_nothing_to_read(s: StreamView)
    requires
        !ends_line(grown(s, ReadEvent::NotReady)),
    ensures
        s.next(ReadEvent::NotReady).stdout_buf == s.stdout_buf,
        s.next(ReadEvent::NotReady).stderr_buf == s.stderr_buf,
        s.outcome(ReadEvent::NotReady) == Ok::<StepView, ErrorView>(
            match s.turn {
                Turn::Stdout => if s.combined_output {
                    StepView::Read
                } else {
                    StepView::NotReady
                },
                Turn::Stderr { stdout_ready } => if stdout_ready {
                    StepView::Read
                } else {
                    StepView::NotReady
                },
            },
        ),
{
}

/// A line that is held back because it is no text is an error again at each read
/// that brings nothing.
pub proof fn law_line_held_back(s: StreamView)
    requires
        ends_line(grown(s, ReadEvent::NotReady)),
        !utf8::valid_utf8(grown(s, ReadEvent::NotReady)),
    ensures
        s.outcome(ReadEvent::NotReady) == Err::<StepView, ErrorView>(ErrorView::UnicodeError),
        s.next(ReadEvent::NotReady).stdout_buf == s.stdout_buf,
        s.next(ReadEvent::NotReady).stderr_buf == s.stderr_buf,
{
}

/// The outputs take turns. Standard error has its turn just where the outputs
/// are combined and standard output had its own without a line or an end, and it
/// is then known whether that brought a byte. Only the output whose turn it is
/// changes, and whether the outputs are combined stays.
pub proof fn law_turns(s: StreamView, event: ReadEvent)
    ensures
        s.next(event).combined_output == s.combined_output,
        s.turn == Turn::Stdout ==> s.next(event).stderr_buf == s.stderr_buf,
        s.turn != Turn::Stdout ==> s.next(event).stdout_buf == s.stdout_buf,
        s.next(event).turn == if s.turn == Turn::Stdout && s.combined_output && (event is Byte
            || event is NotReady) && !ends_line(grown(s, event)) {
            Turn::Stderr { stdout_ready: event is Byte }
        } else {
            Turn::Stdout
        },
        s.source() == Source::Stdout <==> s.turn == Turn::Stdout,
{
}

/// The reads that bring these bytes.
pub open spec fn reads(bytes: Seq<u8>) -> Seq<ReadEvent> {
    bytes.map_values(|b: u8| ReadEvent::Byte(b))
}

/// A line of any length is delivered whole: while its bytes come, each asks for
/// a further read, and the newline gives all of them.
pub proof fn law_line_of_any_length(s: StreamView, bytes: Seq<u8>)
    requires
        !s.combined_output,
        s.turn == Turn::Stdout,
        s.stdout_buf.len() == 0,
        laws::open_line(bytes),
    ensures
        s.after(reads(bytes)).stdout_buf == bytes,
        s.after(reads(bytes)).turn == Turn::Stdout,
        !s.after(reads(bytes)).combined_output,
        bytes.len() > 0 ==> s.after(reads(bytes.drop_last())).outcome(
            ReadEvent::Byte(bytes.last()),
        ) == Ok::<StepView, ErrorView>(StepView::Read),
        utf8::valid_utf8(bytes.push(0x0a)) ==> {
            let said = s.after(reads(bytes)).outcome(ReadEvent::Byte(0x0a));
            said is Ok && said->Ok_0 is Line && utf8::encode_utf8(said->Ok_0->Line_0) == bytes.push(
                0x0a,
            )
        },
    decreases bytes.len(),
{
    if bytes.len() > 0 {
        let front = bytes.drop_last();
        let b = bytes[bytes.len() - 1];
        law_line_of_any_length(s, front);
        assert(reads(bytes).drop_last() =~= reads(front));
        assert(reads(bytes).last() == ReadEvent::Byte(b));
        law_byte_within_a_line(s.after(reads(front)), b);
        assert(front.push(b) =~= bytes);
    } else {
        assert(s.after(reads(bytes)).stdout_buf =~= bytes);
    }
    law_newline_delivers(s.after(reads(bytes)));
}

/// A reply to a receipt that listens connects it or ends it with the error of the
/// host.
pub proof fn law_pty_listening(p: PtyView, reply: PtyReply)
    requires
        p.stage == PtyStage::Listening,
    ensures
        reply matches PtyReply::Accepted(Ok(_)) ==> p.next(reply) == (PtyView {
            stage: PtyStage::Connected,
            ..p
        }) && p.fault(reply) is None,
        reply matches PtyReply::Accepted(Err(e)) ==> p.next(reply) == p && p.fault(reply) == Some(
            Error::UnixSocketConnectError(e),
        ),
        reply is Received ==> p.next(reply) == p && p.fault(reply) is None,
{
}

/// A message brings the terminal just where receiving it succeeded and it
/// carries a descriptor. A receipt that failed, or a header without data, is an
/// error, and a message that carries nothing is passed over.
pub proof fn law_pty_connected(p: PtyView, ret: isize, control: Control)
    requires
        p.stage == PtyStage::Connected,
    ensures
        ({
            let reply = PtyReply::Received { ret, control };
            &&& ret < 0 || control == Control::Empty ==> p.next(reply) == p && p.fault(reply)
                == Some(Error::UnixSocketReceiveMessageError)
            &&& ret >= 0 && control == Control::Absent ==> p.next(reply) == p && p.fault(
                reply,
            ) is None
            &&& ret >= 0 && control is Descriptor ==> p.next(reply) == (PtyView {
                stage: PtyStage::Holding(control->Descriptor_0),
                ..p
            }) && p.fault(reply) is None
        }),
{
}

/// A terminal that was received is kept, the path of the socket never changes,
/// and a connection is accepted only once.
pub proof fn law_pty_keeps(p: PtyView, reply: PtyReply)
    ensures
        p.stage is Holding ==> p.next(reply) == p && p.fault(reply) is None,
        p.next(reply).console_socket == p.console_socket,
        p.stage == PtyStage::Connected && reply is Accepted ==> p.next(reply) == p && p.fault(
            reply,
        ) is None,
{
}

} // verus!
