use runc::error::{IoError, IoErrorKind};
use runc::events::{Event, EventType};
use runc::stream::{ConsoleStream, ReadEvent, Source, StreamStep};
use runc::{Error, EventStream};

fn feed(stream: &mut ConsoleStream, bytes: &[u8]) -> Vec<String> {
    let mut lines = Vec::new();
    for b in bytes {
        match stream.poll(ReadEvent::Byte(*b)).unwrap() {
            StreamStep::Line(line) => lines.push(line),
            StreamStep::Read => {}
            other => panic!("unexpected step: {:?}", other),
        }
    }
    lines
}

#[test]
fn lines_of_standard_output() {
    let mut stream = ConsoleStream::new(true, true, false).unwrap();
    let bytes = "eins\nzwölf\n\nrest".as_bytes();
    assert_eq!(feed(&mut stream, bytes), vec!["eins\n", "zwölf\n", "\n"]);
    assert_eq!(stream.source(), Source::Stdout);
    assert!(matches!(stream.poll(ReadEvent::NotReady), Ok(StreamStep::NotReady)));
    assert_eq!(feed(&mut stream, b"!\n"), vec!["rest!\n"]);
    assert!(matches!(stream.poll(ReadEvent::Eof), Ok(StreamStep::End)));
}

#[test]
fn a_line_that_is_no_text() {
    let mut stream = ConsoleStream::new(true, true, false).unwrap();
    assert!(feed(&mut stream, &[0xff]).is_empty());
    assert!(matches!(stream.poll(ReadEvent::Byte(b'\n')), Err(Error::UnicodeError)));
    // It is held back
    assert!(matches!(stream.poll(ReadEvent::NotReady), Err(Error::UnicodeError)));
    assert!(feed(&mut stream, b"a").is_empty());
    assert!(matches!(stream.poll(ReadEvent::Byte(b'\n')), Err(Error::UnicodeError)));
}

#[test]
fn a_read_that_fails() {
    let mut stream = ConsoleStream::new(true, true, true).unwrap();
    let failed = IoError::new(IoErrorKind::BrokenPipe, "gone");
    match stream.poll(ReadEvent::Failed(failed.clone())) {
        Err(Error::IoError(e)) => assert_eq!(e, failed),
        other => panic!("unexpected: {:?}", other),
    }
    assert_eq!(stream.source(), Source::Stdout);
}

#[test]
fn both_outputs_take_turns() {
    let mut stream = ConsoleStream::new(true, true, true).unwrap();
    let mut lines = Vec::new();
    let mut out = b"a\nbc\n".iter();
    let mut err = b"xyz\n".iter();
    loop {
        let event = match stream.source() {
            Source::Stdout => match out.next() {
                Some(b) => ReadEvent::Byte(*b),
                None => ReadEvent::NotReady,
            },
            Source::Stderr => match err.next() {
                Some(b) => ReadEvent::Byte(*b),
                None => ReadEvent::NotReady,
            },
        };
        match stream.poll(event).unwrap() {
            StreamStep::Read => {}
            StreamStep::Line(line) => lines.push(line),
            StreamStep::NotReady => break,
            StreamStep::End => panic!("no end was read"),
        }
    }
    assert_eq!(lines, vec!["a\n", "bc\n", "xyz\n"]);
}

#[test]
fn both_outputs_have_to_be_idle() {
    let mut stream = ConsoleStream::new(true, true, true).unwrap();
    assert!(matches!(stream.poll(ReadEvent::Byte(b'a')), Ok(StreamStep::Read)));
    assert_eq!(stream.source(), Source::Stderr);
    assert!(matches!(stream.poll(ReadEvent::NotReady), Ok(StreamStep::Read)));
    assert!(matches!(stream.poll(ReadEvent::NotReady), Ok(StreamStep::Read)));
    assert_eq!(stream.source(), Source::Stderr);
    assert!(matches!(stream.poll(ReadEvent::NotReady), Ok(StreamStep::NotReady)));
    assert!(matches!(stream.poll(ReadEvent::NotReady), Ok(StreamStep::Read)));
    assert!(matches!(stream.poll(ReadEvent::Byte(b'e')), Ok(StreamStep::Read)));
    assert!(matches!(stream.poll(ReadEvent::NotReady), Ok(StreamStep::Read)));
    assert!(matches!(stream.poll(ReadEvent::Eof), Ok(StreamStep::End)));
    assert_eq!(stream.source(), Source::Stdout);
}

#[test]
fn a_process_without_handles() {
    for (stdout, stderr, message) in [
        (false, true, "missing stdout handle"),
        (false, false, "missing stdout handle"),
        (true, false, "missing stderr handle"),
    ] {
        match ConsoleStream::new(stdout, stderr, false) {
            Err(Error::IoError(e)) => assert_eq!(e, IoError::new(IoErrorKind::NotFound, message)),
            other => panic!("unexpected: {:?}", other),
        }
    }
}

#[test]
fn a_stream_of_events() {
    let mut events = EventStream::new(ConsoleStream::new(true, true, false).unwrap());
    assert_eq!(events.source(), Source::Stdout);
    assert!(matches!(events.poll(ReadEvent::Byte(b'{')), Ok(StreamStep::Read)));
    assert!(matches!(events.poll(ReadEvent::Byte(b'}')), Ok(StreamStep::Read)));
    match events.poll(ReadEvent::Byte(b'\n')) {
        Ok(StreamStep::Line(line)) => assert_eq!(line, "{}\n"),
        other => panic!("unexpected: {:?}", other),
    }
    assert!(matches!(events.poll(ReadEvent::NotReady), Ok(StreamStep::NotReady)));
    assert!(matches!(events.poll(ReadEvent::Eof), Ok(StreamStep::End)));

    let oom = Event { event_type: Some(EventType::OOM), id: None, stats: None };
    assert!(matches!(EventStream::event(Ok(oom)).unwrap().event_type, Some(EventType::OOM)));
    let fault = serde_json::from_str::<u8>("{").unwrap_err();
    assert!(matches!(EventStream::event(Err(fault)), Err(Error::JsonError(_))));
}
