use runc::command::{command_output, decode, give_back, run_status, Answer, CommandEnd, Wanted};
use runc::error::{IoError, IoErrorKind, TimeoutError};
use runc::path::HostPath;
use runc::task::{Action, HostReply, Task};
use runc::{CreateOpts, Error, ExecOpts, Runc, RuncConfiguration};

fn client(root: Option<&str>) -> Runc {
    let mut config: RuncConfiguration = Default::default();
    config.command = Some(HostPath::new("/usr/bin/runc"));
    config.root = root.map(HostPath::new);
    Runc::new(config, None).unwrap()
}

fn ended(status: Option<i32>, stdout: &[u8], stderr: &[u8]) -> CommandEnd {
    CommandEnd::Exited { status, stdout: stdout.to_vec(), stderr: stderr.to_vec() }
}

fn exited(success: bool, stdout: &[u8], stderr: &[u8]) -> CommandEnd {
    ended(Some(if success { 0 } else { 1 }), stdout, stderr)
}

fn output(text: &str) -> Answer {
    Answer::Output(String::from(text))
}

fn denied() -> IoError {
    IoError {
        kind: IoErrorKind::PermissionDenied,
        os_code: Some(13),
        message: String::from("Permission denied"),
    }
}

fn io_error<T: std::fmt::Debug>(r: Result<T, Error>) -> IoError {
    match r {
        Err(Error::IoError(e)) => e,
        other => panic!("unexpected: {:?}", other),
    }
}

fn json_fault() -> serde_json::Error {
    serde_json::from_str::<u8>("{").unwrap_err()
}

#[test]
fn answers_of_runc() {
    assert_eq!(command_output(exited(true, b"out", b"err"), false).unwrap(), "out");
    assert_eq!(command_output(exited(true, b"out", b"err"), true).unwrap(), "outerr");
    assert_eq!(command_output(exited(true, "ä".as_bytes(), "ö".as_bytes()), true).unwrap(), "äö");
    // A character may begin in one output and end in the other
    assert_eq!(command_output(exited(true, &[0xc3], &[0xa4]), true).unwrap(), "ä");
    assert!(matches!(
        command_output(exited(true, &[0xc3], &[0xa4]), false),
        Err(Error::UnicodeError)
    ));
    assert_eq!(command_output(exited(true, b"out", &[0xff]), false).unwrap(), "out");
}

#[test]
fn failures_of_runc() {
    let failed = IoError::new(IoErrorKind::Other, "runc command execution failed");
    assert_eq!(io_error(command_output(ended(Some(137), b"", b""), true)), failed);
    assert_eq!(io_error(command_output(ended(Some(-1), b"", b""), true)), failed);
    assert_eq!(io_error(command_output(ended(None, b"", b""), true)), failed);
    assert_eq!(io_error(command_output(exited(false, b"a", b"b"), true)), failed);
    assert_eq!(io_error(command_output(exited(false, b"", b""), false)), failed);
    assert!(matches!(
        command_output(exited(false, &[0xff], b""), false),
        Err(Error::UnicodeError)
    ));
    assert!(matches!(
        command_output(exited(false, b"", &[0xff]), false),
        Err(Error::UnicodeError)
    ));
    assert_eq!(io_error(command_output(CommandEnd::NotSpawned(denied()), true)), denied());
    assert!(matches!(
        command_output(CommandEnd::Failed(TimeoutError::Elapsed), true),
        Err(Error::CommandTimeout)
    ));
    assert!(matches!(
        command_output(CommandEnd::Failed(TimeoutError::Timer), true),
        Err(Error::CommandTimeout)
    ));
    let inner = TimeoutError::Inner(Error::from(denied()));
    assert_eq!(io_error(command_output(CommandEnd::Failed(inner), true)), denied());
    assert!(matches!(
        command_output(CommandEnd::Failed(TimeoutError::Inner(Error::Unknown)), true),
        Err(Error::Unknown)
    ));
}

#[test]
fn errors_from_errors() {
    assert!(matches!(decode(vec![0x80]), Err(Error::UnicodeError)));
    assert!(matches!(
        Error::from(String::from_utf8(vec![0x80]).unwrap_err()),
        Error::UnicodeError
    ));
    assert!(matches!(Error::from(json_fault()), Error::JsonError(_)));
    assert!(matches!(Error::from(TimeoutError::Elapsed), Error::CommandTimeout));
    match Error::found(IoErrorKind::InvalidData, "missing") {
        Error::IoError(e) => {
            assert_eq!(e.kind, IoErrorKind::InvalidData);
            assert_eq!(e.os_code, None);
            assert_eq!(e.message, "missing");
        }
        other => panic!("unexpected: {:?}", other),
    }
}

fn resolve(task: Task, from: &str, to: &str) -> Task {
    match task.action() {
        Action::Resolve(path) => assert_eq!(path, HostPath::new(from)),
        other => panic!("unexpected action: {:?}", other),
    }
    task.step(HostReply::Resolved(Ok(HostPath::new(to))))
}

#[test]
fn paths_of_the_command_come_first() {
    let opts = CreateOpts {
        pid_file: None,
        console_socket: Some(HostPath::new("sock")),
        no_pivot: false,
        no_new_keyring: false,
        detach: false,
    };
    let task = client(Some("root")).create("box", &HostPath::new("bundle"), Some(&opts));
    let task = resolve(task, "sock", "/a/sock");
    let task = resolve(task, "bundle", "/b/bundle");
    let task = resolve(task, "root", "/c/root");
    match task.action() {
        Action::Run(words) => assert_eq!(
            words,
            vec![
                "--root", "/c/root", "create", "--console-socket", "/a/sock", "--bundle",
                "/b/bundle", "box",
            ]
        ),
        other => panic!("unexpected action: {:?}", other),
    }
    let task = task.step(HostReply::Ended(exited(true, b"o", b"e")));
    assert!(matches!(task.action(), Action::Finish));
    assert_eq!(task.outcome().unwrap().unwrap(), output("oe"));
}

#[test]
fn a_path_that_is_not_there() {
    let task = client(None).run("box", &HostPath::new("bundle"), None);
    let task = task.step(HostReply::Resolved(Err(denied())));
    assert_eq!(io_error(task.outcome().unwrap()), denied());
}

fn launched(root: Option<&str>, opts: Option<&ExecOpts>) -> Task {
    let task = client(root).exec_with("box", String::from("/run/spec"), opts);
    assert!(matches!(task.action(), Action::Encode));
    let task = task.step(HostReply::Encoded(Ok(String::from("{}"))));
    match task.action() {
        Action::Create(file) => assert_eq!(file, "/run/spec"),
        other => panic!("unexpected action: {:?}", other),
    }
    let task = task.step(HostReply::Created(Ok(())));
    match task.action() {
        Action::Write(json) => assert_eq!(json, "{}"),
        other => panic!("unexpected action: {:?}", other),
    }
    let task = task.step(HostReply::Written(Ok(())));
    assert!(matches!(task.action(), Action::Flush));
    task.step(HostReply::Flushed(Ok(())))
}

#[test]
fn a_specification_goes_through_a_file() {
    let task = launched(None, None);
    match task.action() {
        Action::Run(words) => assert_eq!(words, vec!["exec", "--process", "/run/spec", "box"]),
        other => panic!("unexpected action: {:?}", other),
    }
    let task = task.step(HostReply::Ended(exited(true, b"done", b"")));
    match task.action() {
        Action::Remove(file) => assert_eq!(file, "/run/spec"),
        other => panic!("unexpected action: {:?}", other),
    }
    let task = task.step(HostReply::Removed(Ok(())));
    assert_eq!(task.outcome().unwrap().unwrap(), output("done"));
}

#[test]
fn a_file_that_stays_is_an_error() {
    let task = launched(None, None).step(HostReply::Ended(exited(true, b"done", b"")));
    let task = task.step(HostReply::Removed(Err(denied())));
    assert_eq!(io_error(task.outcome().unwrap()), denied());
    let task = launched(None, None).step(HostReply::Ended(exited(false, b"", b"")));
    let task = task.step(HostReply::Removed(Ok(())));
    assert_eq!(io_error(task.outcome().unwrap()).message, "runc command execution failed");
}

#[test]
fn a_root_that_is_not_there_leaves_no_file() {
    let task = launched(Some("root"), None).step(HostReply::Resolved(Err(denied())));
    match task.action() {
        Action::Remove(file) => assert_eq!(file, "/run/spec"),
        other => panic!("unexpected action: {:?}", other),
    }
    let task = task.step(HostReply::Removed(Ok(())));
    assert_eq!(io_error(task.outcome().unwrap()), denied());
}

#[test]
fn a_socket_that_is_not_there_leaves_the_file() {
    let opts = ExecOpts {
        pid_file: None,
        console_socket: Some(HostPath::new("sock")),
        detach: false,
    };
    let task = launched(None, Some(&opts)).step(HostReply::Resolved(Err(denied())));
    assert!(matches!(task.action(), Action::Finish));
    assert_eq!(io_error(task.outcome().unwrap()), denied());
}

#[test]
fn a_specification_that_cannot_be_written() {
    let start = || client(None).update_with("box", String::from("/run/spec"));
    let task = start().step(HostReply::Encoded(Err(json_fault())));
    assert!(matches!(task.outcome(), Some(Err(Error::JsonError(_)))));
    let encoded = || start().step(HostReply::Encoded(Ok(String::from("{}"))));
    let task = encoded().step(HostReply::Created(Err(denied())));
    assert_eq!(io_error(task.outcome().unwrap()), denied());
    let created = || encoded().step(HostReply::Created(Ok(())));
    let task = created().step(HostReply::Written(Err(denied())));
    assert_eq!(io_error(task.outcome().unwrap()), denied());
    let written = || created().step(HostReply::Written(Ok(())));
    let task = written().step(HostReply::Flushed(Err(denied())));
    assert_eq!(io_error(task.outcome().unwrap()), denied());
}

#[test]
fn replies_that_answer_nothing() {
    let task = client(None).pause("box");
    let task = task.step(HostReply::Removed(Ok(())));
    let task = task.step(HostReply::Resolved(Ok(HostPath::new("/x"))));
    match task.action() {
        Action::Run(words) => assert_eq!(words, vec!["pause", "box"]),
        other => panic!("unexpected action: {:?}", other),
    }
    let task = client(Some("root")).pause("box");
    let task = task.step(HostReply::Ended(exited(true, b"", b"")));
    assert!(matches!(task.action(), Action::Resolve(_)));
    assert!(task.outcome().is_none());
    let task = client(None).pause("box").step(HostReply::Ended(exited(true, b"x", b"")));
    let task = task.step(HostReply::Ended(exited(false, b"", b"")));
    assert_eq!(task.outcome().unwrap().unwrap(), output("x"));
}

#[test]
fn a_call_comes_to_an_end() {
    let opts = ExecOpts {
        pid_file: None,
        console_socket: Some(HostPath::new("sock")),
        detach: false,
    };
    let mut task = client(Some("root")).exec_with("box", String::from("/run/spec"), Some(&opts));
    let mut asked = Vec::new();
    loop {
        let (name, reply) = match task.action() {
            Action::Encode => ("encode", HostReply::Encoded(Ok(String::from("{}")))),
            Action::Create(_) => ("create", HostReply::Created(Ok(()))),
            Action::Write(_) => ("write", HostReply::Written(Ok(()))),
            Action::Flush => ("flush", HostReply::Flushed(Ok(()))),
            Action::Resolve(path) => ("resolve", HostReply::Resolved(Ok(path))),
            Action::Run(_) => ("run", HostReply::Ended(exited(true, b"", b""))),
            Action::Remove(_) => ("remove", HostReply::Removed(Ok(()))),
            Action::Finish => break,
        };
        asked.push(name);
        task = task.step(reply);
    }
    assert_eq!(
        asked,
        vec!["encode", "create", "write", "flush", "resolve", "resolve", "run", "remove"]
    );
    assert_eq!(task.outcome().unwrap().unwrap(), output(""));
}

#[test]
fn status_of_a_run() {
    for status in [Some(0), Some(1), Some(137), Some(255), None] {
        assert_eq!(run_status(ended(status, b"out", b"err")).unwrap(), status);
        assert_eq!(run_status(ended(status, &[0xff], &[0xff])).unwrap(), status);
    }
    assert_eq!(io_error(run_status(CommandEnd::NotSpawned(denied()))), denied());
    assert!(matches!(
        run_status(CommandEnd::Failed(TimeoutError::Elapsed)),
        Err(Error::CommandTimeout)
    ));
    let inner = TimeoutError::Inner(Error::from(denied()));
    assert_eq!(io_error(run_status(CommandEnd::Failed(inner))), denied());
}

#[test]
fn what_a_call_gives_back() {
    assert_eq!(
        give_back(ended(Some(0), b"o", b"e"), Wanted::Output, true).unwrap(),
        output("oe")
    );
    assert_eq!(
        give_back(ended(Some(0), b"o", b"e"), Wanted::Status, true).unwrap(),
        Answer::Status(Some(0))
    );
    assert!(give_back(ended(Some(3), b"", b""), Wanted::Output, true).is_err());
    assert_eq!(
        give_back(ended(Some(3), b"", b""), Wanted::Status, true).unwrap(),
        Answer::Status(Some(3))
    );
}

#[test]
fn running_a_container_returns_its_status() {
    let ready = || {
        let task = client(None).run("box", &HostPath::new("bundle"), None);
        let task = resolve(task, "bundle", "/b/bundle");
        match task.action() {
            Action::Run(words) => assert_eq!(words, vec!["run", "--bundle", "/b/bundle", "box"]),
            other => panic!("unexpected action: {:?}", other),
        }
        task
    };
    for status in [Some(0), Some(42), Some(137), None] {
        let task = ready().step(HostReply::Ended(ended(status, b"printed", &[0xff])));
        assert!(matches!(task.action(), Action::Finish));
        assert_eq!(task.outcome().unwrap().unwrap(), Answer::Status(status));
    }
    let task = ready().step(HostReply::Ended(CommandEnd::Failed(TimeoutError::Elapsed)));
    assert!(matches!(task.outcome(), Some(Err(Error::CommandTimeout))));
    let task = ready().step(HostReply::Ended(CommandEnd::NotSpawned(denied())));
    assert_eq!(io_error(task.outcome().unwrap()), denied());
    // Creating one gives its output back
    let task = client(None).create("box", &HostPath::new("bundle"), None);
    let task = resolve(task, "bundle", "/b/bundle");
    let failed = task.step(HostReply::Ended(ended(Some(42), b"", b"")));
    assert_eq!(io_error(failed.outcome().unwrap()).message, "runc command execution failed");
}

#[test]
fn running_a_detached_container_returns_no_status() {
    let opts = CreateOpts {
        pid_file: None,
        console_socket: None,
        no_pivot: false,
        no_new_keyring: false,
        detach: true,
    };
    let ready = || {
        let task = client(None).run("box", &HostPath::new("bundle"), Some(&opts));
        resolve(task, "bundle", "/b/bundle")
    };
    let task = ready().step(HostReply::Ended(ended(Some(0), b"o", b"e")));
    assert_eq!(task.outcome().unwrap().unwrap(), output("oe"));
    let failed = IoError::new(IoErrorKind::Other, "runc command execution failed");
    for status in [Some(1), Some(137), None] {
        let task = ready().step(HostReply::Ended(ended(status, b"", b"")));
        assert_eq!(io_error(task.outcome().unwrap()), failed);
    }
    let attached = CreateOpts { detach: false, ..opts.clone() };
    let task = client(None).run("box", &HostPath::new("bundle"), Some(&attached));
    let task = resolve(task, "bundle", "/b/bundle");
    let task = task.step(HostReply::Ended(ended(Some(1), b"", b"")));
    assert_eq!(task.outcome().unwrap().unwrap(), Answer::Status(Some(1)));
}

#[test]
fn options_that_fail_end_each_call() {
    for task in [client(Some("root")).pause("box"), client(Some("root")).version()] {
        assert!(task.invocation.argv().is_none());
        match task.action() {
            Action::Resolve(path) => assert_eq!(path, HostPath::new("root")),
            other => panic!("unexpected action: {:?}", other),
        }
        let task = task.step(HostReply::Resolved(Err(denied())));
        assert_eq!(io_error(task.outcome().unwrap()), denied());
    }
}
