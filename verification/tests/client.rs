use runc::args::Arg;
use runc::client::{new_temporary_file, temporary_file};
use runc::command::Wanted;
use runc::error::{IoError, IoErrorKind};
use runc::invocation::Invocation;
use runc::path::HostPath;
use runc::task::{Action, Task};
use runc::time::TimeSpan;
use runc::{
    CreateOpts, DeleteOpts, Error, ExecOpts, KillOpts, Runc, RuncConfiguration, RuncLogFormat,
};

fn client() -> Runc {
    let mut config: RuncConfiguration = Default::default();
    config.command = Some(HostPath::new("/usr/bin/runc"));
    Runc::new(config, None).unwrap()
}

fn span(secs: u64, nanos: u32) -> TimeSpan {
    TimeSpan::new(secs, nanos).unwrap()
}

fn text(words: &[&str]) -> Vec<Arg> {
    words.iter().map(|w| Arg::Text(String::from(*w))).collect()
}

fn run_line(task: &Task) -> Vec<String> {
    match task.action() {
        Action::Run(words) => words,
        other => panic!("unexpected action: {:?}", other),
    }
}

#[test]
fn an_empty_configuration() {
    let config = RuncConfiguration::default();
    assert_eq!(config.command, None);
    assert_eq!(config.timeout, None);
    assert_eq!(config.root, None);
    assert!(!config.debug);
    assert_eq!(config.log, None);
    assert_eq!(config.log_format, None);
    assert!(!config.systemd_cgroup);
    assert_eq!(config.rootless, None);
    assert!(!config.should_cleanup);
}

#[test]
fn the_binary_is_configured_or_found() {
    let found = HostPath::new("/bin/runc");
    let runc = Runc::new(RuncConfiguration::default(), Some(found.clone())).unwrap();
    let invocation = runc.list().invocation;
    assert_eq!(invocation.program, found);
    assert_eq!(invocation.timeout, Some(span(5, 0)));

    let mut config = RuncConfiguration::default();
    config.command = Some(HostPath::new("/opt/runc"));
    config.timeout = Some(span(1, 500_000_000));
    let invocation = Runc::new(config, Some(found)).unwrap().list().invocation;
    assert_eq!(invocation.program, HostPath::new("/opt/runc"));
    assert_eq!(invocation.timeout, Some(span(1, 500_000_000)));

    match Runc::new(RuncConfiguration::default(), None) {
        Err(Error::IoError(e)) => {
            assert_eq!(e, IoError::new(IoErrorKind::NotFound, "unable to locate runc binary"))
        }
        other => panic!("unexpected: {:?}", other),
    }
}

#[test]
fn spans_of_milliseconds() {
    assert_eq!(TimeSpan::from_millis(5000), span(5, 0));
    assert_eq!(TimeSpan::from_millis(1234), span(1, 234_000_000));
    assert_eq!(TimeSpan::from_millis(1234).subsec_nanos(), 234_000_000);
    assert_eq!(span(7, 999_999_999).as_secs(), 7);
    assert_eq!(span(7, 999_999_999).subsec_nanos(), 999_999_999);
    assert_eq!(TimeSpan::new(7, 1_000_000_000), None);
    assert_eq!(TimeSpan::from_millis(u64::MAX).as_secs(), u64::MAX / 1000);
}

#[test]
fn options_stand_in_front() {
    let config = RuncConfiguration {
        command: Some(HostPath::new("runc")),
        timeout: None,
        root: Some(HostPath::new("state")),
        debug: true,
        log: Some(HostPath { bytes: vec![b'l', 0xff] }),
        log_format: Some(RuncLogFormat::Json),
        systemd_cgroup: true,
        rootless: Some(false),
        should_cleanup: false,
    };
    let mut task = Runc::new(config, None).unwrap().pause("box");
    let invocation = &mut task.invocation;
    assert_eq!(invocation.pending(), Some(HostPath::new("state")));
    assert_eq!(invocation.argv(), None);
    assert!(!invocation.pending_in_command());
    invocation.answer(Ok(HostPath::new("/srv/state"))).unwrap();
    assert_eq!(
        run_line(&task),
        vec![
            "--root", "/srv/state", "--debug", "--log", "l\u{fffd}", "--log-format", "json",
            "--systemd-cgroup", "--rootless=false", "pause", "box",
        ]
    );
}

#[test]
fn text_log_and_rootless() {
    let mut config = RuncConfiguration::default();
    config.log_format = Some(RuncLogFormat::Text);
    config.rootless = Some(true);
    let runc = Runc::new(config, Some(HostPath::new("runc"))).unwrap();
    assert_eq!(
        run_line(&runc.start("box")),
        vec!["--log-format", "text", "--rootless=true", "start", "box"]
    );
}

#[test]
fn creating_and_running() {
    let opts = CreateOpts {
        pid_file: Some(HostPath::new("box.pid")),
        console_socket: Some(HostPath::new("box.sock")),
        no_pivot: true,
        no_new_keyring: true,
        detach: true,
    };
    let task = client().create("box", &HostPath::new("bundle"), Some(&opts));
    let mut expected = text(&["create", "--pid-file", "box.pid", "--console-socket"]);
    expected.push(Arg::Canonical(HostPath::new("box.sock")));
    expected.append(&mut text(&["--no-pivot", "--no-new-keyring", "--detach", "--bundle"]));
    expected.push(Arg::Canonical(HostPath::new("bundle")));
    expected.append(&mut text(&["box"]));
    assert_eq!(task.invocation.args, expected);
    assert!(task.invocation.combined_output);
    assert_eq!(task.wanted, Wanted::Output);

    let task = client().run("box", &HostPath::new("bundle"), None);
    assert_eq!(task.wanted, Wanted::Status);
    let mut expected = text(&["run", "--bundle"]);
    expected.push(Arg::Canonical(HostPath::new("bundle")));
    expected.append(&mut text(&["box"]));
    assert_eq!(task.invocation.args, expected);
    assert!(task.invocation.combined_output);
}

#[test]
fn commands_of_few_words() {
    let runc = client();
    let cases: Vec<(Task, Vec<&str>, bool)> = vec![
        (runc.delete("box", None), vec!["delete", "box"], true),
        (
            runc.delete("box", Some(&DeleteOpts { force: true })),
            vec!["delete", "--force", "box"],
            true,
        ),
        (runc.delete("box", Some(&DeleteOpts { force: false })), vec!["delete", "box"], true),
        (runc.kill("box", 9, None), vec!["kill", "box", "9"], true),
        (
            runc.kill("box", -15, Some(&KillOpts { all: true })),
            vec!["kill", "--all", "box", "-15"],
            true,
        ),
        (runc.list(), vec!["list", "--format=json"], false),
        (runc.pause("box"), vec!["pause", "box"], true),
        (runc.ps("box"), vec!["ps", "--format=json", "box"], false),
        (runc.resume("box"), vec!["resume", "box"], true),
        (runc.start("box"), vec!["start", "box"], true),
        (runc.state("box"), vec!["state", "box"], true),
        (runc.stats("box"), vec!["events", "--stats", "box"], true),
        (runc.top("box", None), vec!["ps", "--format", "table", "box"], false),
        (runc.top("box", Some("-ef")), vec!["ps", "--format", "table", "box", "-ef"], false),
        (runc.version(), vec!["--version"], false),
    ];
    for (task, words, combined) in cases {
        assert_eq!(run_line(&task), words);
        assert_eq!(task.invocation.combined_output, combined, "{:?}", words);
        assert_eq!(task.wanted, Wanted::Output, "{:?}", words);
    }
}

#[test]
fn events_come_at_whole_seconds() {
    let invocation: Invocation =
        client().events("box", &span(12, 999_999_999));
    assert_eq!(invocation.args, text(&["events", "--interval=12s", "box"]));
    assert!(!invocation.combined_output);
    assert_eq!(invocation.timeout, None);
}

#[test]
fn executing_a_process() {
    let opts = ExecOpts {
        pid_file: Some(HostPath::new("/tmp/bang.pid")),
        console_socket: Some(HostPath::new("tty.sock")),
        detach: true,
    };
    let task = client().exec_with("box", String::from("/run/spec"), Some(&opts));
    let mut expected = text(&["exec", "--process", "/run/spec", "--console-socket"]);
    expected.push(Arg::Canonical(HostPath::new("tty.sock")));
    expected.append(&mut text(&["--detach", "--pid-file", "/tmp/bang.pid", "box"]));
    assert_eq!(task.invocation.args, expected);
    assert!(matches!(task.action(), Action::Encode));

    let task = client().update_with("box", String::from("/run/spec"));
    assert_eq!(task.invocation.args, text(&["update", "--resources", "/run/spec", "box"]));
    assert!(task.invocation.combined_output);
}

#[test]
fn temporary_files_have_random_names() {
    let dir = HostPath::new("/run/user/0");
    assert_eq!(temporary_file(&dir, "x"), "/run/user/0/runc-process-x");
    let a = new_temporary_file(Some(&dir)).unwrap();
    let b = new_temporary_file(Some(&dir)).unwrap();
    assert_ne!(a, b);
    let front = "/run/user/0/runc-process-";
    for file in [a, b] {
        assert!(file.starts_with(front));
        let name: Vec<char> = file[front.len()..].chars().collect();
        assert_eq!(name.len(), 36);
        for (i, c) in name.iter().enumerate() {
            match i {
                8 | 13 | 18 | 23 => assert_eq!(*c, '-'),
                14 => assert_eq!(*c, '4'),
                19 => assert!("89ab".contains(*c)),
                _ => assert!("0123456789abcdef".contains(*c)),
            }
        }
    }
}

#[test]
fn specifications_need_a_directory() {
    let runc = client();
    for failed in [
        runc.exec("box", None, None).map(|_| ()),
        runc.update("box", None).map(|_| ()),
        new_temporary_file(None).map(|_| ()),
    ] {
        match failed {
            Err(Error::IoError(e)) => assert_eq!(
                e,
                IoError::new(IoErrorKind::NotFound, "unable to create temporary spec file")
            ),
            other => panic!("unexpected: {:?}", other),
        }
    }
    let dir = HostPath::new("/run");
    let exec = runc.exec("box", Some(&dir), None).unwrap();
    match &exec.invocation.args[2] {
        Arg::Text(file) => assert!(file.starts_with("/run/runc-process-")),
        other => panic!("unexpected: {:?}", other),
    }
    assert_eq!(exec.invocation.args.len(), 4);
    let update = runc.update("box", Some(&dir)).unwrap();
    match &update.invocation.args[2] {
        Arg::Text(file) => assert!(file.starts_with("/run/runc-process-")),
        other => panic!("unexpected: {:?}", other),
    }
}

#[test]
fn cleaning_up() {
    let mut config = RuncConfiguration::default();
    config.command = Some(HostPath::new("/tmp/test/runc"));
    config.root = Some(HostPath::new("/tmp/test/root"));
    let keeping = Runc::new(config.clone(), None).unwrap();
    assert!(!keeping.should_cleanup());
    assert_eq!(keeping.cleanup_root(), None);
    assert_eq!(keeping.cleanup_binary(None), None);

    config.should_cleanup = true;
    let runc = Runc::new(config.clone(), None).unwrap();
    assert!(runc.should_cleanup());
    assert_eq!(runc.cleanup_root(), Some(HostPath::new("/tmp/test/root")));
    let binary = Some(HostPath::new("/tmp/test/runc"));
    assert_eq!(runc.cleanup_binary(None), binary);
    assert_eq!(runc.cleanup_binary(Some(&HostPath::new("/usr/bin/runc"))), binary);
    assert_eq!(runc.cleanup_binary(Some(&HostPath::new("/tmp//test/./runc"))), None);

    config.root = None;
    assert_eq!(Runc::new(config, None).unwrap().cleanup_root(), None);
}

#[test]
fn the_line_of_a_command_follows_the_options() {
    let mut config = RuncConfiguration::default();
    config.debug = true;
    config.rootless = Some(true);
    let runc = Runc::new(config, Some(HostPath::new("runc"))).unwrap();
    let options = vec!["--debug", "--rootless=true"];
    let plain = run_line(&runc.top("box", None));
    assert_eq!(plain[..2], options[..]);
    assert_eq!(plain[2..], ["ps", "--format", "table", "box"]);
    let longer = run_line(&runc.top("box", Some("-ef")));
    assert_eq!(longer[..plain.len()], plain[..]);
    assert_eq!(longer[plain.len()..], ["-ef"]);
}
