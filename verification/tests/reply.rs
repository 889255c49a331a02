use std::collections::HashMap;

use runc::error::{IoError, IoErrorKind};
use runc::events::{Event, EventType, Memory, MemoryEntry, Stats};
use runc::reply::{
    json_payload, listed, parse_pids, parse_top, parse_version, read, stats_of, top_headers,
    Timestamp,
};
use runc::{Container, Error};

fn invalid<T>(r: Result<T, Error>, message: &str) {
    match r {
        Err(Error::IoError(e)) => assert_eq!(e, IoError::new(IoErrorKind::InvalidData, message)),
        Err(e) => panic!("unexpected error: {:?}", e),
        Ok(_) => panic!("unexpected success"),
    }
}

fn json_fault() -> serde_json::Error {
    serde_json::from_str::<u8>("{").unwrap_err()
}

#[test]
fn version_of_a_release() {
    let output = "runc version 1.0.0-rc9\ncommit: d736ef14f0288d6993a1845745d6756cfc9ddd5a\n\
                  spec: 1.0.1-dev\n";
    let version = parse_version(output).unwrap();
    assert_eq!(version.runc_version, Some(String::from("1.0.0-rc9")));
    assert_eq!(version.spec_version, Some(String::from("1.0.1-dev")));
    assert_eq!(
        version.commit,
        Some(String::from("d736ef14f0288d6993a1845745d6756cfc9ddd5a"))
    );
}

#[test]
fn version_in_three_lines() {
    let version = parse_version("  runc version 1.1\r\nspec: 1.0.2\nnothing\ncommit: abc").unwrap();
    assert_eq!(version.runc_version, Some(String::from("1.1")));
    assert_eq!(version.spec_version, Some(String::from("1.0.2")));
    assert_eq!(version.commit, None);
    let nothing = parse_version("").unwrap();
    assert_eq!(nothing.runc_version, None);
    assert_eq!(nothing.spec_version, None);
    assert_eq!(nothing.commit, None);
    // A line that names the version says nothing else
    let both = parse_version("spec version 3: 4").unwrap();
    assert_eq!(both.runc_version, Some(String::from("3: 4")));
    assert_eq!(both.spec_version, None);
}

#[test]
fn versions_that_make_no_sense() {
    invalid(parse_version("runc version "), "unable to parse runc version");
    invalid(parse_version("runc version 1\nspec 2"), "unable to parse spec version");
    invalid(parse_version("commit:abc\nspec 2"), "unable to parse commit hash");
}

#[test]
fn table_of_processes() {
    let output = "UID        PID  PPID  C STIME TTY          TIME CMD\n\
                  root     12345 12330  0 10:00 pts/0    00:00:00 [sh]\n\
                  root         -     -  0 -     -        00:00:00 -\n\
                  \n\
                  root     12350 12330  0 10:01 pts/1    00:00:00 sleep   10\n";
    let rows = parse_top(output).unwrap();
    assert_eq!(rows.len(), 2);
    assert_eq!(rows[0].get("CMD"), Some(&String::from("[sh]")));
    assert_eq!(rows[0].get("PID"), Some(&String::from("12345")));
    assert_eq!(rows[0].get("UID"), Some(&String::from("root")));
    assert_eq!(rows[0].len(), 8);
    assert_eq!(rows[1].get("CMD"), Some(&String::from("sleep 10")));
    assert_eq!(rows[1].get("TTY"), Some(&String::from("pts/1")));
    assert_eq!(rows[1].get("CPU"), None);
}

#[test]
fn headers_that_stand_twice() {
    let rows = parse_top("PID CMD CMD\n1 a b c").unwrap();
    assert_eq!(rows[0].len(), 2);
    assert_eq!(rows[0].get("CMD"), Some(&String::from("b c")));
    let rows = parse_top("CMD PID\nsh 7").unwrap();
    assert_eq!(rows[0].get("PID"), Some(&String::from("7")));
}

#[test]
fn rows_without_a_last_column() {
    let rows = parse_top("PID CMD\n1").unwrap();
    assert_eq!(rows[0].get("CMD"), Some(&String::new()));
}

#[test]
fn tables_that_fit() {
    assert!(runc::reply::top_fits("PID CMD\n1 sh\n\n- x\n"));
    assert!(runc::reply::top_fits("A PID B C\nx -\n"));
    assert!(!runc::reply::top_fits("A PID B C\nx 1\n"));
    assert!(!runc::reply::top_fits("A PID\nx\n"));
    assert!(!runc::reply::top_fits("PID\n \n"));
    assert!(runc::reply::top_fits("CMD\n\u{20}\n"));
    assert!(runc::reply::top_fits(""));
}

#[test]
fn tables_without_pids() {
    invalid(parse_top("UID CMD\nroot sh\n"), "unable to locate pid header");
    invalid(parse_top(""), "unable to locate pid header");
    invalid(parse_top("\nPID\n"), "unable to locate pid header");
    assert!(parse_top("PID").unwrap().is_empty());
}

#[test]
fn lists_of_pids() {
    assert_eq!(parse_pids("[1,32767]\n").unwrap(), vec![1, 32767]);
    assert_eq!(parse_pids("[]").unwrap(), Vec::<usize>::new());
    assert_eq!(parse_pids(" null\n").unwrap(), Vec::<usize>::new());
    assert_eq!(parse_pids("null").unwrap(), Vec::<usize>::new());
    for wrong in ["", "[-1]", "[1", "{}", "nul", "\"1\"", "[18446744073709551616]"] {
        assert!(matches!(parse_pids(wrong), Err(Error::JsonError(_))), "{:?}", wrong);
    }
}

#[test]
fn payload_of_a_list() {
    assert_eq!(json_payload("\tnull \n"), None);
    assert_eq!(json_payload(" [{}] \n"), Some(String::from("[{}]")));
    assert_eq!(json_payload(""), Some(String::new()));
    assert_eq!(json_payload("\"null\""), Some(String::from("\"null\"")));
}

fn container(id: &str, status: &str) -> Container {
    let mut annotations = HashMap::new();
    annotations.insert(String::from("k"), String::from("v"));
    Container {
        id: Some(String::from(id)),
        pid: Some(17),
        status: Some(String::from(status)),
        bundle: None,
        rootfs: None,
        created: Some(Timestamp { secs: 1_572_000_000, nanos: 5 }),
        annotations: Some(annotations),
    }
}

#[test]
fn lists_of_containers() {
    assert!(listed::<Container>(None).unwrap().is_empty());
    let one = listed(Some(Ok(vec![container("box", "created")]))).unwrap();
    assert_eq!(one.len(), 1);
    assert_eq!(one[0].id, Some(String::from("box")));
    assert!(matches!(
        listed::<Container>(Some(Err(json_fault()))),
        Err(Error::JsonError(_))
    ));
}

#[test]
fn state_of_a_container() {
    let state = read(Ok(container("box", "running"))).unwrap();
    assert_eq!(state.status, Some(String::from("running")));
    assert!(matches!(read::<Container>(Err(json_fault())), Err(Error::JsonError(_))));
}

#[test]
fn statistics_of_a_container() {
    let usage = MemoryEntry {
        limit: Some(232_000_000),
        usage: Some(4096),
        max: None,
        fail_count: Some(0),
    };
    let memory = Memory {
        cache: None,
        usage: Some(usage),
        swap: None,
        kernel: None,
        kernel_tcp: None,
        raw: None,
    };
    let stats = Stats { cpu: None, memory: Some(memory), pids: None, blk_io: None, huge_tlb: None };
    let mut event = Event {
        event_type: Some(EventType::Stats),
        id: Some(String::from("box")),
        stats: Some(stats),
    };
    let stats = stats_of(Ok(event.clone())).unwrap();
    assert_eq!(stats.memory.unwrap().usage.unwrap().limit, Some(232_000_000));
    event.stats = None;
    event.event_type = Some(EventType::OOM);
    invalid(stats_of(Ok(event)), "missing stats");
    assert!(matches!(stats_of(Err(json_fault())), Err(Error::JsonError(_))));
}

#[test]
fn headers_of_the_table() {
    assert_eq!(top_headers("  UID\tPID  CMD\nroot 1 sh\n"), vec!["UID", "PID", "CMD"]);
    assert!(top_headers("").is_empty());
    assert!(top_headers("\nPID\n").is_empty());
}
