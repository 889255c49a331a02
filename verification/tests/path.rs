use runc::lookup::RuncLookup;
use runc::path::HostPath;
use runc::Runc;

fn same(a: &str, b: &str) -> bool {
    HostPath::new(a).same(&HostPath::new(b))
}

#[test]
fn text_of_a_path() {
    assert_eq!(HostPath::new("/run/ä").to_text(), "/run/ä");
    let odd = HostPath { bytes: vec![b'/', 0xff, b'a'] };
    assert_eq!(odd.to_text(), "/\u{fffd}a");
    let cut = HostPath { bytes: vec![0xe2, 0x82, b'x'] };
    assert_eq!(cut.to_text(), "\u{fffd}x");
}

#[test]
fn joining_a_name() {
    assert_eq!(HostPath::new("/usr/bin").join("runc"), HostPath::new("/usr/bin/runc"));
    assert_eq!(HostPath::new("/usr/bin/").join("runc"), HostPath::new("/usr/bin/runc"));
    assert_eq!(HostPath::new("").join("runc"), HostPath::new("runc"));
    assert_eq!(HostPath::new("/usr/bin").join("/sbin/runc"), HostPath::new("/sbin/runc"));
}

#[test]
fn paths_with_the_same_components() {
    let paths = [
        "", "/", "//", ".", "./", "a", "./a", "a/", "a/.", "a//b", "a/b", "a/./b", "/a/b", "/./a/b",
        "//a//b/", "a/../b", "..", "/..", "/.",
    ];
    for a in paths {
        for b in paths {
            let std_same = std::path::Path::new(a) == std::path::Path::new(b);
            assert_eq!(same(a, b), std_same, "{:?} {:?}", a, b);
        }
    }
    assert!(same("/usr/bin/runc", "/usr//bin/./runc"));
    assert!(!same("/usr/bin/runc", "/usr/sbin/runc"));
}

#[test]
fn copies_of_paths_are_equal() {
    let p = HostPath { bytes: vec![0x2f, 0xff] };
    assert_eq!(p.clone(), p);
}

fn search(mut lookup: RuncLookup, files: &[&str]) -> Option<HostPath> {
    while let Some(place) = lookup.candidate() {
        if files.iter().any(|f| HostPath::new(f) == place) {
            return Some(place);
        }
        lookup.reject();
    }
    None
}

#[test]
fn the_first_file_is_found() {
    let path = HostPath::new("/usr/local/bin:/usr/bin:/bin");
    assert_eq!(
        search(Runc::runc_binary(Some(&path)), &["/bin/runc", "/usr/bin/runc"]),
        Some(HostPath::new("/usr/bin/runc"))
    );
    assert_eq!(search(Runc::runc_binary(Some(&path)), &["/opt/runc"]), None);
    assert_eq!(search(Runc::runc_binary(None), &["runc"]), None);
    assert_eq!(
        search(Runc::runc_binary(Some(&HostPath::new(""))), &["runc"]),
        Some(HostPath::new("runc"))
    );
}

#[test]
fn a_search_at_its_end_stays_there() {
    let mut lookup = RuncLookup::new(Some(&HostPath::new("/bin")));
    assert_eq!(lookup.candidate(), Some(HostPath::new("/bin/runc")));
    lookup.reject();
    assert_eq!(lookup.candidate(), None);
    lookup.reject();
    assert_eq!(lookup.candidate(), None);
}
