use runc::text::{
    contains, decimal_text, is_white_space, join_text, piece_after, same_text, signed_decimal_text,
    split_text, trim_text, words_of,
};

#[test]
fn white_space_is_that_of_unicode() {
    for n in 0..=0x10ffffu32 {
        if let Some(c) = char::from_u32(n) {
            assert_eq!(is_white_space(c), c.is_whitespace(), "U+{:04X}", n);
        }
    }
}

#[test]
fn splitting_keeps_empty_pieces() {
    assert_eq!(split_text("", '\n'), vec![""]);
    assert_eq!(split_text("\n", '\n'), vec!["", ""]);
    assert_eq!(split_text("a\n\nb", '\n'), vec!["a", "", "b"]);
    for s in ["", "x", "x:y", ":", "::a:", "ä:ö"] {
        let pieces: Vec<&str> = s.split(':').collect();
        assert_eq!(split_text(s, ':'), pieces);
        assert_eq!(join_text(&split_text(s, ':'), 0, ":"), s);
    }
}

#[test]
fn words_are_what_white_space_leaves() {
    assert!(words_of("").is_empty());
    assert!(words_of(" \t\u{3000}").is_empty());
    assert_eq!(words_of("  UID\tPID  CMD "), vec!["UID", "PID", "CMD"]);
    assert_eq!(words_of("a\u{a0}b"), vec!["a", "b"]);
    assert_eq!(words_of("one"), vec!["one"]);
}

#[test]
fn trimming_takes_both_ends() {
    for s in ["", " ", "a", " a ", "\n a b \u{2028}", "null\n"] {
        assert_eq!(trim_text(s), s.trim());
        assert_eq!(trim_text(&trim_text(s)), s.trim());
    }
}

#[test]
fn searching_finds_the_first() {
    assert!(contains("runc version 1", "version"));
    assert!(!contains("runc versio", "version"));
    assert!(contains("abc", ""));
    assert!(contains("", ""));
    assert_eq!(piece_after("spec: 1.0: x", ": "), Some(String::from("1.0")));
    assert_eq!(piece_after("spec: 1.0", ": "), Some(String::from("1.0")));
    assert_eq!(piece_after("spec: ", ": "), Some(String::new()));
    assert_eq!(piece_after("spec:1.0", ": "), None);
    assert_eq!(piece_after("a::::b", "::"), Some(String::new()));
    for s in ["aaa", "aaaa", "baab", "ab", ""] {
        assert_eq!(piece_after(s, "aa"), s.split("aa").nth(1).map(String::from));
    }
}

#[test]
fn joining_starts_where_it_is_told() {
    let words = vec![String::from("sleep"), String::from("10"), String::from("s")];
    assert_eq!(join_text(&words, 0, " "), "sleep 10 s");
    assert_eq!(join_text(&words, 1, " "), "10 s");
    assert_eq!(join_text(&words, 2, " "), "s");
    assert_eq!(join_text(&words, 3, " "), "");
}

#[test]
fn numbers_are_decimal() {
    for n in [0u64, 1, 9, 10, 99, 100, 5000, u64::MAX] {
        assert_eq!(decimal_text(n), format!("{}", n));
    }
    for n in [0i32, 9, 15, -1, -19, i32::MAX, i32::MIN] {
        assert_eq!(signed_decimal_text(n), format!("{}", n));
    }
    assert_ne!(signed_decimal_text(9), signed_decimal_text(-9));
}

#[test]
fn texts_are_told_apart() {
    assert!(same_text("PID", "PID"));
    assert!(!same_text("PID", "PI"));
    assert!(!same_text("PID", "PIE"));
    assert!(same_text("", ""));
}
