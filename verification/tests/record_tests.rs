use chatwise::record::format_record;
use chatwise::text::{str_eq, trim};

#[test]
fn record_block_layout() {
    assert_eq!(
        format_record("hi\n", "Hello!"),
        "***user>*** hi\n\n***chatwise>*** Hello!\n\n"
    );
}

#[test]
fn record_trims_both_ends() {
    assert_eq!(
        format_record("  spaced out \t\n", "\n reply "),
        "***user>*** spaced out\n\n***chatwise>*** reply\n\n"
    );
}

#[test]
fn trim_cases() {
    assert_eq!(trim(""), "");
    assert_eq!(trim(" \t\r\n"), "");
    assert_eq!(trim("abc"), "abc");
    assert_eq!(trim("  a b  "), "a b");
    assert_eq!(trim("\u{a0}x\u{a0}"), "x");
}

#[test]
fn str_eq_cases() {
    assert!(str_eq("", ""));
    assert!(str_eq("abc", "abc"));
    assert!(!str_eq("abc", "abd"));
    assert!(!str_eq("abc", "ab"));
    assert!(str_eq("héllo", "héllo"));
    assert!(!str_eq("héllo", "hello"));
}
