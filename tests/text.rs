use slang_cli::text::{ends_with, split_on, str_eq};

#[test]
fn split_keeps_empty_fields() {
    assert_eq!(split_on("a-b--c", '-'), vec!["a", "b", "", "c"]);
    assert_eq!(split_on("", '-'), vec![""]);
    assert_eq!(split_on("-", '-'), vec!["", ""]);
    assert_eq!(split_on("x86_64-unknown-linux-gnu", '-'), vec!["x86_64", "unknown", "linux", "gnu"]);
}

#[test]
fn suffix_and_equality() {
    assert!(ends_with("slang-2024.1-linux-x86_64.zip", "linux-x86_64.zip"));
    assert!(!ends_with("slang-2024.1-linux-x86_64.tar.gz", "linux-x86_64.zip"));
    assert!(ends_with("abc", ""));
    assert!(!ends_with("zip", "x.zip"));
    assert!(str_eq("linux", "linux"));
    assert!(!str_eq("linux", "linu"));
    assert!(!str_eq("linux", "Linux"));
}
