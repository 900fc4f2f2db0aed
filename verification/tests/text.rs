use terradrift::text::{
    chars_of, ends_with, same_text, starts_with, strip_prefix, strip_suffix, trim_end_matches,
    trim_start_matches,
};

#[test]
fn chars_of_gives_each_character() {
    assert_eq!(chars_of(""), Vec::<char>::new());
    assert_eq!(chars_of("a\u{e9}z"), vec!['a', '\u{e9}', 'z']);
}

#[test]
fn same_text_compares_characters() {
    assert!(same_text("", ""));
    assert!(same_text("no-op", "no-op"));
    assert!(!same_text("no-op", "no-oP"));
    assert!(!same_text("no-op", "no-op "));
}

#[test]
fn prefixes_and_suffixes() {
    assert!(starts_with("env/ws.tfstate", "env/"));
    assert!(starts_with("env", ""));
    assert!(!starts_with("en", "env"));
    assert!(ends_with("env/ws.tfstate", ".tfstate"));
    assert!(!ends_with("tfstate", ".tfstate"));
    assert_eq!(strip_prefix("env/ws", "env/"), Some("ws"));
    assert_eq!(strip_prefix("env/ws", "dev/"), None);
    assert_eq!(strip_suffix("ws.tfstate", ".tfstate"), Some("ws"));
    assert_eq!(strip_suffix(".tfstate", ".tfstate"), Some(""));
    assert_eq!(strip_suffix("ws.tfstat", ".tfstate"), None);
    assert_eq!(strip_suffix("\u{e9}t\u{e9}.tfstate", ".tfstate"), Some("\u{e9}t\u{e9}"));
}

#[test]
fn trimming_takes_the_whole_run() {
    assert_eq!(trim_end_matches("env///", '/'), "env");
    assert_eq!(trim_end_matches("env", '/'), "env");
    assert_eq!(trim_end_matches("///", '/'), "");
    assert_eq!(trim_end_matches("a/b/", '/'), "a/b");
    assert_eq!(trim_start_matches("//ws", '/'), "ws");
    assert_eq!(trim_start_matches("ws/", '/'), "ws/");
    assert_eq!(trim_start_matches("", '/'), "");
}
