use extension_gui::strings::{split_lines, str_ends_with, str_starts_with, trim_chars};
use extension_gui::text::{concat_str, indexed_id, parse_indexed_id, string_from_chars, usize_to_string};

fn lines(s: &str) -> Vec<String> {
    split_lines(s).into_iter().map(|l| l.into_iter().collect()).collect()
}

#[test]
fn lines_split_like_str_lines() {
    assert_eq!(lines("a\nb\r\nc"), vec!["a", "b", "c"]);
    assert_eq!(lines("a\n"), vec!["a"]);
    assert_eq!(lines(""), Vec::<String>::new());
    assert_eq!(lines("\n\nx"), vec!["", "", "x"]);
    assert_eq!(lines("x\r"), vec!["x\r"]);
    for s in ["a\nb\r\nc", "a\n", "", "\n\nx", "x\r", "\r\n"] {
        let expected: Vec<String> = s.lines().map(|l| l.to_string()).collect();
        assert_eq!(lines(s), expected);
    }
}

#[test]
fn trimming_matches_str_trim() {
    for s in ["  a b \t", "\u{3000}x\u{a0}", "   ", "", "x"] {
        let chars: Vec<char> = s.chars().collect();
        let t: String = trim_chars(&chars).into_iter().collect();
        assert_eq!(t, s.trim());
    }
}

#[test]
fn prefixes_and_suffixes() {
    assert!(str_starts_with(".git", "."));
    assert!(!str_starts_with("", "."));
    assert!(str_ends_with("main.rs", ".rs"));
    assert!(!str_ends_with("rs", ".rs"));
}

#[test]
fn numbers_and_ids() {
    assert_eq!(usize_to_string(0), "0");
    assert_eq!(usize_to_string(120), "120");
    assert_eq!(indexed_id("stage-file-", 12), "stage-file-12");
    assert_eq!(parse_indexed_id("stage-file-12", "stage-file-"), Some(12));
    assert_eq!(parse_indexed_id("stage-file-+3", "stage-file-"), Some(3));
    assert_eq!(parse_indexed_id("stage-file-", "stage-file-"), None);
    assert_eq!(parse_indexed_id("stage-file-x", "stage-file-"), None);
    assert_eq!(parse_indexed_id("unstage-file-1", "stage-file-"), None);
    assert_eq!(parse_indexed_id("entry-99999999999999999999999", "entry-"), None);
}

#[test]
fn strings_from_characters() {
    assert_eq!(string_from_chars(&['a', 'é', 'z']), "aéz");
    assert_eq!(concat_str("ab", "cd"), "abcd");
}
