use tkm::parse::{first_word_of, is_whitespace, split_lines, starts_with_str, trim_start_str, trim_str};
use tkm::text::{contains_str, decimal_string, join_path, pad, repeat_string};

#[test]
fn whitespace_matches_std() {
    for c in (0u32..0x3100).filter_map(char::from_u32) {
        assert_eq!(is_whitespace(c), c.is_whitespace(), "{:?}", c);
    }
}

#[test]
fn trimming_matches_std() {
    for s in ["", "  ", " a b ", "\u{3000}x\t\n", "abc"] {
        assert_eq!(trim_str(s), s.trim());
        assert_eq!(trim_start_str(s), s.trim_start());
    }
}

#[test]
fn lines_match_std() {
    for s in ["", "a", "a\n", "a\r\nb", "a\n\nb\n", "\n", "x\r", "a\rb\r\n"] {
        let mine = split_lines(s);
        let std: Vec<String> = s.lines().map(|l| l.to_string()).collect();
        assert_eq!(mine, std, "{:?}", s);
    }
}

#[test]
fn small_string_helpers() {
    assert!(starts_with_str("Token: x", "Token:"));
    assert!(!starts_with_str("Tok", "Token:"));
    assert!(contains_str("abcdef", "cde"));
    assert!(contains_str("abc", ""));
    assert!(!contains_str("abc", "abcd"));
    assert_eq!(decimal_string(0), "0");
    assert_eq!(decimal_string(1234567890), "1234567890");
    assert_eq!(pad("ab", 5), "ab   ");
    assert_eq!(pad("abcdef", 3), "abcdef");
    assert_eq!(repeat_string('-', 3), "---");
    assert_eq!(join_path("/home/u", ".tkm"), "/home/u/.tkm");
    assert_eq!(join_path("/home/u/", ".tkm"), "/home/u/.tkm");
    assert_eq!(join_path("", "x"), "x");
    assert_eq!(join_path("/a", "/b"), "/b");
    let w: Vec<char> = "  host.io as me".chars().collect();
    assert_eq!(first_word_of(&w).as_deref(), Some("host.io"));
    let blank: Vec<char> = "   ".chars().collect();
    assert_eq!(first_word_of(&blank), None);
}
