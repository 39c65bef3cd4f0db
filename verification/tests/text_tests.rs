use joshagachi_logic::text::{contains_str, str_eq};

#[test]
fn str_eq_compares_characters() {
    assert!(str_eq("abc", "abc"));
    assert!(!str_eq("abc", "abd"));
    assert!(!str_eq("abc", "ab"));
    assert!(str_eq("", ""));
    assert!(str_eq("\u{2642}\u{fe0f}", "\u{2642}\u{fe0f}"));
}

#[test]
fn contains_str_finds_runs() {
    assert!(contains_str("hello world", "lo w"));
    assert!(contains_str("abc", ""));
    assert!(!contains_str("abc", "abcd"));
    assert!(!contains_str("aab", "ba"));
    assert!(contains_str("aab", "ab"));
}
