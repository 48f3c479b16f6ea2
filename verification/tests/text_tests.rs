use github_stars_pocket::text::{
    contains_str, decimal, int_to_string, join, starts_with, str_eq, take_chars, trim, trim_end_matches,
    trim_start_matches,
};

#[test]
fn trim_matches_std_trim() {
    for s in ["  hello  ", "\t\n x y \u{3000}", "", "   ", "\u{a0}a\u{2003}", "no-space"] {
        assert_eq!(trim(s), s.trim());
    }
}

#[test]
fn trim_start_and_end_matches_repeat() {
    assert_eq!(trim_start_matches("``````json[]", "```"), "json[]");
    assert_eq!(trim_end_matches("[]``````", "```"), "[]");
    assert_eq!(trim_end_matches("https://x.io///", "/"), "https://x.io");
    assert_eq!(trim_start_matches("abc", ""), "abc");
}

#[test]
fn contains_and_starts_with() {
    assert!(contains_str("<https://x>; rel=\"next\", <y>; rel=\"last\"", "rel=\"next\""));
    assert!(!contains_str("<y>; rel=\"last\"", "rel=\"next\""));
    assert!(contains_str("abc", ""));
    assert!(starts_with("  Fetching page", "  Fetching"));
    assert!(!starts_with("  Fetch", "  Fetching"));
    assert!(str_eq("a", "a"));
    assert!(!str_eq("a", "ab"));
}

#[test]
fn decimal_text_matches_display() {
    for n in [0u64, 7, 10, 99, 100, 12345, u64::MAX] {
        assert_eq!(decimal(n), n.to_string());
    }
    for n in [0i64, -1, -10, 42, i64::MIN, i64::MAX] {
        assert_eq!(int_to_string(n), n.to_string());
    }
}

#[test]
fn take_and_join() {
    assert_eq!(take_chars("héllo", 2), "hé");
    assert_eq!(take_chars("ab", 5), "ab");
    let items = vec!["a".to_string(), "b".to_string(), "c".to_string()];
    assert_eq!(join(&items, ", "), "a, b, c");
    assert_eq!(join(&Vec::new(), ", "), "");
}
