use ket::number::parse_u64;
use ket::text::{
    after_last_char, chars_of, contains, eq_ignore_ascii_case, remove_all_str, starts_with, str_eq,
    substring, trim_str,
};

#[test]
fn starts_with_checks_the_prefix() {
    assert!(starts_with("https://example.com", "https://"));
    assert!(!starts_with("http://example.com", "https://"));
    assert!(starts_with("abc", ""));
    assert!(!starts_with("ab", "abc"));
}

#[test]
fn contains_finds_any_occurrence() {
    assert!(contains("https://www.youtube.com/watch", "youtube.com"));
    assert!(contains("abc", ""));
    assert!(!contains("abc", "abcd"));
    assert!(contains("abcabd", "abd"));
    assert!(!contains("abcabd", "abe"));
}

#[test]
fn after_last_char_takes_the_final_segment() {
    assert_eq!(after_last_char("https://example.com/files/a.zip", '/'), "a.zip");
    assert_eq!(after_last_char("https://example.com/", '/'), "");
    assert_eq!(after_last_char("no-slash", '/'), "no-slash");
    assert_eq!(after_last_char("", '/'), "");
}

#[test]
fn trim_removes_unicode_white_space() {
    assert_eq!(trim_str("  hello \t\n"), "hello");
    assert_eq!(trim_str("\u{3000}wide\u{a0}"), "wide");
    assert_eq!(trim_str("   "), "");
    assert_eq!(trim_str("a b"), "a b");
    for s in ["", " x ", "\u{2028}y\u{85}", "z"] {
        assert_eq!(trim_str(s), s.trim());
    }
}

#[test]
fn trim_is_idempotent_on_examples() {
    for s in ["  a  ", "\t\tb", "c\u{2009}", ""] {
        let once = trim_str(s);
        assert_eq!(trim_str(&once), once);
    }
}

#[test]
fn eq_ignore_ascii_case_matches_std() {
    assert!(eq_ignore_ascii_case("QUIT", "quit"));
    assert!(eq_ignore_ascii_case("Exit", "exit"));
    assert!(!eq_ignore_ascii_case("quit!", "quit"));
    assert!(!eq_ignore_ascii_case("É", "é"));
    for (a, b) in [("Q", "q"), ("x", "y"), ("ÄbC", "Äbc")] {
        assert_eq!(eq_ignore_ascii_case(a, b), a.eq_ignore_ascii_case(b));
    }
}

#[test]
fn remove_all_matches_replace() {
    for s in [
        "[download]  45.3% of 10MiB",
        "[download][download]x",
        "[down[download]load]",
        "none here",
        "",
    ] {
        assert_eq!(remove_all_str(s, "[download]"), s.replace("[download]", ""));
    }
}

#[test]
fn str_eq_and_substring() {
    assert!(str_eq("python", "python"));
    assert!(!str_eq("python", "Python"));
    assert_eq!(substring("héllo", 1, 3), "él");
    assert_eq!(chars_of("añb"), vec!['a', 'ñ', 'b']);
}

#[test]
fn parse_u64_follows_from_str() {
    assert_eq!(parse_u64("42"), Some(42));
    assert_eq!(parse_u64("+7"), Some(7));
    assert_eq!(parse_u64("007"), Some(7));
    assert_eq!(parse_u64(""), None);
    assert_eq!(parse_u64("+"), None);
    assert_eq!(parse_u64("-1"), None);
    assert_eq!(parse_u64("12a"), None);
    assert_eq!(parse_u64(" 1"), None);
    assert_eq!(parse_u64("18446744073709551615"), Some(u64::MAX));
    assert_eq!(parse_u64("18446744073709551616"), None);
    for s in ["0", "99999999999999999999", "+0", "1_000", "١"] {
        assert_eq!(parse_u64(s), s.parse::<u64>().ok());
    }
}
