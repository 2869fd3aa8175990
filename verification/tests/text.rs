use intel_mac_parity::text::{
    chars_of, is_space_char, parse_u64, parse_usize, split_lines_str, str_contains, str_equal,
    str_starts_with, trim_str,
};

#[test]
fn trim_removes_ascii_whitespace_at_both_ends() {
    assert_eq!(trim_str(" \t performance \n"), "performance");
    assert_eq!(trim_str("\n"), "");
    assert_eq!(trim_str(""), "");
    assert_eq!(trim_str("a b"), "a b");
}

#[test]
fn trim_removes_unicode_whitespace() {
    assert_eq!(trim_str("\u{3000}x\u{a0}\u{2009}"), "x");
    assert_eq!(trim_str("\u{85}y\u{205f}"), "y");
}

#[test]
fn trim_agrees_with_std() {
    for s in ["  a  ", "\r\n10\r\n", "\u{2028}z\u{2029}", "[always] madvise never\n", "\u{b}\u{c}q"] {
        assert_eq!(trim_str(s), s.trim());
    }
}

#[test]
fn trim_is_idempotent_on_examples() {
    for s in [" a ", "\t\tb\n", "", "   "] {
        assert_eq!(trim_str(trim_str(s)), trim_str(s));
    }
}

#[test]
fn whitespace_class_matches_std() {
    for c in [' ', '\t', '\n', '\r', '\u{85}', '\u{a0}', '\u{1680}', '\u{2000}', '\u{200a}', '\u{3000}', 'a', '0', '\u{200b}', '\u{180e}'] {
        assert_eq!(is_space_char(c), c.is_whitespace(), "char {:?}", c);
    }
}

#[test]
fn substring_search() {
    assert!(str_contains("[always] madvise never", "[always]"));
    assert!(!str_contains("always [madvise] never", "[always]"));
    assert!(str_contains("abc", ""));
    assert!(str_contains("", ""));
    assert!(!str_contains("", "a"));
    assert!(!str_contains("ab", "abc"));
    assert!(str_contains("/opt/intel/openvino/lib", "openvino"));
}

#[test]
fn prefix_test() {
    assert!(str_starts_with("cpu12", "cpu"));
    assert!(!str_starts_with("cp", "cpu"));
    assert!(str_starts_with("x", ""));
}

#[test]
fn equality_of_slices() {
    assert!(str_equal("10", "10"));
    assert!(!str_equal("10", "100"));
    assert!(!str_equal("ab", "ba"));
}

#[test]
fn chars_of_keeps_every_char() {
    assert_eq!(chars_of("a✓b"), vec!['a', '✓', 'b']);
}

#[test]
fn parse_u64_like_std() {
    assert_eq!(parse_u64("4500000"), Some(4500000));
    assert_eq!(parse_u64("+42"), Some(42));
    assert_eq!(parse_u64("0"), Some(0));
    assert_eq!(parse_u64("007"), Some(7));
    assert_eq!(parse_u64(""), None);
    assert_eq!(parse_u64("+"), None);
    assert_eq!(parse_u64("-"), None);
    assert_eq!(parse_u64("-1"), None);
    assert_eq!(parse_u64("++1"), None);
    assert_eq!(parse_u64("12a"), None);
    assert_eq!(parse_u64(" 1"), None);
    assert_eq!(parse_u64("18446744073709551615"), Some(u64::MAX));
    assert_eq!(parse_u64("18446744073709551616"), None);
    assert_eq!(parse_u64("99999999999999999999x"), None);
    for s in ["1", "+9", "", "x", "-0", "123456789012", "18446744073709551616"] {
        assert_eq!(parse_u64(s), s.parse::<u64>().ok(), "input {:?}", s);
    }
}

#[test]
fn parse_usize_like_std() {
    for s in ["12", "+3", "", "cpu", "18446744073709551615", "99999999999999999999"] {
        assert_eq!(parse_usize(s), s.parse::<usize>().ok(), "input {:?}", s);
    }
}

#[test]
fn lines_like_std() {
    assert_eq!(split_lines_str("a\r\nb\n\nc"), vec!["a", "b", "", "c"]);
    assert_eq!(split_lines_str("a\n"), vec!["a"]);
    assert_eq!(split_lines_str(""), Vec::<&str>::new());
    assert_eq!(split_lines_str("\n"), vec![""]);
    assert_eq!(split_lines_str("x\r"), vec!["x\r"]);
    for s in ["one\ntwo\r\nthree\r", "\r\n\r\n", "no newline", "a\n\r\nb\n"] {
        assert_eq!(split_lines_str(s), s.lines().collect::<Vec<_>>(), "input {:?}", s);
    }
}
