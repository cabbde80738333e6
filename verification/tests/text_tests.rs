use voclip::text::{
    chars_of, contains_str, decimal_string, eq_ignore_ascii_case, join2, join3, pad_right,
    parse_u32, str_eq, trim,
};

#[test]
fn decimal_strings() {
    assert_eq!(decimal_string(0), "0");
    assert_eq!(decimal_string(7), "7");
    assert_eq!(decimal_string(10), "10");
    assert_eq!(decimal_string(3000), "3000");
    assert_eq!(decimal_string(u64::MAX), "18446744073709551615");
}

#[test]
fn parse_u32_like_std() {
    for s in ["0", "42", "+42", "4294967295", "", "+", "-1", "4294967296", " 1", "1a", "00012", "+-1"] {
        assert_eq!(parse_u32(s), s.parse::<u32>().ok(), "input {s:?}");
    }
}

#[test]
fn substring_search() {
    assert!(contains_str("HDA Intel PCH", "Intel"));
    assert!(contains_str("abc", ""));
    assert!(contains_str("abc", "abc"));
    assert!(!contains_str("abc", "abcd"));
    assert!(!contains_str("abc", "ac"));
    assert!(contains_str("aab", "ab"));
}

#[test]
fn ascii_case_insensitive_equality() {
    assert!(eq_ignore_ascii_case("R", "r"));
    assert!(eq_ignore_ascii_case("Hello", "hELLO"));
    assert!(!eq_ignore_ascii_case("r", "rr"));
    assert!(!eq_ignore_ascii_case("É", "é"));
}

#[test]
fn joining_and_padding() {
    assert_eq!(join2("ab", "cd"), "abcd");
    assert_eq!(join3("a", "", "c"), "ac");
    assert_eq!(pad_right("ab", 5), "ab   ");
    assert_eq!(pad_right("abcdef", 3), "abcdef");
    assert_eq!(pad_right("ü", 3), "ü  ");
    assert!(str_eq("x", "x"));
    assert!(!str_eq("x", "y"));
    assert_eq!(chars_of("añb"), vec!['a', 'ñ', 'b']);
}

#[test]
fn trim_removes_unicode_white_space_at_both_ends() {
    assert_eq!(trim("  hello world \n"), "hello world");
    assert_eq!(trim("\u{3000}\tx\u{a0}"), "x");
    assert_eq!(trim(" \n\t "), "");
    assert_eq!(trim("a"), "a");
}
