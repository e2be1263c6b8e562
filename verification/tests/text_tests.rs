use ferrosonic::text::{
    chars_of, decimal_string, eq_ignore_ascii_case, padded_right, text_contains, text_equals,
};

#[test]
fn substring_search() {
    assert!(text_contains("hello world", "o w"));
    assert!(text_contains("hello", ""));
    assert!(text_contains("", ""));
    assert!(!text_contains("", "a"));
    assert!(!text_contains("abc", "abcd"));
    assert!(text_contains("héllo", "él"));
    assert!(!text_contains("hello", "L"));
}

#[test]
fn case_folding() {
    assert!(eq_ignore_ascii_case("Tokyo Night", "tokyo NIGHT"));
    assert!(!eq_ignore_ascii_case("Nord", "Nordic"));
    assert!(!eq_ignore_ascii_case("É", "é"));
    assert!(text_equals("ok", "ok"));
    assert!(!text_equals("ok", "OK"));
}

#[test]
fn chars_and_numbers() {
    assert_eq!(chars_of("añb"), vec!['a', 'ñ', 'b']);
    assert_eq!(decimal_string(0), "0");
    assert_eq!(decimal_string(9), "9");
    assert_eq!(decimal_string(10), "10");
    assert_eq!(decimal_string(u64::MAX), u64::MAX.to_string());
    assert_eq!(padded_right("ab", 4), "ab  ");
    assert_eq!(padded_right("abcde", 4), "abcde");
}
