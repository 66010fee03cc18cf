use user_permission::text::{bool_str, debug_str, debug_string_list, decimal_string, text_equals};

#[test]
fn decimal_string_matches_display() {
    let values: Vec<i64> = vec![0, 7, -7, 10, 42, -100, 1234567890, i64::MAX, i64::MIN, -1];
    for v in values {
        assert_eq!(decimal_string(v), v.to_string());
    }
}

#[test]
fn decimal_string_exact_values() {
    assert_eq!(decimal_string(0), "0");
    assert_eq!(decimal_string(-9), "-9");
    assert_eq!(decimal_string(9223372036854775807), "9223372036854775807");
    assert_eq!(decimal_string(-9223372036854775808), "-9223372036854775808");
}

#[test]
fn bool_str_matches_display() {
    assert_eq!(bool_str(true), "true");
    assert_eq!(bool_str(false), "false");
}

#[test]
fn debug_str_quotes_and_escapes() {
    assert_eq!(debug_str("alice"), "\"alice\"");
    assert_eq!(debug_str("a\"b"), "\"a\\\"b\"");
    assert_eq!(debug_str("line\nbreak"), "\"line\\nbreak\"");
    assert_eq!(debug_str(""), "\"\"");
}

#[test]
fn debug_string_list_matches_debug() {
    let empty: Vec<String> = vec![];
    assert_eq!(debug_string_list(&empty), "[]");
    let one = vec!["users:read".to_string()];
    assert_eq!(debug_string_list(&one), "[\"users:read\"]");
    let two = vec!["users:read".to_string(), "groups:read".to_string()];
    assert_eq!(debug_string_list(&two), format!("{:?}", two));
    let odd = vec!["a\"b".to_string(), "".to_string(), "c\\d".to_string()];
    assert_eq!(debug_string_list(&odd), format!("{:?}", odd));
}

#[test]
fn text_equals_compares_characters() {
    assert!(text_equals("HS256", "HS256"));
    assert!(!text_equals("HS256", "hs256"));
    assert!(!text_equals("", "a"));
    assert!(text_equals("", ""));
}
