use pikman_update_manager::text::{
    chars_of, contains_str, i64_to_decimal, str_eq, string_from_chars, string_from_range,
    take_before, trim_end_matches, trim_start_matches, u64_to_decimal,
};

#[test]
fn chars_of_keeps_order() {
    assert_eq!(chars_of("aé1"), vec!['a', 'é', '1']);
    assert_eq!(chars_of(""), Vec::<char>::new());
}

#[test]
fn string_from_range_takes_slice() {
    let v = vec!['a', 'b', 'c', 'd'];
    assert_eq!(string_from_range(&v, 1, 3), "bc");
    assert_eq!(string_from_range(&v, 2, 2), "");
    assert_eq!(string_from_chars(&v), "abcd");
}

#[test]
fn trim_start_matches_removes_every_leading_copy() {
    assert_eq!(trim_start_matches("ababc", "ab"), "c");
    assert_eq!(trim_start_matches("abc", ""), "abc");
    assert_eq!(trim_start_matches("xabc", "ab"), "xabc");
    assert_eq!(trim_start_matches("abab", "ab"), "");
}

#[test]
fn trim_end_matches_removes_every_trailing_copy() {
    assert_eq!(trim_end_matches("foo.sources.sources", ".sources"), "foo");
    assert_eq!(trim_end_matches("foo", ""), "foo");
    assert_eq!(trim_end_matches("foo.list", ".sources"), "foo.list");
}

#[test]
fn decimal_text_of_numbers() {
    assert_eq!(u64_to_decimal(0), "0");
    assert_eq!(u64_to_decimal(1234567890), "1234567890");
    assert_eq!(u64_to_decimal(u64::MAX), u64::MAX.to_string());
    assert_eq!(i64_to_decimal(-1), "-1");
    assert_eq!(i64_to_decimal(-2), "-2");
    assert_eq!(i64_to_decimal(42), "42");
    assert_eq!(i64_to_decimal(i64::MIN), i64::MIN.to_string());
    assert_eq!(i64_to_decimal(i64::MAX), i64::MAX.to_string());
}

#[test]
fn str_eq_compares_characters() {
    assert!(str_eq("abc", "abc"));
    assert!(!str_eq("abc", "abd"));
    assert!(!str_eq("abc", "ab"));
    assert!(str_eq("", ""));
}

#[test]
fn contains_str_finds_runs() {
    assert!(contains_str("linux-image-amd64", "image"));
    assert!(contains_str("abc", ""));
    assert!(!contains_str("abc", "abcd"));
    assert!(!contains_str("abc", "ac"));
    assert!(contains_str("abc", "abc"));
}

#[test]
fn take_before_stops_at_first_stop() {
    assert_eq!(take_before("en_US.UTF-8", '.'), "en_US");
    assert_eq!(take_before("C", '.'), "C");
    assert_eq!(take_before(".x", '.'), "");
}
