use agent_core::json::i64_to_dec;
use agent_core::text::{contains_sub, parse_u64, str_eq, str_eq_nocase, trim_ascii, u64_to_dec};

#[test]
fn test_u64_to_dec() {
    assert_eq!(u64_to_dec(0), "0");
    assert_eq!(u64_to_dec(7), "7");
    assert_eq!(u64_to_dec(12345), "12345");
    assert_eq!(u64_to_dec(u64::MAX), "18446744073709551615");
}

#[test]
fn test_i64_to_dec() {
    assert_eq!(i64_to_dec(0), "0");
    assert_eq!(i64_to_dec(42), "42");
    assert_eq!(i64_to_dec(-7), "-7");
    assert_eq!(i64_to_dec(i64::MIN), "-9223372036854775808");
    assert_eq!(i64_to_dec(i64::MAX), "9223372036854775807");
}

#[test]
fn test_parse_u64() {
    assert_eq!(parse_u64("0"), Some(0));
    assert_eq!(parse_u64("00042"), Some(42));
    assert_eq!(parse_u64("18446744073709551615"), Some(u64::MAX));
    assert_eq!(parse_u64("18446744073709551616"), None); // one past the top
    assert_eq!(parse_u64(""), None);
    assert_eq!(parse_u64("12a"), None);
    assert_eq!(parse_u64("-3"), None);
}

#[test]
fn test_contains_sub() {
    assert!(contains_sub("rate limit exceeded", "rate limit"));
    assert!(contains_sub("abc", ""));
    assert!(contains_sub("abc", "abc"));
    assert!(!contains_sub("abc", "abcd"));
    assert!(!contains_sub("rate-limit", "rate limit"));
}

#[test]
fn test_trim_ascii() {
    assert_eq!(trim_ascii("  hello \n"), "hello");
    assert_eq!(trim_ascii("\t\r\n "), "");
    assert_eq!(trim_ascii("inner  spaces"), "inner  spaces");
    assert_eq!(trim_ascii(""), "");
}

#[test]
fn test_str_comparisons() {
    assert!(str_eq("same", "same"));
    assert!(!str_eq("same", "Same"));
    assert!(str_eq_nocase("same", "Same"));
    assert!(str_eq_nocase("JPG", "jpg"));
    assert!(!str_eq_nocase("jpg", "jpeg"));
}
