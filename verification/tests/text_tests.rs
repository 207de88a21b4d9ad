use or4cl3_core::text::contains_ignore_ascii_case;
use or4cl3_core::text::decimal_string;
use or4cl3_core::text::join;
use or4cl3_core::text::str_eq;

#[test]
fn test_contains_ignore_ascii_case() {
    assert!(contains_ignore_ascii_case("The POLICY text", "policy"));
    assert!(contains_ignore_ascii_case("policy", "policy"));
    assert!(contains_ignore_ascii_case("a HiStOrIcAl account", "historical"));
    assert!(!contains_ignore_ascii_case("polic", "policy"));
    assert!(!contains_ignore_ascii_case("", "policy"));
    assert!(contains_ignore_ascii_case("anything", ""));
}

#[test]
fn test_join_strings() {
    assert_eq!(join(&vec![], ", "), "");
    assert_eq!(join(&vec!["one".to_string()], ", "), "one");
    assert_eq!(
        join(&vec!["one".to_string(), "two".to_string(), "three".to_string()], ", "),
        "one, two, three"
    );
}

#[test]
fn test_decimal_string() {
    assert_eq!(decimal_string(0), "0");
    assert_eq!(decimal_string(7), "7");
    assert_eq!(decimal_string(10), "10");
    assert_eq!(decimal_string(1234567), "1234567");
    assert_eq!(decimal_string(u64::MAX), "18446744073709551615");
}

#[test]
fn test_str_eq() {
    assert!(str_eq("", ""));
    assert!(str_eq("same", "same"));
    assert!(!str_eq("same", "sane"));
    assert!(!str_eq("short", "shorter"));
}
