use resume_gen::numbers::{parse_age, u32_to_string};
use resume_gen::validate::{is_all_digits, is_email, is_name_like, is_phone, trim_str};

#[test]
fn name_like_accepts_letters_and_spaces() {
    assert!(is_name_like("John Smith"));
    assert!(is_name_like("Ada"));
    assert!(is_name_like("mary jane watson"));
}

#[test]
fn name_like_rejects_digits_and_punctuation() {
    assert!(!is_name_like("J0hn"));
    assert!(!is_name_like("John-Smith"));
    assert!(!is_name_like("John."));
    assert!(!is_name_like(""));
}

#[test]
fn digits_accepts_digit_strings() {
    assert!(is_all_digits("0"));
    assert!(is_all_digits("2020"));
    assert!(is_all_digits("000123"));
}

#[test]
fn digits_rejects_everything_else() {
    assert!(!is_all_digits(""));
    assert!(!is_all_digits("20a"));
    assert!(!is_all_digits("-3"));
    assert!(!is_all_digits("3.5"));
    assert!(!is_all_digits("+3"));
}

#[test]
fn phone_accepts_hyphenated_digit_groups() {
    assert!(is_phone("+1-555-1234"));
    assert!(is_phone("5551234"));
    assert!(is_phone("555-1234"));
    assert!(is_phone("+15551234"));
}

#[test]
fn phone_rejects_spaces_letters_and_bad_hyphens() {
    assert!(!is_phone("555 1234"));
    assert!(!is_phone("555-12a4"));
    assert!(!is_phone("-5551234"));
    assert!(!is_phone("5551234-"));
    assert!(!is_phone("555--1234"));
    assert!(!is_phone("+"));
    assert!(!is_phone(""));
}

#[test]
fn email_accepts_full_addresses() {
    assert!(is_email("a.b@example.com"));
    assert!(is_email("user_name+tag@sub.domain.org"));
    assert!(is_email("a@b.co"));
}

#[test]
fn email_rejects_missing_parts() {
    assert!(!is_email("a.b@example"));
    assert!(!is_email("not-an-email"));
    assert!(!is_email("@example.com"));
    assert!(!is_email("a@.com"));
    assert!(!is_email("a@b.c"));
    assert!(!is_email("a@b.c0m"));
    assert!(!is_email("a b@example.com"));
    assert!(!is_email(""));
}

#[test]
fn trim_removes_leading_and_trailing_whitespace() {
    assert_eq!(trim_str("  John Smith  "), "John Smith");
    assert_eq!(trim_str("\t37\n"), "37");
    assert_eq!(trim_str("no trim"), "no trim");
    assert_eq!(trim_str("   "), "");
    assert_eq!(trim_str(""), "");
    assert_eq!(trim_str(" inner  space "), "inner  space");
}

#[test]
fn age_parses_digit_strings() {
    assert_eq!(parse_age("37"), 37);
    assert_eq!(parse_age("0"), 0);
    assert_eq!(parse_age("+37"), 37);
    assert_eq!(parse_age("4294967295"), 4294967295);
}

#[test]
fn age_falls_back_to_zero() {
    assert_eq!(parse_age("abc"), 0);
    assert_eq!(parse_age(""), 0);
    assert_eq!(parse_age("-1"), 0);
    assert_eq!(parse_age("3.5"), 0);
    assert_eq!(parse_age("4294967296"), 0);
    assert_eq!(parse_age("99999999999999999999"), 0);
}

#[test]
fn u32_renders_in_decimal() {
    assert_eq!(u32_to_string(0), "0");
    assert_eq!(u32_to_string(7), "7");
    assert_eq!(u32_to_string(37), "37");
    assert_eq!(u32_to_string(1000), "1000");
    assert_eq!(u32_to_string(4294967295), "4294967295");
}
