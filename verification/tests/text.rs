use notify_rust::text::{clone_optional, holds, signed_to_decimal, str_eq, unsigned_to_decimal};

#[test]
fn equal_strings_are_equal() {
    assert!(str_eq("", ""));
    assert!(str_eq("urgency", "urgency"));
    assert!(str_eq("gr\u{fc}\u{df}e \u{261d}", "gr\u{fc}\u{df}e \u{261d}"));
}

#[test]
fn different_strings_are_different() {
    assert!(!str_eq("urgency", "urgenc"));
    assert!(!str_eq("urgency", "urgencz"));
    assert!(!str_eq("", "x"));
    assert!(!str_eq("image-data", "image-path"));
}

#[test]
fn unsigned_numbers_in_decimal() {
    assert_eq!(unsigned_to_decimal(0), "0");
    assert_eq!(unsigned_to_decimal(7), "7");
    assert_eq!(unsigned_to_decimal(10), "10");
    assert_eq!(unsigned_to_decimal(5000), "5000");
    assert_eq!(unsigned_to_decimal(1234567890), "1234567890");
    assert_eq!(unsigned_to_decimal(u64::MAX), "18446744073709551615");
}

#[test]
fn signed_numbers_in_decimal() {
    assert_eq!(signed_to_decimal(0), "0");
    assert_eq!(signed_to_decimal(-1), "-1");
    assert_eq!(signed_to_decimal(42), "42");
    assert_eq!(signed_to_decimal(-1000), "-1000");
    assert_eq!(signed_to_decimal(i64::MAX), "9223372036854775807");
    assert_eq!(signed_to_decimal(i64::MIN), "-9223372036854775808");
}

#[test]
fn an_optional_string_holds_its_text_only() {
    assert!(holds(&Some("Notify".to_owned()), "Notify"));
    assert!(!holds(&Some("Notify".to_owned()), "Stop"));
    assert!(!holds(&Some("".to_owned()), "Stop"));
    assert!(!holds(&None, "Notify"));
    assert!(!holds(&None, ""));
}

#[test]
fn a_copy_of_an_optional_string() {
    assert_eq!(clone_optional(&Some("a".to_owned())), Some("a".to_owned()));
    assert_eq!(clone_optional(&None), None);
}
