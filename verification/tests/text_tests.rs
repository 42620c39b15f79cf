use hacksquad::text::{decimal_string, position_of, signed_decimal_string, starts_with, str_eq};

#[test]
fn decimal_renders_digits() {
    assert_eq!(decimal_string(0), "0");
    assert_eq!(decimal_string(7), "7");
    assert_eq!(decimal_string(1234), "1234");
    assert_eq!(decimal_string(u64::MAX), "18446744073709551615");
}

#[test]
fn signed_decimal_renders_sign() {
    assert_eq!(signed_decimal_string(-42), "-42");
    assert_eq!(signed_decimal_string(0), "0");
    assert_eq!(signed_decimal_string(1462015105), "1462015105");
    assert_eq!(signed_decimal_string(i64::MIN), "-9223372036854775808");
}

#[test]
fn prefix_test() {
    assert!(starts_with("hacksquad", "hack"));
    assert!(starts_with("hacksquad", ""));
    assert!(!starts_with("hack", "hacksquad"));
    assert!(!starts_with("hacksquad", "squad"));
    assert!(starts_with("🥇gold", "🥇"));
}

#[test]
fn string_equality() {
    assert!(str_eq("team", "team"));
    assert!(!str_eq("team", "teams"));
}

#[test]
fn first_position() {
    let items = vec!["a".to_string(), "b".to_string(), "a".to_string()];
    assert_eq!(position_of(&items, &"a".to_string()), 0);
    assert_eq!(position_of(&items, &"b".to_string()), 1);
    assert_eq!(position_of(&items, &"c".to_string()), 3);
}
