use ironshield_api::encoding::{int_to_decimal, nat_to_decimal};
use ironshield_api::model::{param_is_zero, starts_with};

#[test]
fn decimal_of_naturals() {
    assert_eq!(nat_to_decimal(0), "0");
    assert_eq!(nat_to_decimal(7), "7");
    assert_eq!(nat_to_decimal(10), "10");
    assert_eq!(nat_to_decimal(1_755_401_375_880), "1755401375880");
    assert_eq!(nat_to_decimal(u64::MAX), u64::MAX.to_string());
}

#[test]
fn decimal_of_integers_matches_display() {
    for v in [0i64, 1, -1, 42, -42, 3_600_000, i64::MAX, i64::MIN, i64::MIN + 1] {
        assert_eq!(int_to_decimal(v), v.to_string());
    }
}

#[test]
fn zero_param_detection() {
    assert!(param_is_zero(&[0u8; 32]));
    let mut p = [0u8; 32];
    p[0] = 0x80;
    assert!(!param_is_zero(&p));
    assert!(!param_is_zero(&[0xFF; 32]));
}

#[test]
fn prefix_test() {
    assert!(starts_with("https://a", "https://"));
    assert!(starts_with("abc", ""));
    assert!(!starts_with("http", "https://"));
    assert!(!starts_with("http://x", "https://"));
}
