use margined_engine::Integer;
use margined_engine::{parse_integer, parse_u128, parse_u64};

#[test]
fn test_funding_payment_display() {
    let value = Integer::new_negative(5000u128);
    assert_eq!(value.to_string(), "-5000");
}

#[test]
fn test_integer_display_positive_and_zero() {
    assert_eq!(Integer::new_positive(123456789).to_string(), "123456789");
    assert_eq!(Integer::zero().to_string(), "0");
    assert_eq!(Integer::new_negative(0).to_string(), "0");
}

#[test]
fn test_integer_arithmetic() {
    let a = Integer::new_positive(10);
    let b = Integer::new_negative(4);
    assert_eq!(a.checked_add(&b).unwrap(), Integer::new_positive(6));
    assert_eq!(b.checked_add(&a).unwrap(), Integer::new_positive(6));
    assert_eq!(a.checked_sub(&b).unwrap(), Integer::new_positive(14));
    assert_eq!(b.checked_sub(&a).unwrap(), Integer::new_negative(14));
    assert_eq!(a.checked_mul(&b).unwrap(), Integer::new_negative(40));
    // division truncates towards zero
    assert_eq!(
        Integer::new_negative(7).checked_div(&Integer::new_positive(2)).unwrap(),
        Integer::new_negative(3)
    );
    assert_eq!(Integer::new_positive(7).checked_div(&Integer::zero()), None);
    // overflow is reported, not wrapped
    let max = Integer::new_positive(u128::MAX);
    assert_eq!(max.checked_add(&Integer::new_positive(1)), None);
}

#[test]
fn test_integer_comparisons() {
    let neg = Integer::new_negative(5);
    let pos = Integer::new_positive(3);
    assert!(neg.is_lt(&pos));
    assert!(pos.is_gt(&neg));
    assert!(neg.is_le(&Integer::new_negative(5)));
    assert!(pos.is_ge(&pos));
    assert!(neg.is_negative());
    assert!(pos.is_positive());
    assert!(Integer::zero().is_zero());
    assert!(!Integer::zero().is_negative());
    assert!(!Integer::zero().is_positive());
}

#[test]
fn test_integer_abs_and_invert() {
    assert_eq!(Integer::new_negative(9).abs(), Integer::new_positive(9));
    assert_eq!(Integer::new_negative(9).invert_sign(), Integer::new_positive(9));
    assert_eq!(Integer::zero().invert_sign(), Integer::zero());
}

#[test]
fn test_parse_decimal_strings() {
    assert_eq!(parse_u128(&"0".to_string()).unwrap(), 0);
    assert_eq!(parse_u128(&"340282366920938463463374607431768211455".to_string()).unwrap(), u128::MAX);
    assert!(parse_u128(&"".to_string()).is_err());
    assert!(parse_u128(&"12a".to_string()).is_err());
    assert!(parse_u128(&"340282366920938463463374607431768211456".to_string()).is_err());
    assert_eq!(parse_u64(&"18446744073709551615".to_string()).unwrap(), u64::MAX);
    assert!(parse_u64(&"18446744073709551616".to_string()).is_err());
}

#[test]
fn test_parse_integer_round_trip() {
    let v = Integer::new_negative(987654321);
    assert_eq!(parse_integer(&v.to_string()).unwrap(), v);
    let w = Integer::new_positive(123);
    assert_eq!(parse_integer(&w.to_string()).unwrap(), w);
    assert_eq!(parse_integer(&"-5000".to_string()).unwrap(), Integer::new_negative(5000));
    assert!(parse_integer(&"-".to_string()).is_err());
}
