use pallet_dex::helpers::{scale_by_decimals, ArithmeticError, TryAdd, TryDiv, TryMul, TrySub};

#[test]
fn try_add_reports_overflow() {
    assert_eq!(1u64.try_add(&2), Ok(3));
    assert_eq!(u64::MAX.try_add(&1), Err(ArithmeticError::Overflow));
}

#[test]
fn try_sub_reports_underflow() {
    assert_eq!(3u64.try_sub(&2), Ok(1));
    assert_eq!(2u64.try_sub(&3), Err(ArithmeticError::Underflow));
}

#[test]
fn try_mul_reports_overflow() {
    assert_eq!(6u64.try_mul(&7), Ok(42));
    assert_eq!(u64::MAX.try_mul(&2), Err(ArithmeticError::Overflow));
}

#[test]
fn try_div_reports_zero_divisor() {
    assert_eq!(7u64.try_div(&2), Ok(3));
    assert_eq!(7u64.try_div(&0), Err(ArithmeticError::DivisionByZero));
}

#[test]
fn try_add_reaches_the_largest_value() {
    assert_eq!((u64::MAX - 1).try_add(&1), Ok(u64::MAX));
    assert_eq!(0u64.try_add(&0), Ok(0));
}

#[test]
fn try_sub_reaches_zero() {
    assert_eq!(5u64.try_sub(&5), Ok(0));
    assert_eq!(0u64.try_sub(&1), Err(ArithmeticError::Underflow));
}

#[test]
fn try_mul_is_exact_at_the_edge() {
    assert_eq!(4_294_967_296u64.try_mul(&4_294_967_295), Ok(18_446_744_069_414_584_320));
    assert_eq!(4_294_967_296u64.try_mul(&4_294_967_296), Err(ArithmeticError::Overflow));
    assert_eq!(u64::MAX.try_mul(&0), Ok(0));
}

#[test]
fn try_div_rounds_down() {
    assert_eq!(9u64.try_div(&10), Ok(0));
    assert_eq!(0u64.try_div(&0), Err(ArithmeticError::DivisionByZero));
    assert_eq!(u64::MAX.try_div(&1), Ok(u64::MAX));
}

#[test]
fn scale_by_decimals_multiplies_by_a_power_of_ten() {
    assert_eq!(scale_by_decimals(100, 0), Ok(100));
    assert_eq!(scale_by_decimals(100, 6), Ok(100_000_000));
    assert_eq!(scale_by_decimals(1, 19), Ok(10_000_000_000_000_000_000));
    assert_eq!(scale_by_decimals(100, 17), Ok(10_000_000_000_000_000_000));
    assert_eq!(scale_by_decimals(0, 255), Ok(0));
}

#[test]
fn scale_by_decimals_reports_overflow() {
    assert_eq!(scale_by_decimals(100, 18), Err(ArithmeticError::Overflow));
    assert_eq!(scale_by_decimals(1, 20), Err(ArithmeticError::Overflow));
    assert_eq!(scale_by_decimals(2, 19), Err(ArithmeticError::Overflow));
    assert_eq!(scale_by_decimals(1, 255), Err(ArithmeticError::Overflow));
}
