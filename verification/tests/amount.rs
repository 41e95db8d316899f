use payments_engine::payment_engine::account::Account;
use payments_engine::payment_engine::amount::{Amount, MAX_MANTISSA, MAX_SCALE};
use rust_decimal::Decimal;
use std::str::FromStr;

fn d(v: &str) -> Amount {
    let x = Decimal::from_str(v).unwrap();
    Amount::from_parts(x.mantissa(), x.scale()).unwrap()
}

#[test]
fn from_parts_accepts_the_decimal_range_only() {
    assert!(Amount::from_parts(MAX_MANTISSA, MAX_SCALE).is_some());
    assert!(Amount::from_parts(-MAX_MANTISSA, 0).is_some());
    assert!(Amount::from_parts(MAX_MANTISSA + 1, 0).is_none());
    assert!(Amount::from_parts(-MAX_MANTISSA - 1, 0).is_none());
    assert!(Amount::from_parts(1, MAX_SCALE + 1).is_none());
    let a = Amount::from_parts(-12345, 3).unwrap();
    assert_eq!(a.mantissa(), -12345);
    assert_eq!(a.scale(), 3);
}

#[test]
fn equality_is_by_value() {
    assert_eq!(d("1.5"), d("1.5000"));
    assert_ne!(d("1.5"), d("1.05"));
    assert_eq!(Amount::zero(), d("0.000"));
}

#[test]
fn checked_add_adds_values_across_scales() {
    let s = d("1.25").checked_add(d("2.5")).unwrap();
    assert_eq!(s, d("3.75"));
    assert_eq!(s.mantissa(), 375);
    assert_eq!(s.scale(), 2);
}

#[test]
fn checked_add_overflows_at_the_maximum() {
    let max = Amount::from_parts(MAX_MANTISSA, 0).unwrap();
    assert!(max.checked_add(d("1")).is_none());
    assert_eq!(max.checked_add(d("-1")).unwrap().mantissa(), MAX_MANTISSA - 1);
}

#[test]
fn checked_sub_subtracts_values() {
    let r = d("1").checked_sub(d("2.5")).unwrap();
    assert_eq!(r, d("-1.5"));
    let min = Amount::from_parts(-MAX_MANTISSA, 0).unwrap();
    assert!(min.checked_sub(d("1")).is_none());
}

#[test]
fn comparisons_are_by_value() {
    assert!(d("1.5").le(&d("1.50")));
    assert!(!d("1.5").lt(&d("1.50")));
    assert!(d("0.99").lt(&d("1")));
    assert!(!d("2").le(&d("1.999")));
    assert!(d("0.0001").is_positive());
    assert!(!d("0.0000").is_positive());
    assert!(!d("-3").is_positive());
}

#[test]
fn new_account_is_empty_and_unlocked() {
    let a = Account::new();
    assert_eq!(a.available, Amount::zero());
    assert_eq!(a.held, Amount::zero());
    assert!(!a.is_locked);
    assert_eq!(a.total(), Amount::zero());
}

#[test]
fn total_is_available_plus_held() {
    let a = Account { available: d("10.5"), held: d("2.25"), is_locked: false };
    assert_eq!(a.total(), d("12.75"));
    assert_eq!(a.try_total(), Some(d("12.75")));
}

#[test]
fn try_total_reports_overflow() {
    let max = Amount::from_parts(MAX_MANTISSA, 0).unwrap();
    let a = Account { available: max, held: max, is_locked: false };
    assert!(a.try_total().is_none());
}

#[test]
fn sum_exact_at_a_smaller_scale_is_exact() {
    let five = Amount::from_parts(50_000_000_000_000_000_000_000_000_000, 28).unwrap();
    let s = five.checked_add(d("5")).unwrap();
    assert_eq!(s, d("10"));
    assert!(s.scale() <= 28);
}

#[test]
fn rounded_difference_keeps_its_sign() {
    let big = d("70000000000000000000000000000");
    let tiny = Amount::from_parts(1, 28).unwrap();
    let r = big.checked_sub(tiny).unwrap();
    assert!(r.is_positive());
    assert_eq!(r, big);
}
