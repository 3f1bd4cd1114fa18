use std::str::FromStr;

use rust_decimal::Decimal;
use txledger::amount::{Amount, MAX_SCALE, MAX_UNITS};

fn amount(s: &str) -> Amount {
    let d = Decimal::from_str(s).unwrap();
    Amount::new(d.mantissa(), d.scale()).unwrap()
}

#[test]
fn new_accepts_the_representable_range() {
    assert!(Amount::new(MAX_UNITS, 0).is_some());
    assert!(Amount::new(-MAX_UNITS, MAX_SCALE).is_some());
    assert!(Amount::new(0, 0).is_some());
}

#[test]
fn new_rejects_out_of_range_values() {
    assert!(Amount::new(MAX_UNITS + 1, 0).is_none());
    assert!(Amount::new(-MAX_UNITS - 1, 0).is_none());
    assert!(Amount::new(1, MAX_SCALE + 1).is_none());
}

#[test]
fn addition_aligns_scales_exactly() {
    let a = amount("1.25");
    let b = amount("2.5");
    let c = a.checked_add(b).unwrap();
    assert!(c.eq_value(&amount("3.75")));
    assert_eq!(c.scale, 2);
    assert_eq!(c.units, 375);
}

#[test]
fn subtraction_may_go_negative() {
    let a = amount("10");
    let b = amount("20.5");
    let c = a.checked_sub(b).unwrap();
    assert!(c.eq_value(&amount("-10.5")));
}

#[test]
fn addition_reports_an_unrepresentable_sum() {
    let a = Amount::new(MAX_UNITS, 0).unwrap();
    let b = Amount::new(1, 0).unwrap();
    assert!(a.checked_add(b).is_none());
    assert!(a.checked_sub(b).is_some());
    let n = Amount::new(-MAX_UNITS, 0).unwrap();
    assert!(n.checked_sub(b).is_none());
}

#[test]
fn addition_reports_overflow_across_scales() {
    let a = Amount::new(MAX_UNITS, 0).unwrap();
    let tiny = Amount::new(1, MAX_SCALE).unwrap();
    assert!(a.checked_add(tiny).is_none());
}

#[test]
fn value_equality_ignores_trailing_zeros() {
    assert!(amount("2.0").eq_value(&amount("2")));
    assert!(amount("2.000").eq_value(&amount("2.0")));
    assert!(!amount("2.0").eq_value(&amount("0.2")));
    assert!(!amount("2").eq_value(&amount("-2")));
}

#[test]
fn negation_flips_the_sign() {
    let a = amount("3.5");
    let n = a.neg();
    assert!(n.eq_value(&amount("-3.5")));
    assert!(n.neg().eq_value(&a));
}

#[test]
fn zero_is_the_additive_identity() {
    let a = amount("7.25");
    let z = Amount::zero();
    assert!(a.checked_add(z).unwrap().eq_value(&a));
    assert!(a.checked_sub(z).unwrap().eq_value(&a));
    assert!(z.checked_add(z).unwrap().eq_value(&z));
}
