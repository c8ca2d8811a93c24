use cw20_reflection::rate::{Rate, DECIMAL_FRACTIONAL};

#[test]
fn rate_new_accepts_up_to_one() {
    assert!(Rate::new(0).is_some());
    assert!(Rate::new(DECIMAL_FRACTIONAL).is_some());
    assert!(Rate::new(DECIMAL_FRACTIONAL + 1).is_none());
}

#[test]
fn rate_percent_matches_decimal() {
    let ten = Rate::percent(10).unwrap();
    assert_eq!(ten.atomics(), cosmwasm_std::Decimal::percent(10).atomics().u128());
    assert!(Rate::percent(101).is_none());
}

#[test]
fn rate_apply_floors_the_product() {
    let ten = Rate::percent(10).unwrap();
    assert_eq!(ten.apply(100_000), 10_000);
    assert_eq!(ten.apply(9), 0);
    assert_eq!(ten.apply(19), 1);
    let third = Rate::new(333_333_333_333_333_333).unwrap();
    assert_eq!(third.apply(3), 0);
    assert_eq!(third.apply(1_000_000), 333_333);
    assert_eq!(Rate::one().apply(u128::MAX), u128::MAX);
    assert_eq!(Rate::zero().apply(u128::MAX), 0);
}

#[test]
fn rate_complement_is_one_minus() {
    let ten = Rate::percent(10).unwrap();
    assert_eq!(ten.complement().atomics(), 900_000_000_000_000_000);
    assert_eq!(ten.complement().apply(100_000), 90_000);
}
