use position_manager::Decimal;

#[test]
fn new_scales_by_powers_of_ten() {
    assert_eq!(Decimal::new(25, 1).to_raw(), 2_500_000_000);
    assert_eq!(Decimal::new(-3, 0).to_raw(), -3_000_000_000);
    assert_eq!(Decimal::new(197, 9).to_raw(), 197);
    assert_eq!(Decimal::new(0, 5).to_raw(), 0);
}

#[test]
fn arithmetic_is_exact_for_sums() {
    let a = Decimal::new(15, 1);
    let b = Decimal::new(25, 1);
    assert_eq!(a.add(b), Decimal::new(4, 0));
    assert_eq!(a.sub(b), Decimal::new(-1, 0));
}

#[test]
fn multiplication_truncates_toward_zero() {
    assert_eq!(Decimal::new(15, 1).mul(Decimal::new(2, 0)), Decimal::new(3, 0));
    // one billionth squared truncates to zero
    assert_eq!(Decimal::from_raw(1).mul(Decimal::from_raw(1)), Decimal::from_raw(0));
    assert_eq!(Decimal::from_raw(-1).mul(Decimal::from_raw(1)), Decimal::from_raw(0));
}

#[test]
fn division_truncates_toward_zero() {
    let third = Decimal::new(1, 0).div(Decimal::new(3, 0));
    assert_eq!(third.to_raw(), 333_333_333);
    let neg = Decimal::new(-1, 0).div(Decimal::new(3, 0));
    assert_eq!(neg.to_raw(), -333_333_333);
}

#[test]
fn comparisons_and_signs() {
    let a = Decimal::new(-2, 0);
    let b = Decimal::new(2, 0);
    assert!(a.lt(b));
    assert!(b.gt(a));
    assert!(a.le(a));
    assert!(b.ge(b));
    assert!(!a.is_zero());
    assert!(Decimal::zero().is_zero());
    assert_eq!(a.abs(), b);
    assert_eq!(Decimal::one().to_raw(), 1_000_000_000);
}
