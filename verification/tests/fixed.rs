use carveout::fixed::{floor_div, raw_product, wide_product, Fixed, ONE_RAW, RAW_LIMIT};

#[test]
fn from_int_scales_by_one() {
    assert_eq!(Fixed::from_int(3).raw(), 3 * ONE_RAW);
    assert_eq!(Fixed::from_int(-7).raw(), -7 * ONE_RAW);
    assert_eq!(Fixed::zero().raw(), 0);
    assert_eq!(Fixed::one().raw(), ONE_RAW);
}

#[test]
fn from_int_saturates() {
    assert_eq!(Fixed::from_int(i32::MAX).raw(), RAW_LIMIT);
    assert_eq!(Fixed::from_int(i32::MIN).raw(), -RAW_LIMIT);
}

#[test]
fn from_raw_clamps_into_range() {
    assert_eq!(Fixed::from_raw(i64::MAX).raw(), RAW_LIMIT);
    assert_eq!(Fixed::from_raw(i64::MIN).raw(), -RAW_LIMIT);
    assert_eq!(Fixed::from_raw(RAW_LIMIT).raw(), RAW_LIMIT);
    assert_eq!(Fixed::from_raw(12345).raw(), 12345);
}

#[test]
fn from_ratio_rounds_down() {
    assert_eq!(Fixed::from_ratio(1, 10).raw(), 429_496_729);
    assert_eq!(Fixed::from_ratio(-1, 10).raw(), -429_496_730);
    assert_eq!(Fixed::from_ratio(1, 2).raw(), ONE_RAW / 2);
    assert_eq!(Fixed::from_ratio(3, 1000).raw(), 12_884_901);
}

#[test]
fn add_and_sub_saturate() {
    let big = Fixed::from_raw(RAW_LIMIT);
    assert_eq!(big.add(Fixed::one()).raw(), RAW_LIMIT);
    assert_eq!(big.neg().sub(Fixed::one()).raw(), -RAW_LIMIT);
    assert_eq!(Fixed::from_int(2).add(Fixed::from_int(3)), Fixed::from_int(5));
    assert_eq!(Fixed::from_int(2).sub(Fixed::from_int(3)), Fixed::from_int(-1));
}

#[test]
fn neg_is_exact() {
    assert_eq!(Fixed::from_raw(RAW_LIMIT).neg().raw(), -RAW_LIMIT);
    assert_eq!(Fixed::from_raw(-RAW_LIMIT).neg().raw(), RAW_LIMIT);
    assert_eq!(Fixed::from_int(4).neg(), Fixed::from_int(-4));
}

#[test]
fn mul_rounds_down_and_saturates() {
    assert_eq!(Fixed::from_int(6).mul(Fixed::from_ratio(1, 2)), Fixed::from_int(3));
    assert_eq!(Fixed::from_raw(3).mul(Fixed::from_ratio(1, 2)).raw(), 1);
    assert_eq!(Fixed::from_raw(-3).mul(Fixed::from_ratio(1, 2)).raw(), -2);
    let big = Fixed::from_raw(RAW_LIMIT);
    assert_eq!(big.mul(Fixed::from_int(2)).raw(), RAW_LIMIT);
    assert_eq!(big.mul(Fixed::from_int(-2)).raw(), -RAW_LIMIT);
}

#[test]
fn div_rounds_down_and_saturates() {
    assert_eq!(Fixed::from_int(1).div(Fixed::from_int(4)).raw(), ONE_RAW / 4);
    assert_eq!(Fixed::from_int(1).div(Fixed::from_int(3)).raw(), 1_431_655_765);
    assert_eq!(Fixed::from_int(-1).div(Fixed::from_int(3)).raw(), -1_431_655_766);
    assert_eq!(Fixed::from_raw(RAW_LIMIT).div(Fixed::from_raw(1)).raw(), RAW_LIMIT);
}

#[test]
fn half_rounds_down() {
    assert_eq!(Fixed::from_raw(5).half().raw(), 2);
    assert_eq!(Fixed::from_raw(-5).half().raw(), -3);
    assert_eq!(Fixed::from_int(3).half().raw(), 3 * ONE_RAW / 2);
}

#[test]
fn comparisons() {
    let a = Fixed::from_int(1);
    let b = Fixed::from_int(2);
    assert!(a.lt(b));
    assert!(!b.lt(a));
    assert!(!a.lt(a));
    assert!(a.le(a));
    assert!(a.le(b));
    assert!(!b.le(a));
    assert!(a.is_positive());
    assert!(!Fixed::zero().is_positive());
    assert!(!a.neg().is_positive());
}

#[test]
fn clamp_picks_nearest_in_range() {
    let lo = Fixed::from_int(1);
    let hi = Fixed::from_int(5);
    assert_eq!(Fixed::from_int(0).clamp(lo, hi), lo);
    assert_eq!(Fixed::from_int(9).clamp(lo, hi), hi);
    assert_eq!(Fixed::from_int(3).clamp(lo, hi), Fixed::from_int(3));
}

#[test]
fn products_are_exact() {
    assert_eq!(raw_product(i64::MIN, i64::MIN), 1i128 << 126);
    assert_eq!(raw_product(-3, 5), -15);
    assert_eq!(wide_product(1i128 << 63, -(1i128 << 63)), -(1i128 << 126));
}

#[test]
fn floor_div_leaves_no_negative_remainder() {
    assert_eq!(floor_div(7, 2), 3);
    assert_eq!(floor_div(-7, 2), -4);
    assert_eq!(floor_div(7, -2), -3);
    assert_eq!(floor_div(-7, -2), 4);
    assert_eq!(floor_div(-8, 2), -4);
}
