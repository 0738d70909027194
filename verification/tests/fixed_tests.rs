use scathanna_core::fixed::{Fixed, SCALE};

#[test]
fn one_unit_is_a_million_raw_steps() {
    assert_eq!(SCALE, 1_000_000);
    assert_eq!(Fixed::from_int(1), Fixed::from_raw(1_000_000));
    assert_eq!(Fixed::from_int(-48).raw, -48_000_000);
}

#[test]
fn from_int_saturates() {
    assert_eq!(Fixed::from_int(i64::MAX).raw, i64::MAX);
    assert_eq!(Fixed::from_int(i64::MIN).raw, i64::MIN);
    assert_eq!(Fixed::from_int(9_223_372_036_855).raw, i64::MAX);
    assert_eq!(Fixed::from_int(9_223_372_036_854).raw, 9_223_372_036_854_000_000);
}

#[test]
fn from_ratio_rounds_toward_zero() {
    assert_eq!(Fixed::from_ratio(1, 60).raw, 16_666);
    assert_eq!(Fixed::from_ratio(-1, 60).raw, -16_666);
    assert_eq!(Fixed::from_ratio(2, 3).raw, 666_666);
    assert_eq!(Fixed::from_ratio(21, 10).raw, 2_100_000);
    assert_eq!(Fixed::from_ratio(i64::MAX, 1).raw, i64::MAX);
    assert_eq!(Fixed::from_ratio(i64::MIN, 1).raw, i64::MIN);
}

#[test]
fn plus_adds_and_saturates() {
    assert_eq!(Fixed::from_raw(5).plus(Fixed::from_raw(-7)).raw, -2);
    assert_eq!(Fixed::from_raw(i64::MAX).plus(Fixed::from_raw(1)).raw, i64::MAX);
    assert_eq!(Fixed::from_raw(i64::MIN).plus(Fixed::from_raw(-1)).raw, i64::MIN);
    assert_eq!(Fixed::from_raw(i64::MAX).plus(Fixed::from_raw(i64::MIN)).raw, -1);
}

#[test]
fn minus_subtracts_and_saturates() {
    assert_eq!(Fixed::from_raw(5).minus(Fixed::from_raw(7)).raw, -2);
    assert_eq!(Fixed::from_raw(i64::MIN).minus(Fixed::from_raw(1)).raw, i64::MIN);
    assert_eq!(Fixed::from_raw(0).minus(Fixed::from_raw(i64::MIN)).raw, i64::MAX);
    assert_eq!(Fixed::from_raw(-1).minus(Fixed::from_raw(i64::MIN)).raw, i64::MAX);
}

#[test]
fn times_rounds_toward_zero() {
    let half = Fixed::from_raw(500_000);
    assert_eq!(Fixed::from_raw(7).times(half).raw, 3);
    assert_eq!(Fixed::from_raw(-7).times(half).raw, -3);
    assert_eq!(Fixed::from_raw(1).times(half).raw, 0);
    assert_eq!(Fixed::from_raw(-1).times(half).raw, 0);
    assert_eq!(Fixed::from_int(48).times(Fixed::from_raw(16_666)).raw, 799_968);
    assert_eq!(Fixed::from_raw(50_000).times(Fixed::from_raw(16_666)).raw, 833);
}

#[test]
fn times_one_and_zero() {
    for raw in [i64::MIN, -1_234_567, -1, 0, 1, 999_999, i64::MAX] {
        let v = Fixed::from_raw(raw);
        assert_eq!(v.times(Fixed::from_int(1)), v);
        assert_eq!(v.times(Fixed::from_raw(0)).raw, 0);
        assert_eq!(Fixed::from_raw(0).times(v).raw, 0);
    }
}

#[test]
fn times_saturates() {
    let big = Fixed::from_raw(i64::MAX);
    let low = Fixed::from_raw(i64::MIN);
    assert_eq!(big.times(Fixed::from_int(2)).raw, i64::MAX);
    assert_eq!(big.times(Fixed::from_int(-2)).raw, i64::MIN);
    assert_eq!(low.times(low).raw, i64::MAX);
    assert_eq!(low.times(big).raw, i64::MIN);
}

#[test]
fn div_int_rounds_toward_zero() {
    assert_eq!(Fixed::from_raw(100).div_int(16).raw, 6);
    assert_eq!(Fixed::from_raw(-100).div_int(16).raw, -6);
    assert_eq!(Fixed::from_raw(15).div_int(16).raw, 0);
    assert_eq!(Fixed::from_raw(-15).div_int(16).raw, 0);
    assert_eq!(Fixed::from_int(1).div_int(2).raw, 500_000);
    assert_eq!(Fixed::from_raw(i64::MIN).div_int(1).raw, i64::MIN);
}

#[test]
fn sixteen_parts_fall_short_by_less_than_sixteen_steps() {
    for raw in [-1_000_003i64, -17, -16, -15, -1, 0, 1, 15, 16, 17, 166_666, 1_000_003] {
        let part = Fixed::from_raw(raw).div_int(16).raw;
        let gap = raw - 16 * part;
        assert!(gap.abs() <= 15);
        assert!(gap == 0 || (gap > 0) == (raw > 0));
    }
}
