use hello_triangle::fixed::{HALF_RAW, ONE_RAW};
use hello_triangle::{Fixed, Vec3, Vec4};

fn fx(value: f64) -> Fixed {
    Fixed::from_raw((value * 4294967296.0).round() as i64)
}

#[test]
fn one_has_thirty_two_fraction_bits() {
    assert_eq!(ONE_RAW, 1i64 << 32);
    assert_eq!(HALF_RAW, 1i64 << 31);
    assert_eq!(Fixed::one().raw(), ONE_RAW);
    assert_eq!(Fixed::half().raw(), HALF_RAW);
    assert_eq!(Fixed::zero().raw(), 0);
    assert_eq!(Fixed::max_value().raw(), i64::MAX);
}

#[test]
fn whole_numbers_and_fractions() {
    assert_eq!(Fixed::from_int(3).raw(), 3 * ONE_RAW);
    assert_eq!(Fixed::from_int(-7).raw(), -7 * ONE_RAW);
    assert_eq!(Fixed::from_usize(480).raw(), 480 * ONE_RAW);
    assert_eq!(Fixed::from_ratio(1, 2).raw(), HALF_RAW);
    assert_eq!(Fixed::from_ratio(-1, 4).raw(), -(ONE_RAW / 4));
    assert_eq!(Fixed::from_ratio(1, 3).raw(), 1431655765);
    assert_eq!(Fixed::from_ratio(-1, 3).raw(), -1431655765);
    assert_eq!(Fixed::from_ratio(1, -3).raw(), -1431655765);
}

#[test]
fn whole_numbers_saturate() {
    assert_eq!(Fixed::from_int(i64::MAX).raw(), i64::MAX);
    assert_eq!(Fixed::from_int(i64::MIN).raw(), i64::MIN);
    assert_eq!(Fixed::from_int(1i64 << 31).raw(), i64::MAX);
    assert_eq!(Fixed::from_usize(1usize << 31).raw(), i64::MAX);
    assert_eq!(Fixed::from_usize((1usize << 31) - 1).raw(), ((1i64 << 31) - 1) * ONE_RAW);
}

#[test]
fn sums_and_differences() {
    assert_eq!(fx(1.5) + fx(2.25), fx(3.75));
    assert_eq!(fx(1.5) - fx(2.25), fx(-0.75));
    assert_eq!(-fx(1.5), fx(-1.5));
    assert_eq!(Fixed::max_value() + Fixed::one(), Fixed::max_value());
    assert_eq!(Fixed::from_raw(i64::MIN) - Fixed::one(), Fixed::from_raw(i64::MIN));
    assert_eq!(-Fixed::from_raw(i64::MIN), Fixed::max_value());
}

#[test]
fn products_round_toward_zero() {
    assert_eq!(fx(1.5) * fx(2.0), fx(3.0));
    assert_eq!(fx(-1.5) * fx(2.0), fx(-3.0));
    assert_eq!(fx(0.5) * fx(0.5), fx(0.25));
    // One raw unit times one half is half a raw unit, which rounds to zero
    // from either side.
    assert_eq!(Fixed::from_raw(1) * fx(0.5), Fixed::zero());
    assert_eq!(Fixed::from_raw(-1) * fx(0.5), Fixed::zero());
    assert_eq!(Fixed::from_raw(3) * fx(0.5), Fixed::from_raw(1));
    assert_eq!(Fixed::from_raw(-3) * fx(0.5), Fixed::from_raw(-1));
}

#[test]
fn products_saturate() {
    let big = Fixed::from_int(1 << 20);
    assert_eq!(big * big, Fixed::max_value());
    assert_eq!(big * -big, Fixed::from_raw(i64::MIN));
}

#[test]
fn quotients_round_toward_zero() {
    assert_eq!(fx(3.0) / fx(2.0), fx(1.5));
    assert_eq!(fx(-3.0) / fx(2.0), fx(-1.5));
    assert_eq!(fx(3.0) / fx(-2.0), fx(-1.5));
    assert_eq!(fx(-3.0) / fx(-2.0), fx(1.5));
    assert_eq!((Fixed::one() / fx(3.0)).raw(), 1431655765);
    assert_eq!((-Fixed::one() / fx(3.0)).raw(), -1431655765);
}

#[test]
fn quotients_saturate() {
    let tiny = Fixed::from_raw(1);
    assert_eq!(Fixed::from_int(1 << 20) / tiny, Fixed::max_value());
    assert_eq!(Fixed::from_int(-(1 << 20)) / tiny, Fixed::from_raw(i64::MIN));
}

#[test]
fn comparisons() {
    assert!(fx(1.0).lt(fx(1.5)));
    assert!(!fx(1.5).lt(fx(1.5)));
    assert!(fx(1.5).le(fx(1.5)));
    assert!(fx(2.0).gt(fx(1.5)));
    assert!(fx(1.5).ge(fx(1.5)));
    assert!(fx(-0.25).is_negative());
    assert!(!Fixed::zero().is_negative());
    assert!(Fixed::zero().is_zero());
    assert_eq!(fx(1.0).min(fx(-2.0)), fx(-2.0));
    assert_eq!(fx(1.0).max(fx(-2.0)), fx(1.0));
}

#[test]
fn floor_rounds_down() {
    assert_eq!(fx(2.75).floor(), 2);
    assert_eq!(fx(2.0).floor(), 2);
    assert_eq!(fx(0.0).floor(), 0);
    assert_eq!(fx(-0.25).floor(), -1);
    assert_eq!(fx(-2.0).floor(), -2);
    assert_eq!(fx(-2.5).floor(), -3);
    assert_eq!(Fixed::from_raw(i64::MIN).floor(), -(1i64 << 31));
}

#[test]
fn whole_part_rounds_toward_zero_and_clamps() {
    assert_eq!(fx(2.75).to_i32(), 2);
    assert_eq!(fx(-2.75).to_i32(), -2);
    assert_eq!(fx(-0.5).to_i32(), 0);
    assert_eq!(Fixed::max_value().to_i32(), i32::MAX);
    assert_eq!(Fixed::from_raw(i64::MIN).to_i32(), i32::MIN);
}

#[test]
fn channels_clamp_to_a_byte() {
    assert_eq!(fx(0.0).to_channel(), 0);
    assert_eq!(fx(1.0).to_channel(), 255);
    assert_eq!(fx(0.5).to_channel(), 127);
    assert_eq!(fx(2.0).to_channel(), 255);
    assert_eq!(fx(-1.0).to_channel(), 0);
    assert_eq!(Fixed::max_value().to_channel(), 255);
    assert_eq!(Fixed::from_raw(i64::MIN).to_channel(), 0);
}

#[test]
fn vectors_work_component_by_component() {
    let a = Vec3::new(fx(1.0), fx(2.0), fx(3.0));
    let b = Vec3::new(fx(0.5), fx(-1.0), fx(4.0));
    assert_eq!(a + b, Vec3::new(fx(1.5), fx(1.0), fx(7.0)));
    assert_eq!(a - b, Vec3::new(fx(0.5), fx(3.0), fx(-1.0)));
    assert_eq!(a * fx(2.0), Vec3::new(fx(2.0), fx(4.0), fx(6.0)));
    assert_eq!(a.dot(b), fx(10.5));
    assert_eq!(
        Vec3::from_ints(1, 0, 0).cross(Vec3::from_ints(0, 1, 0)),
        Vec3::from_ints(0, 0, 1)
    );
    assert_eq!(a.cross(b), Vec3::new(fx(11.0), fx(-2.5), fx(-2.0)));
    assert_eq!(a.extend(fx(1.0)), Vec4::new(fx(1.0), fx(2.0), fx(3.0), fx(1.0)));
    assert_eq!(Vec4::from_ints(1, 2, 3, 4).xyz(), Vec3::from_ints(1, 2, 3));
    assert_eq!(Vec3::splat(fx(0.5)), Vec3::new(fx(0.5), fx(0.5), fx(0.5)));
}
