//! Fixed-point scalar arithmetic: exact values, saturation, rounding.

use softrender::fx::{
    abs64, add_units, clamp64, fx_abs, fx_add, fx_ceil, fx_cos_units, fx_div, fx_floor, fx_mul,
    fx_sin_rad, fx_sin_units, fx_sub, int_to_fx, isqrt_u128, units_of_fx, FX_ONE,
};

#[test]
fn add_and_sub_are_exact_in_range() {
    assert_eq!(fx_add(65536, 32768), 98304);
    assert_eq!(fx_sub(65536, 98304), -32768);
    assert_eq!(fx_add(-5, 5), 0);
}

#[test]
fn add_saturates_at_the_i64_range() {
    assert_eq!(fx_add(i64::MAX, 1), i64::MAX);
    assert_eq!(fx_sub(i64::MIN, 1), i64::MIN);
    assert_eq!(fx_add(i64::MIN, -1), i64::MIN);
}

#[test]
fn mul_rescales_with_floor_rounding() {
    // 1.5 * 2.0 == 3.0
    assert_eq!(fx_mul(98304, 131072), 196608);
    // 0.5 * 0.5 == 0.25
    assert_eq!(fx_mul(32768, 32768), 16384);
    // floor rounding: (-1 * 1) scaled down floors toward negative infinity
    assert_eq!(fx_mul(-1, 1), -1);
    assert_eq!(fx_mul(1, 1), 0);
}

#[test]
fn div_rounds_toward_zero_and_saturates_on_zero() {
    // 3.0 / 2.0 == 1.5
    assert_eq!(fx_div(196608, 131072), 98304);
    // truncation toward zero for a negative quotient
    assert_eq!(fx_div(-3, 131072), -1);
    assert_eq!(fx_div(3, 131072), 1);
    // division by zero saturates in the numerator's direction
    assert_eq!(fx_div(5, 0), i64::MAX);
    assert_eq!(fx_div(-5, 0), i64::MIN);
}

#[test]
fn int_conversions_round_trip() {
    assert_eq!(int_to_fx(7), 7 * 65536);
    assert_eq!(fx_floor(int_to_fx(7)), 7);
    assert_eq!(fx_floor(-65537), -2);
    assert_eq!(fx_ceil(-65537), -1);
    assert_eq!(fx_ceil(65537), 2);
}

#[test]
fn abs_and_clamp() {
    assert_eq!(fx_abs(-65536), 65536);
    assert_eq!(fx_abs(i64::MIN), i64::MAX);
    assert_eq!(abs64(i64::MIN), 0x8000000000000000u64);
    assert_eq!(clamp64(100, -5, 5), 5);
    assert_eq!(clamp64(-100, -5, 5), -5);
    assert_eq!(clamp64(3, -5, 5), 3);
}

#[test]
fn isqrt_exact_values() {
    assert_eq!(isqrt_u128(0), 0);
    assert_eq!(isqrt_u128(1), 1);
    assert_eq!(isqrt_u128(3), 1);
    assert_eq!(isqrt_u128(4), 2);
    assert_eq!(isqrt_u128(65536 * 65536), 65536);
    assert_eq!(isqrt_u128(u128::MAX), u64::MAX);
}

#[test]
fn sine_hits_the_cardinal_points() {
    assert_eq!(fx_sin_units(0), 0);
    assert_eq!(fx_sin_units(16384), FX_ONE);
    assert_eq!(fx_sin_units(32768), 0);
    assert_eq!(fx_sin_units(49152), -FX_ONE);
    assert_eq!(fx_cos_units(0), FX_ONE);
    assert_eq!(fx_cos_units(32768), -FX_ONE);
}

#[test]
fn sine_stays_within_one() {
    let mut u: u32 = 0;
    while u < 65536 {
        let s = fx_sin_units(u as u16);
        assert!(-FX_ONE <= s && s <= FX_ONE);
        u += 257;
    }
}

#[test]
fn radian_conversion_wraps_the_turn() {
    assert_eq!(units_of_fx(0), 0);
    // 2*pi in fixed point is one full turn
    assert_eq!(units_of_fx(411775), 0);
    // pi maps to half a turn (within conversion rounding)
    let half = units_of_fx(205887);
    assert!((half as i32 - 32768).abs() <= 1);
    // sine of fixed-point radians: sin(pi/2) is one
    let quarter = 102944; // pi/2 * 65536, rounded
    assert!((fx_sin_rad(quarter) - FX_ONE).abs() <= 66);
}

#[test]
fn binary_angle_addition_wraps() {
    assert_eq!(add_units(65000, 1000), 464);
    assert_eq!(add_units(30000, 30000), 60000);
}
