//! Signed 16.16 fixed-point scalars.
//!
//! Every quantity the renderer computes with (coordinates, depths, matrix
//! entries, noise thresholds, lighting intensities) is an `i64` holding a real
//! number scaled by `FX_ONE`. Operations saturate at the `i64` range instead
//! of wrapping, and division rounds toward zero; both choices are part of the
//! library's arithmetic model and are stated exactly in the contracts.

use vstd::prelude::*;
use vstd::arithmetic::div_mod::lemma_fundamental_div_mod;
use vstd::arithmetic::div_mod::lemma_fundamental_div_mod_converse;
use vstd::arithmetic::div_mod::lemma_div_nonincreasing;

verus! {

/// One unit (1.0) in 16.16 fixed point.
pub const FX_ONE: i64 = 65536;

/// Half a turn, in the binary angle units of `fx_sin_units` (a full turn is 65536).
pub const HALF_TURN: u16 = 32768;

/// A quarter turn in binary angle units.
pub const QUARTER_TURN: u16 = 16384;

/// 2*pi in 16.16 fixed point, used to convert fixed-point radians to binary angles.
pub const TWO_PI_FX: i64 = 411775;

/// Saturate a mathematical integer into the `i64` range.
pub open spec fn sat64(x: int) -> i64 {
    if x > i64::MAX {
        i64::MAX
    } else if x < i64::MIN {
        i64::MIN
    } else {
        x as i64
    }
}

/// Absolute value of a mathematical integer.
pub open spec fn abs_int(x: int) -> int {
    if x < 0 {
        -x
    } else {
        x
    }
}

/// The product of two values in the `i64` range stays well inside `i128`.
pub proof fn lemma_i64_product_fits(a: int, b: int)
    by (nonlinear_arith)
    requires
        i64::MIN <= a <= i64::MAX,
        i64::MIN <= b <= i64::MAX,
    ensures
        -0x40000000000000000000000000000000 <= a * b <= 0x40000000000000000000000000000000,
{
}

/// A product of two bounded factors is bounded by the product of the bounds.
pub proof fn lemma_mul_range(a: int, b: int, am: int, bm: int)
    by (nonlinear_arith)
    requires
        -am <= a <= am,
        -bm <= b <= bm,
    ensures
        -(am * bm) <= a * b <= am * bm,
{
}

/// Fixed-point (and plain integer) addition, saturating at the `i64` range.
pub fn fx_add(a: i64, b: i64) -> (r: i64)
    ensures
        r == sat64(a + b),
{
    let s: i128 = a as i128 + b as i128;
    if s > i64::MAX as i128 {
        i64::MAX
    } else if s < i64::MIN as i128 {
        i64::MIN
    } else {
        s as i64
    }
}

/// Fixed-point subtraction, saturating at the `i64` range.
pub fn fx_sub(a: i64, b: i64) -> (r: i64)
    ensures
        r == sat64(a - b),
{
    let s: i128 = a as i128 - b as i128;
    if s > i64::MAX as i128 {
        i64::MAX
    } else if s < i64::MIN as i128 {
        i64::MIN
    } else {
        s as i64
    }
}

/// Clamp an `i128` into the `i64` range.
fn clamp_to_i64(s: i128) -> (r: i64)
    ensures
        r == sat64(s as int),
{
    if s > i64::MAX as i128 {
        i64::MAX
    } else if s < i64::MIN as i128 {
        i64::MIN
    } else {
        s as i64
    }
}

/// Floor division of an `i128` by a positive divisor.
///
/// In specifications `/` on `int` is Euclidean division, which for a positive
/// divisor coincides with floor division; the executable code reaches the same
/// value through unsigned division on magnitudes.
pub fn div_floor_i128(n: i128, d: i128) -> (q: i128)
    requires
        0 < d,
        i128::MIN < n,
    ensures
        q == n as int / d as int,
{
    if n >= 0 {
        let nn: u128 = n as u128;
        let dd: u128 = d as u128;
        let qq: u128 = nn / dd;
        proof {
            lemma_div_nonincreasing(nn as int, dd as int);
        }
        qq as i128
    } else {
        let m: u128 = (-n) as u128;
        let dd: u128 = d as u128;
        let q0: u128 = m / dd;
        let r: u128 = m % dd;
        proof {
            lemma_div_nonincreasing(m as int, dd as int);
            lemma_fundamental_div_mod(m as int, dd as int);
        }
        if r == 0 {
            proof {
                assert(n as int == (-(q0 as int)) * (d as int) + 0) by (nonlinear_arith)
                    requires
                        m as int == dd as int * (q0 as int) + (r as int),
                        r as int == 0,
                        n as int == -(m as int),
                        dd as int == d as int,
                ;
                lemma_fundamental_div_mod_converse(n as int, d as int, -(q0 as int), 0);
            }
            -(q0 as i128)
        } else {
            proof {
                assert(n as int == (-(q0 as int) - 1) * (d as int) + (d as int - r as int))
                    by (nonlinear_arith)
                    requires
                        m as int == dd as int * (q0 as int) + (r as int),
                        n as int == -(m as int),
                        dd as int == d as int,
                ;
                lemma_fundamental_div_mod_converse(
                    n as int,
                    d as int,
                    -(q0 as int) - 1,
                    d as int - r as int,
                );
            }
            -(q0 as i128) - 1
        }
    }
}

/// What fixed-point multiplication returns: the product rescaled with floor
/// rounding, saturated to the `i64` range.
pub open spec fn fx_mul_s(a: i64, b: i64) -> i64 {
    sat64((a * b) / (FX_ONE as int))
}

/// Fixed-point multiplication.
pub fn fx_mul(a: i64, b: i64) -> (r: i64)
    ensures
        r == fx_mul_s(a, b),
{
    proof {
        lemma_i64_product_fits(a as int, b as int);
    }
    let p: i128 = a as i128 * b as i128;
    let q: i128 = div_floor_i128(p, FX_ONE as i128);
    clamp_to_i64(q)
}

/// Absolute value of an `i64`, exact (the magnitude of the minimum value is
/// representable in `u64`).
pub fn abs64(x: i64) -> (r: u64)
    ensures
        r == abs_int(x as int),
{
    if x >= 0 {
        x as u64
    } else {
        let w: i128 = x as i128;
        (-w) as u64
    }
}

/// What fixed-point division returns: the rescaled quotient rounded toward
/// zero and saturated; division by zero saturates in the direction of the
/// numerator's sign, standing in for an infinite quotient.
pub open spec fn fx_div_s(a: i64, b: i64) -> i64 {
    if b == 0 {
        if a >= 0 {
            i64::MAX
        } else {
            i64::MIN
        }
    } else {
        let q = (abs_int(a as int) * FX_ONE) / abs_int(b as int);
        if (a < 0) != (b < 0) {
            sat64(-q)
        } else {
            sat64(q)
        }
    }
}

/// Fixed-point division.
pub fn fx_div(a: i64, b: i64) -> (r: i64)
    ensures
        r == fx_div_s(a, b),
{
    if b == 0 {
        if a >= 0 {
            i64::MAX
        } else {
            i64::MIN
        }
    } else {
        let am: u64 = abs64(a);
        proof {
            assert(am as int * FX_ONE as int <= 0x80000000000000000000int) by (nonlinear_arith)
                requires
                    0 <= am as int <= 0x8000000000000000int,
            ;
        }
        let n: u128 = am as u128 * FX_ONE as u128;
        let m: u128 = abs64(b) as u128;
        let q: u128 = n / m;
        proof {
            lemma_div_nonincreasing(n as int, m as int);
        }
        if (a < 0) != (b < 0) {
            clamp_to_i64(-(q as i128))
        } else {
            clamp_to_i64(q as i128)
        }
    }
}

/// Absolute value in fixed point, saturating (the magnitude of the minimum
/// value saturates to the maximum).
pub fn fx_abs(a: i64) -> (r: i64)
    ensures
        r == sat64(abs_int(a as int)),
{
    if a >= 0 {
        a
    } else if a == i64::MIN {
        i64::MAX
    } else {
        -a
    }
}

/// Clamp a scalar into `[lo, hi]`.
pub fn clamp64(x: i64, lo: i64, hi: i64) -> (r: i64)
    requires
        lo <= hi,
    ensures
        r == clamp64_s(x as int, lo as int, hi as int),
{
    if x < lo {
        lo
    } else if x > hi {
        hi
    } else {
        x
    }
}

/// Clamping on mathematical integers.
pub open spec fn clamp64_s(x: int, lo: int, hi: int) -> i64
    recommends
        i64::MIN <= lo <= hi <= i64::MAX,
{
    if x < lo {
        lo as i64
    } else if x > hi {
        hi as i64
    } else {
        x as i64
    }
}

/// Promote a plain integer to fixed point, saturating.
pub fn int_to_fx(x: i64) -> (r: i64)
    ensures
        r == sat64(x * FX_ONE),
{
    proof {
        lemma_i64_product_fits(x as int, FX_ONE as int);
    }
    let p: i128 = x as i128 * FX_ONE as i128;
    clamp_to_i64(p)
}

/// The integer part of a fixed-point value, rounded toward negative infinity.
pub fn fx_floor(x: i64) -> (r: i64)
    ensures
        r == x as int / FX_ONE as int,
{
    let q: i128 = div_floor_i128(x as i128, FX_ONE as i128);
    proof {
        lemma_fundamental_div_mod(x as int, FX_ONE as int);
    }
    q as i64
}

/// The smallest integer at or above a fixed-point value.
pub fn fx_ceil(x: i64) -> (r: i64)
    ensures
        r == -((-(x as int)) / FX_ONE as int),
{
    let q: i128 = div_floor_i128(-(x as i128), FX_ONE as i128);
    proof {
        lemma_fundamental_div_mod(-(x as int), FX_ONE as int);
    }
    let nq: i128 = -q;
    nq as i64
}

/// `r` is the integer square root of `n`.
pub open spec fn is_isqrt(n: int, r: int) -> bool {
    0 <= r && r * r <= n && n < (r + 1) * (r + 1)
}

/// The integer square root of a non-negative integer.
pub open spec fn isqrt_s(n: int) -> int {
    choose|r: int| is_isqrt(n, r)
}

/// Integer square roots are unique.
pub proof fn lemma_isqrt_unique(n: int, r1: int, r2: int)
    by (nonlinear_arith)
    requires
        is_isqrt(n, r1),
        is_isqrt(n, r2),
    ensures
        r1 == r2,
{
}

/// Integer square root by binary search.
pub fn isqrt_u128(n: u128) -> (r: u64)
    ensures
        is_isqrt(n as int, r as int),
        r as int == isqrt_s(n as int),
{
    let mut lo: u128 = 0;
    let mut hi: u128 = 0x10000000000000000;
    while hi - lo > 1
        invariant
            0 <= lo < hi <= 0x10000000000000000,
            lo * lo <= n as int,
            (n as int) < hi * hi,
        decreases hi - lo,
    {
        let mid: u128 = lo + (hi - lo) / 2;
        proof {
            lemma_mul_range(mid as int, mid as int, 0xffffffffffffffff, 0xffffffffffffffff);
        }
        let sq: u128 = mid * mid;
        if sq <= n {
            lo = mid;
        } else {
            hi = mid;
        }
    }
    proof {
        assert(is_isqrt(n as int, lo as int));
        lemma_isqrt_unique(n as int, lo as int, isqrt_s(n as int));
    }
    lo as u64
}

/// Reduce a mathematical integer into one turn of binary angle units.
pub open spec fn wrap16(a: int) -> u16 {
    (a % 65536) as u16
}

/// Add two binary angles, wrapping around the turn.
pub fn add_units(a: u16, b: u16) -> (r: u16)
    ensures
        r == wrap16(a + b),
{
    let s: u32 = a as u32 + b as u32;
    (s % 65536) as u16
}

/// The sine approximation on the first half turn (input in `[0, 32768]`
/// binary angle units, result scaled by `FX_ONE`): a quadratic rational
/// approximation, exact at 0, the quarter turn and the half turn.
pub open spec fn sin_half_s(x: int) -> int {
    let p = x * (32768 - x);
    (16 * p * 65536) / (5 * 32768 * 32768 - 4 * p)
}

/// The numerator product of the half-turn sine stays within a quarter of the
/// squared half turn, which bounds the approximation by one unit.
proof fn lemma_sin_half_product_bound(x: int)
    by (nonlinear_arith)
    requires
        0 <= x <= 32768,
    ensures
        0 <= x * (32768 - x),
        4 * (x * (32768 - x)) <= 32768 * 32768,
{
}

fn sin_half(x: u16) -> (r: i64)
    requires
        x <= 32768,
    ensures
        r as int == sin_half_s(x as int),
        0 <= r <= FX_ONE,
{
    proof {
        lemma_sin_half_product_bound(x as int);
    }
    let xi: u64 = x as u64;
    let p: u64 = xi * (32768 - xi);
    let num: u64 = 16 * p * 65536;
    let den: u64 = 5 * 32768 * 32768 - 4 * p;
    let q: u64 = num / den;
    proof {
        lemma_div_nonincreasing(num as int, den as int);
        vstd::arithmetic::div_mod::lemma_multiply_divide_le(num as int, den as int, FX_ONE as int);
    }
    q as i64
}

/// The full-turn sine in binary angle units (65536 units per turn), scaled by
/// `FX_ONE`: the second half turn mirrors the first with opposite sign.
pub open spec fn fx_sin_units_s(u: u16) -> int {
    if u < 32768 {
        sin_half_s(u as int)
    } else {
        -sin_half_s(u as int - 32768)
    }
}

/// Sine of a binary angle.
pub fn fx_sin_units(u: u16) -> (r: i64)
    ensures
        r as int == fx_sin_units_s(u),
        -FX_ONE <= r <= FX_ONE,
{
    if u < 32768 {
        sin_half(u)
    } else {
        let s: i64 = sin_half(u - 32768);
        -s
    }
}

/// Cosine of a binary angle: the sine shifted by a quarter turn.
pub open spec fn fx_cos_units_s(u: u16) -> int {
    fx_sin_units_s(wrap16(u + QUARTER_TURN))
}

/// Cosine of a binary angle.
pub fn fx_cos_units(u: u16) -> (r: i64)
    ensures
        r as int == fx_cos_units_s(u),
        -FX_ONE <= r <= FX_ONE,
{
    fx_sin_units(add_units(u, QUARTER_TURN))
}

/// Convert a fixed-point angle in radians to binary angle units: the angle is
/// divided by the fixed-point two-pi constant and wrapped into one turn.
pub open spec fn units_of_fx_s(r: i64) -> u16 {
    let t = (abs_int(r as int) * 65536) / (TWO_PI_FX as int);
    let u = t % 65536;
    if r >= 0 {
        u as u16
    } else {
        ((65536 - u) % 65536) as u16
    }
}

/// Convert fixed-point radians to binary angle units.
pub fn units_of_fx(r: i64) -> (u: u16)
    ensures
        u == units_of_fx_s(r),
{
    let m: u128 = abs64(r) as u128 * 65536;
    let t: u128 = m / (TWO_PI_FX as u128);
    let u0: u128 = t % 65536;
    if r >= 0 {
        u0 as u16
    } else {
        ((65536 - u0) % 65536) as u16
    }
}

/// The sine of a fixed-point angle in radians: the angle converted to binary
/// units, then run through the binary-angle sine.
pub open spec fn fx_sin_rad_s(r: i64) -> int {
    fx_sin_units_s(units_of_fx_s(r))
}

/// Sine of a fixed-point angle in radians.
pub fn fx_sin_rad(r: i64) -> (s: i64)
    ensures
        s as int == fx_sin_rad_s(r),
        -FX_ONE <= s <= FX_ONE,
{
    fx_sin_units(units_of_fx(r))
}

} // verus!
