//! RGB colors and the fixed-point blending the materials use.

use vstd::prelude::*;
use crate::fx::{FX_ONE, clamp64, clamp64_s, div_floor_i128};

verus! {

/// An 8-bit-per-channel RGB color.
#[derive(Clone, Copy, PartialEq, Eq, Structural, Debug)]
pub struct Color {
    pub r: u8,
    pub g: u8,
    pub b: u8,
}

/// One channel of a linear blend: `a` moved toward `b` by the fixed-point
/// factor `t` clamped into `[0, 1]`, with floor rounding.
pub open spec fn lerp_chan_s(a: u8, b: u8, t: i64) -> int {
    a + ((b - a) * clamp64_s(t as int, 0, FX_ONE as int)) / (FX_ONE as int)
}

/// One channel scaled by a lighting intensity clamped into `[0, 1]`.
pub open spec fn scale_chan_s(c: u8, i: i64) -> int {
    (c * clamp64_s(i as int, 0, FX_ONE as int)) / (FX_ONE as int)
}

proof fn lemma_lerp_chan_bounds(a: u8, b: u8, t: i64)
    ensures
        0 <= lerp_chan_s(a, b, t) <= 255,
        a <= b ==> a <= lerp_chan_s(a, b, t) <= b,
        b <= a ==> b <= lerp_chan_s(a, b, t) <= a,
{
    let tc = clamp64_s(t as int, 0, FX_ONE as int);
    let d = (b - a) * tc;
    if a <= b {
        assert(0 <= d <= (b - a) * (FX_ONE as int)) by (nonlinear_arith)
            requires
                0 <= tc <= FX_ONE as int,
                a <= b,
                d == (b - a) * tc,
        ;
        vstd::arithmetic::div_mod::lemma_div_pos_is_pos(d, FX_ONE as int);
        vstd::arithmetic::div_mod::lemma_multiply_divide_le(d, FX_ONE as int, (b - a) as int);
    } else {
        assert((FX_ONE as int) * (b - a) <= d <= 0) by (nonlinear_arith)
            requires
                0 <= tc <= FX_ONE as int,
                b < a,
                d == (b - a) * tc,
        ;
        vstd::arithmetic::div_mod::lemma_div_is_ordered(
            (FX_ONE as int) * (b - a),
            d,
            FX_ONE as int,
        );
        vstd::arithmetic::div_mod::lemma_div_is_ordered(d, 0, FX_ONE as int);
        vstd::arithmetic::div_mod::lemma_div_multiples_vanish((b - a) as int, FX_ONE as int);
    }
}

fn lerp_chan(a: u8, b: u8, t: i64) -> (r: u8)
    ensures
        r as int == lerp_chan_s(a, b, t),
{
    let tc: i64 = clamp64(t, 0, FX_ONE);
    proof {
        crate::fx::lemma_mul_range(b - a, tc as int, 255, FX_ONE as int);
    }
    let d: i128 = (b as i128 - a as i128) * tc as i128;
    let q: i128 = div_floor_i128(d, FX_ONE as i128);
    proof {
        lemma_lerp_chan_bounds(a, b, t);
    }
    (a as i128 + q) as u8
}

fn scale_chan(c: u8, i: i64) -> (r: u8)
    ensures
        r as int == scale_chan_s(c, i),
{
    let ic: i64 = clamp64(i, 0, FX_ONE);
    proof {
        crate::fx::lemma_mul_range(c as int, ic as int, 255, FX_ONE as int);
    }
    let p: u64 = c as u64 * ic as u64;
    let q: u64 = p / FX_ONE as u64;
    proof {
        assert(p <= 255 * FX_ONE) by (nonlinear_arith)
            requires
                0 <= ic <= FX_ONE,
                p == c as int * ic as int,
                c <= 255,
        ;
        vstd::arithmetic::div_mod::lemma_multiply_divide_le(p as int, FX_ONE as int, 255);
    }
    q as u8
}

impl Color {
    /// Build a color from its three channels.
    pub fn new(r: u8, g: u8, b: u8) -> (c: Color)
        ensures
            c == (Color { r, g, b }),
    {
        Color { r, g, b }
    }

    /// The color packed as `0x00RRGGBB`.
    pub open spec fn to_hex_s(self) -> u32 {
        (self.r * 65536 + self.g * 256 + self.b) as u32
    }

    /// Pack the color into one `0x00RRGGBB` word.
    pub fn to_hex(&self) -> (h: u32)
        ensures
            h == self.to_hex_s(),
    {
        self.r as u32 * 65536 + self.g as u32 * 256 + self.b as u32
    }

    /// What blending returns: each channel moved toward `other`'s by the
    /// clamped fixed-point factor.
    pub open spec fn lerp_s(self, other: Color, t: i64) -> Color {
        Color {
            r: lerp_chan_s(self.r, other.r, t) as u8,
            g: lerp_chan_s(self.g, other.g, t) as u8,
            b: lerp_chan_s(self.b, other.b, t) as u8,
        }
    }

    /// Blend this color toward `other` by the fixed-point factor `t`.
    pub fn lerp(&self, other: &Color, t: i64) -> (c: Color)
        ensures
            c == self.lerp_s(*other, t),
    {
        proof {
            lemma_lerp_chan_bounds(self.r, other.r, t);
            lemma_lerp_chan_bounds(self.g, other.g, t);
            lemma_lerp_chan_bounds(self.b, other.b, t);
        }
        Color {
            r: lerp_chan(self.r, other.r, t),
            g: lerp_chan(self.g, other.g, t),
            b: lerp_chan(self.b, other.b, t),
        }
    }

    /// What lighting returns: each channel scaled by the clamped intensity.
    pub open spec fn scale_s(self, i: i64) -> Color {
        Color {
            r: scale_chan_s(self.r, i) as u8,
            g: scale_chan_s(self.g, i) as u8,
            b: scale_chan_s(self.b, i) as u8,
        }
    }

    /// Scale the color by a fixed-point lighting intensity.
    pub fn scale(&self, i: i64) -> (c: Color)
        ensures
            c == self.scale_s(i),
    {
        Color { r: scale_chan(self.r, i), g: scale_chan(self.g, i), b: scale_chan(self.b, i) }
    }
}

} // verus!
