//! Triangle scan conversion.
//!
//! Coverage uses integer edge functions: a pixel center is covered exactly
//! when all three barycentric weights carry the sign of the triangle's
//! doubled signed area (non-negative weights in spec terms), and degenerate
//! triangles emit nothing. Attributes are interpolated with the exact
//! rational weights, truncating toward zero, so an attribute evaluated at a
//! vertex reproduces that vertex's value exactly.

use vstd::prelude::*;
use vstd::arithmetic::div_mod::{
    lemma_div_pos_is_pos, lemma_div_is_ordered, lemma_div_multiples_vanish,
    lemma_multiply_divide_le, lemma_div_nonincreasing,
};
use vstd::arithmetic::mul::lemma_mul_is_commutative;
use crate::fx::{FX_ONE, abs_int, clamp64_s, clamp64, fx_div, fx_div_s};
use crate::vecmat::{Fx2, Fx3};
use crate::vertex::Vertex;
use crate::fragment::Fragment;

verus! {

/// The largest framebuffer dimension the rasterizer addresses.
pub const MAX_DIM: usize = 16384;

/// The largest screen-space coordinate magnitude the pipeline produces:
/// `MAX_DIM` pixels in fixed point. The vertex stage clamps into this range.
pub const COORD_LIMIT: i64 = 0x40000000;

/// Twice the signed area of the triangle (a, b, p): the edge function of p
/// against the directed edge a to b.
pub open spec fn orient_s(ax: int, ay: int, bx: int, by: int, px: int, py: int) -> int {
    (bx - ax) * (py - ay) - (by - ay) * (px - ax)
}

/// The screen-space x coordinate of a transformed vertex.
pub open spec fn sx(v: Vertex) -> int {
    v.transformed_position.x as int
}

/// The screen-space y coordinate of a transformed vertex.
pub open spec fn sy(v: Vertex) -> int {
    v.transformed_position.y as int
}

/// The vertex's screen coordinates lie in the rasterizer's addressable range.
pub open spec fn coords_in_range(v: Vertex) -> bool {
    &&& -COORD_LIMIT <= v.transformed_position.x <= COORD_LIMIT
    &&& -COORD_LIMIT <= v.transformed_position.y <= COORD_LIMIT
}

/// The fixed-point coordinate of a pixel center.
pub open spec fn center(p: int) -> int {
    p * 65536
}

/// Twice the signed screen-space area of a triangle.
pub open spec fn area2_s(a: Vertex, b: Vertex, c: Vertex) -> int {
    orient_s(sx(a), sy(a), sx(b), sy(b), sx(c), sy(c))
}

/// The barycentric weight of vertex `a` at pixel (px, py).
pub open spec fn w0_s(a: Vertex, b: Vertex, c: Vertex, px: int, py: int) -> int {
    orient_s(sx(b), sy(b), sx(c), sy(c), center(px), center(py))
}

/// The barycentric weight of vertex `b` at pixel (px, py).
pub open spec fn w1_s(a: Vertex, b: Vertex, c: Vertex, px: int, py: int) -> int {
    orient_s(sx(c), sy(c), sx(a), sy(a), center(px), center(py))
}

/// The barycentric weight of vertex `c` at pixel (px, py).
pub open spec fn w2_s(a: Vertex, b: Vertex, c: Vertex, px: int, py: int) -> int {
    orient_s(sx(a), sy(a), sx(b), sy(b), center(px), center(py))
}

/// A pixel center is covered when the triangle is not degenerate and all
/// three barycentric weights are non-negative (after orienting by the sign
/// of the area). This is the closed convex hull of a non-degenerate
/// triangle, and the rasterizer's inclusive edge rule.
#[verifier::opaque]
pub open spec fn covered_s(a: Vertex, b: Vertex, c: Vertex, px: int, py: int) -> bool {
    let ar = area2_s(a, b, c);
    &&& ar != 0
    &&& if ar > 0 {
        w0_s(a, b, c, px, py) >= 0 && w1_s(a, b, c, px, py) >= 0 && w2_s(a, b, c, px, py) >= 0
    } else {
        w0_s(a, b, c, px, py) <= 0 && w1_s(a, b, c, px, py) <= 0 && w2_s(a, b, c, px, py) <= 0
    }
}

/// A pixel center strictly inside the triangle's convex hull: all three
/// oriented weights strictly positive.
pub open spec fn strictly_inside_s(a: Vertex, b: Vertex, c: Vertex, px: int, py: int) -> bool {
    let ar = area2_s(a, b, c);
    &&& ar != 0
    &&& if ar > 0 {
        w0_s(a, b, c, px, py) > 0 && w1_s(a, b, c, px, py) > 0 && w2_s(a, b, c, px, py) > 0
    } else {
        w0_s(a, b, c, px, py) < 0 && w1_s(a, b, c, px, py) < 0 && w2_s(a, b, c, px, py) < 0
    }
}

/// Division truncating toward zero (for a positive divisor).
pub open spec fn div_trunc_s(n: int, d: int) -> int {
    if n >= 0 {
        n / d
    } else {
        -((-n) / d)
    }
}

/// The oriented (non-negative under coverage) barycentric weights.
pub open spec fn uw0_s(a: Vertex, b: Vertex, c: Vertex, px: int, py: int) -> int {
    if area2_s(a, b, c) > 0 {
        w0_s(a, b, c, px, py)
    } else {
        -w0_s(a, b, c, px, py)
    }
}

/// The oriented weight of vertex `b`.
pub open spec fn uw1_s(a: Vertex, b: Vertex, c: Vertex, px: int, py: int) -> int {
    if area2_s(a, b, c) > 0 {
        w1_s(a, b, c, px, py)
    } else {
        -w1_s(a, b, c, px, py)
    }
}

/// The oriented weight of vertex `c`.
pub open spec fn uw2_s(a: Vertex, b: Vertex, c: Vertex, px: int, py: int) -> int {
    if area2_s(a, b, c) > 0 {
        w2_s(a, b, c, px, py)
    } else {
        -w2_s(a, b, c, px, py)
    }
}

/// Barycentric interpolation of a fixed-point attribute at a pixel center:
/// the weighted sum of the three vertex attributes divided by the doubled
/// area, truncating toward zero.
pub open spec fn interp_s(
    a: Vertex,
    b: Vertex,
    c: Vertex,
    px: int,
    py: int,
    a0: i64,
    a1: i64,
    a2: i64,
) -> i64 {
    let num = uw0_s(a, b, c, px, py) * a0 + uw1_s(a, b, c, px, py) * a1 + uw2_s(a, b, c, px, py)
        * a2;
    div_trunc_s(num, abs_int(area2_s(a, b, c))) as i64
}

/// The per-vertex lighting intensity: the z component of the normalized
/// transformed normal (a dot product with the fixed light direction toward
/// the viewer), clamped into `[0, 1]`.
pub open spec fn vert_intensity_s(n: Fx3) -> i64 {
    let l = n.length_s();
    if l == 0 {
        0
    } else {
        clamp64_s(fx_div_s(n.z, l) as int, 0, FX_ONE as int)
    }
}

/// Compute the per-vertex lighting intensity.
pub fn vert_intensity(n: &Fx3) -> (r: i64)
    ensures
        r == vert_intensity_s(*n),
{
    let l: i64 = n.length();
    if l == 0 {
        0
    } else {
        clamp64(fx_div(n.z, l), 0, FX_ONE)
    }
}

/// The fragment the rasterizer emits at a covered pixel: the integer pixel
/// cell with depth, object-space position, lighting intensity and texture
/// coordinates interpolated barycentrically.
#[verifier::opaque]
pub open spec fn frag_at_s(a: Vertex, b: Vertex, c: Vertex, px: int, py: int) -> Fragment {
    Fragment {
        x: px as usize,
        y: py as usize,
        depth: interp_s(
            a,
            b,
            c,
            px,
            py,
            a.transformed_position.z,
            b.transformed_position.z,
            c.transformed_position.z,
        ),
        vertex_position: Fx3 {
            x: interp_s(a, b, c, px, py, a.position.x, b.position.x, c.position.x),
            y: interp_s(a, b, c, px, py, a.position.y, b.position.y, c.position.y),
            z: interp_s(a, b, c, px, py, a.position.z, b.position.z, c.position.z),
        },
        intensity: interp_s(
            a,
            b,
            c,
            px,
            py,
            vert_intensity_s(a.transformed_normal),
            vert_intensity_s(b.transformed_normal),
            vert_intensity_s(c.transformed_normal),
        ),
        tex_coords: Fx2 {
            x: interp_s(a, b, c, px, py, a.tex_coords.x, b.tex_coords.x, c.tex_coords.x),
            y: interp_s(a, b, c, px, py, a.tex_coords.y, b.tex_coords.y, c.tex_coords.y),
        },
    }
}

/// A fragment the rasterizer may emit for this triangle into a target of the
/// given size: in bounds, covered, and exactly the interpolated fragment of
/// its pixel.
#[verifier::opaque]
pub open spec fn frag_ok_s(
    a: Vertex,
    b: Vertex,
    c: Vertex,
    fr: Fragment,
    width: int,
    height: int,
) -> bool {
    &&& fr.x < width
    &&& fr.y < height
    &&& covered_s(a, b, c, fr.x as int, fr.y as int)
    &&& fr == frag_at_s(a, b, c, fr.x as int, fr.y as int)
}

/// The three barycentric weights sum to the doubled area, and reproduce the
/// pixel's coordinates: the algebraic heart of scan conversion, stated over
/// raw coordinates.

proof fn lemma_bary_raw_sum(x0: int, y0: int, x1: int, y1: int, x2: int, y2: int, px: int, py: int)
    ensures
        ((x2 - x1) * (py - y1) - (y2 - y1) * (px - x1)) + ((x0 - x2) * (py - y2) - (y0 - y2) * (px
            - x2)) + ((x1 - x0) * (py - y0) - (y1 - y0) * (px - x0)) == (x1 - x0) * (y2 - y0) - (y1
            - y0) * (x2 - x0),
{
    let qx0: int = x0 - px;
    let qy0: int = y0 - py;
    let qx1: int = x1 - px;
    let qy1: int = y1 - py;
    let qx2: int = x2 - px;
    let qy2: int = y2 - py;
    lemma_w_translate(x1, y1, x2, y2, px, py);
    lemma_w_translate(x2, y2, x0, y0, px, py);
    lemma_w_translate(x0, y0, x1, y1, px, py);
    assert((qx1 - qx0) * (qy2 - qy0) == qx1 * qy2 - qx1 * qy0 - qx0 * qy2 + qx0 * qy0)
        by (nonlinear_arith);
    assert((qy1 - qy0) * (qx2 - qx0) == qy1 * qx2 - qy1 * qx0 - qy0 * qx2 + qy0 * qx0)
        by (nonlinear_arith);
    lemma_mul_is_commutative(qx2, qy1);
    lemma_mul_is_commutative(qx2, qy0);
    lemma_mul_is_commutative(qx0, qy1);
    lemma_mul_is_commutative(qx0, qy0);
}

/// An edge function is translation-invariant: it equals the cross product of
/// the two vertices taken relative to the query point.
proof fn lemma_w_translate(x1: int, y1: int, x2: int, y2: int, px: int, py: int)
    by (nonlinear_arith)
    ensures
        (x2 - x1) * (py - y1) - (y2 - y1) * (px - x1) == (x1 - px) * (y2 - py) - (x2 - px) * (y1
            - py),
{
}

/// The cyclic cross-product sums vanish: the algebraic reason barycentric
/// weights reproduce coordinates.
proof fn lemma_cross_cancel_a(a0: int, b0: int, a1: int, b1: int, a2: int, b2: int)
    by (nonlinear_arith)
    ensures
        (a1 * b2 - a2 * b1) * a0 + (a2 * b0 - a0 * b2) * a1 + (a0 * b1 - a1 * b0) * a2 == 0,
{
}

proof fn lemma_cross_cancel_b(a0: int, b0: int, a1: int, b1: int, a2: int, b2: int)
    by (nonlinear_arith)
    ensures
        (a1 * b2 - a2 * b1) * b0 + (a2 * b0 - a0 * b2) * b1 + (a0 * b1 - a1 * b0) * b2 == 0,
{
}

proof fn lemma_bary_raw_xy(x0: int, y0: int, x1: int, y1: int, x2: int, y2: int, px: int, py: int)
    ensures
        ((x2 - x1) * (py - y1) - (y2 - y1) * (px - x1)) * x0 + ((x0 - x2) * (py - y2) - (y0 - y2)
            * (px - x2)) * x1 + ((x1 - x0) * (py - y0) - (y1 - y0) * (px - x0)) * x2 == ((x1 - x0)
            * (y2 - y0) - (y1 - y0) * (x2 - x0)) * px,
        ((x2 - x1) * (py - y1) - (y2 - y1) * (px - x1)) * y0 + ((x0 - x2) * (py - y2) - (y0 - y2)
            * (px - x2)) * y1 + ((x1 - x0) * (py - y0) - (y1 - y0) * (px - x0)) * y2 == ((x1 - x0)
            * (y2 - y0) - (y1 - y0) * (x2 - x0)) * py,
{
    let qx0: int = x0 - px;
    let qy0: int = y0 - py;
    let qx1: int = x1 - px;
    let qy1: int = y1 - py;
    let qx2: int = x2 - px;
    let qy2: int = y2 - py;
    let w0: int = (x2 - x1) * (py - y1) - (y2 - y1) * (px - x1);
    let w1: int = (x0 - x2) * (py - y2) - (y0 - y2) * (px - x2);
    let w2: int = (x1 - x0) * (py - y0) - (y1 - y0) * (px - x0);
    let ar: int = (x1 - x0) * (y2 - y0) - (y1 - y0) * (x2 - x0);
    lemma_w_translate(x1, y1, x2, y2, px, py);
    lemma_w_translate(x2, y2, x0, y0, px, py);
    lemma_w_translate(x0, y0, x1, y1, px, py);
    assert(w0 == qx1 * qy2 - qx2 * qy1);
    assert(w1 == qx2 * qy0 - qx0 * qy2);
    assert(w2 == qx0 * qy1 - qx1 * qy0);
    lemma_cross_cancel_a(qx0, qy0, qx1, qy1, qx2, qy2);
    lemma_cross_cancel_b(qx0, qy0, qx1, qy1, qx2, qy2);
    assert(w0 * qx0 + w1 * qx1 + w2 * qx2 == 0);
    assert(w0 * qy0 + w1 * qy1 + w2 * qy2 == 0);
    lemma_bary_raw_sum(x0, y0, x1, y1, x2, y2, px, py);
    assert(w0 + w1 + w2 == ar);
    vstd::arithmetic::mul::lemma_mul_is_distributive_add(w0, qx0, px);
    vstd::arithmetic::mul::lemma_mul_is_distributive_add(w1, qx1, px);
    vstd::arithmetic::mul::lemma_mul_is_distributive_add(w2, qx2, px);
    vstd::arithmetic::mul::lemma_mul_is_distributive_add(w0, qy0, py);
    vstd::arithmetic::mul::lemma_mul_is_distributive_add(w1, qy1, py);
    vstd::arithmetic::mul::lemma_mul_is_distributive_add(w2, qy2, py);
    vstd::arithmetic::mul::lemma_mul_is_distributive_add_other_way(px, w0, w1);
    vstd::arithmetic::mul::lemma_mul_is_distributive_add_other_way(px, w0 + w1, w2);
    vstd::arithmetic::mul::lemma_mul_is_distributive_add_other_way(py, w0, w1);
    vstd::arithmetic::mul::lemma_mul_is_distributive_add_other_way(py, w0 + w1, w2);
    assert(w0 * x0 + w1 * x1 + w2 * x2 == (w0 * qx0 + w1 * qx1 + w2 * qx2) + (w0 + w1 + w2) * px);
    assert(w0 * y0 + w1 * y1 + w2 * y2 == (w0 * qy0 + w1 * qy1 + w2 * qy2) + (w0 + w1 + w2) * py);
}

/// The weight identities restated over the triangle's spec functions.
pub proof fn lemma_bary_weights(a: Vertex, b: Vertex, c: Vertex, px: int, py: int)
    ensures
        w0_s(a, b, c, px, py) + w1_s(a, b, c, px, py) + w2_s(a, b, c, px, py) == area2_s(a, b, c),
        w0_s(a, b, c, px, py) * sx(a) + w1_s(a, b, c, px, py) * sx(b) + w2_s(a, b, c, px, py) * sx(
            c,
        ) == area2_s(a, b, c) * center(px),
        w0_s(a, b, c, px, py) * sy(a) + w1_s(a, b, c, px, py) * sy(b) + w2_s(a, b, c, px, py) * sy(
            c,
        ) == area2_s(a, b, c) * center(py),
{
    lemma_bary_raw_sum(sx(a), sy(a), sx(b), sy(b), sx(c), sy(c), center(px), center(py));
    lemma_bary_raw_xy(sx(a), sy(a), sx(b), sy(b), sx(c), sy(c), center(px), center(py));
}

/// Truncating division of a value between two multiples of the divisor lands
/// between the two factors.
proof fn lemma_div_trunc_bounds(n: int, d: int, lo: int, hi: int)
    requires
        d > 0,
        d * lo <= n,
        n <= d * hi,
    ensures
        lo <= div_trunc_s(n, d) <= hi,
{
    if n >= 0 {
        let q = n / d;
        lemma_div_pos_is_pos(n, d);
        lemma_mul_is_commutative(d, hi);
        lemma_multiply_divide_le(n, d, hi);
        if lo > 0 {
            lemma_div_multiples_vanish(lo, d);
            lemma_div_is_ordered(d * lo, n, d);
        }
    } else {
        let m = -n;
        let q = m / d;
        lemma_div_pos_is_pos(m, d);
        // lower bound: m <= d * (-lo), so q <= -lo, so -q >= lo
        assert(m <= d * (-lo)) by (nonlinear_arith)
            requires
                d * lo <= n,
                m == -n,
        ;
        lemma_mul_is_commutative(d, -lo);
        lemma_multiply_divide_le(m, d, -lo);
        if hi < 0 {
            // m >= d * (-hi), so q >= -hi, so -q <= hi
            assert(d * (-hi) <= m) by (nonlinear_arith)
                requires
                    n <= d * hi,
                    m == -n,
            ;
            lemma_div_multiples_vanish(-hi, d);
            lemma_div_is_ordered(d * (-hi), m, d);
        }
    }
}

/// Exact edge-function evaluation; the bounded inputs keep the result within
/// one sign bit of the 64-bit range.
fn orient_e(ax: i64, ay: i64, bx: i64, by: i64, px: i64, py: i64) -> (r: i128)
    requires
        -COORD_LIMIT <= ax <= COORD_LIMIT,
        -COORD_LIMIT <= ay <= COORD_LIMIT,
        -COORD_LIMIT <= bx <= COORD_LIMIT,
        -COORD_LIMIT <= by <= COORD_LIMIT,
        -COORD_LIMIT <= px <= COORD_LIMIT,
        -COORD_LIMIT <= py <= COORD_LIMIT,
    ensures
        r == orient_s(ax as int, ay as int, bx as int, by as int, px as int, py as int),
        -0x8000000000000000 <= r <= 0x8000000000000000,
{
    proof {
        crate::fx::lemma_mul_range(
            bx - ax,
            py - ay,
            0x80000000,
            0x80000000,
        );
        crate::fx::lemma_mul_range(
            by - ay,
            px - ax,
            0x80000000,
            0x80000000,
        );
    }
    let d1: i128 = (bx as i128 - ax as i128) * (py as i128 - ay as i128);
    let d2: i128 = (by as i128 - ay as i128) * (px as i128 - ax as i128);
    d1 - d2
}

/// The smaller of three integers.
pub open spec fn min3_s(a: int, b: int, c: int) -> int {
    if a <= b && a <= c {
        a
    } else if b <= c {
        b
    } else {
        c
    }
}

/// The larger of three integers.
pub open spec fn max3_s(a: int, b: int, c: int) -> int {
    if a >= b && a >= c {
        a
    } else if b >= c {
        b
    } else {
        c
    }
}

/// A convex combination with non-negative weights stays at or below the
/// weighted bound.
proof fn lemma_convex_ub(u0: int, u1: int, u2: int, aa: int, a0: int, a1: int, a2: int, hi: int)
    by (nonlinear_arith)
    requires
        0 <= u0,
        0 <= u1,
        0 <= u2,
        u0 + u1 + u2 == aa,
        a0 <= hi,
        a1 <= hi,
        a2 <= hi,
    ensures
        u0 * a0 + u1 * a1 + u2 * a2 <= aa * hi,
{
}

/// A convex combination with non-negative weights stays at or above the
/// weighted bound.
proof fn lemma_convex_lb(u0: int, u1: int, u2: int, aa: int, a0: int, a1: int, a2: int, lo: int)
    by (nonlinear_arith)
    requires
        0 <= u0,
        0 <= u1,
        0 <= u2,
        u0 + u1 + u2 == aa,
        lo <= a0,
        lo <= a1,
        lo <= a2,
    ensures
        aa * lo <= u0 * a0 + u1 * a1 + u2 * a2,
{
}

/// A covered pixel center lies inside the triangle's axis-aligned bounding
/// box: its coordinates are convex combinations of the vertex coordinates.
pub proof fn lemma_covered_in_box(a: Vertex, b: Vertex, c: Vertex, px: int, py: int)
    requires
        covered_s(a, b, c, px, py),
    ensures
        min3_s(sx(a), sx(b), sx(c)) <= center(px) <= max3_s(sx(a), sx(b), sx(c)),
        min3_s(sy(a), sy(b), sy(c)) <= center(py) <= max3_s(sy(a), sy(b), sy(c)),
{
    reveal(covered_s);
    let w0 = w0_s(a, b, c, px, py);
    let w1 = w1_s(a, b, c, px, py);
    let w2 = w2_s(a, b, c, px, py);
    let ar = area2_s(a, b, c);
    lemma_bary_weights(a, b, c, px, py);
    if ar > 0 {
        lemma_convex_ub(w0, w1, w2, ar, sx(a), sx(b), sx(c), max3_s(sx(a), sx(b), sx(c)));
        lemma_convex_lb(w0, w1, w2, ar, sx(a), sx(b), sx(c), min3_s(sx(a), sx(b), sx(c)));
        lemma_convex_ub(w0, w1, w2, ar, sy(a), sy(b), sy(c), max3_s(sy(a), sy(b), sy(c)));
        lemma_convex_lb(w0, w1, w2, ar, sy(a), sy(b), sy(c), min3_s(sy(a), sy(b), sy(c)));
        assert(center(px) <= max3_s(sx(a), sx(b), sx(c))) by (nonlinear_arith)
            requires
                ar * center(px) <= ar * max3_s(sx(a), sx(b), sx(c)),
                ar > 0,
        ;
        assert(min3_s(sx(a), sx(b), sx(c)) <= center(px)) by (nonlinear_arith)
            requires
                ar * min3_s(sx(a), sx(b), sx(c)) <= ar * center(px),
                ar > 0,
        ;
        assert(center(py) <= max3_s(sy(a), sy(b), sy(c))) by (nonlinear_arith)
            requires
                ar * center(py) <= ar * max3_s(sy(a), sy(b), sy(c)),
                ar > 0,
        ;
        assert(min3_s(sy(a), sy(b), sy(c)) <= center(py)) by (nonlinear_arith)
            requires
                ar * min3_s(sy(a), sy(b), sy(c)) <= ar * center(py),
                ar > 0,
        ;
    } else {
        let aa = -ar;
        vstd::arithmetic::mul::lemma_mul_unary_negation(w0, sx(a));
        vstd::arithmetic::mul::lemma_mul_unary_negation(w1, sx(b));
        vstd::arithmetic::mul::lemma_mul_unary_negation(w2, sx(c));
        vstd::arithmetic::mul::lemma_mul_unary_negation(w0, sy(a));
        vstd::arithmetic::mul::lemma_mul_unary_negation(w1, sy(b));
        vstd::arithmetic::mul::lemma_mul_unary_negation(w2, sy(c));
        vstd::arithmetic::mul::lemma_mul_unary_negation(ar, center(px));
        vstd::arithmetic::mul::lemma_mul_unary_negation(ar, center(py));
        assert((-w0) * sx(a) + (-w1) * sx(b) + (-w2) * sx(c) == aa * center(px));
        assert((-w0) * sy(a) + (-w1) * sy(b) + (-w2) * sy(c) == aa * center(py));
        lemma_convex_ub(-w0, -w1, -w2, aa, sx(a), sx(b), sx(c), max3_s(sx(a), sx(b), sx(c)));
        lemma_convex_lb(-w0, -w1, -w2, aa, sx(a), sx(b), sx(c), min3_s(sx(a), sx(b), sx(c)));
        lemma_convex_ub(-w0, -w1, -w2, aa, sy(a), sy(b), sy(c), max3_s(sy(a), sy(b), sy(c)));
        lemma_convex_lb(-w0, -w1, -w2, aa, sy(a), sy(b), sy(c), min3_s(sy(a), sy(b), sy(c)));
        assert(center(px) <= max3_s(sx(a), sx(b), sx(c))) by (nonlinear_arith)
            requires
                aa * center(px) <= aa * max3_s(sx(a), sx(b), sx(c)),
                aa > 0,
        ;
        assert(min3_s(sx(a), sx(b), sx(c)) <= center(px)) by (nonlinear_arith)
            requires
                aa * min3_s(sx(a), sx(b), sx(c)) <= aa * center(px),
                aa > 0,
        ;
        assert(center(py) <= max3_s(sy(a), sy(b), sy(c))) by (nonlinear_arith)
            requires
                aa * center(py) <= aa * max3_s(sy(a), sy(b), sy(c)),
                aa > 0,
        ;
        assert(min3_s(sy(a), sy(b), sy(c)) <= center(py)) by (nonlinear_arith)
            requires
                aa * min3_s(sy(a), sy(b), sy(c)) <= aa * center(py),
                aa > 0,
        ;
    }
}

/// A pixel whose fixed-point center sits between two coordinates sits
/// between their pixel cells.
proof fn lemma_center_bounds(q: int, mn: int, mx: int)
    requires
        mn <= center(q),
        center(q) <= mx,
    ensures
        -((-mn) / 65536) <= q,
        q <= mx / 65536,
{
    lemma_div_multiples_vanish(-q, 65536);
    lemma_div_is_ordered(65536 * (-q), -mn, 65536);
    lemma_div_multiples_vanish(q, 65536);
    lemma_div_is_ordered(65536 * q, mx, 65536);
    assert(65536 * (-q) == -center(q)) by (nonlinear_arith);
    assert(65536 * q == center(q)) by (nonlinear_arith);
}

/// Truncating division on `i128` with a positive divisor.
fn div_trunc_e(n: i128, d: i128) -> (q: i128)
    requires
        0 < d,
        i128::MIN < n,
    ensures
        q == div_trunc_s(n as int, d as int),
{
    if n >= 0 {
        let nn: u128 = n as u128;
        let dd: u128 = d as u128;
        let qq: u128 = nn / dd;
        proof {
            lemma_div_nonincreasing(nn as int, dd as int);
        }
        qq as i128
    } else {
        let m: u128 = (-n) as u128;
        let dd: u128 = d as u128;
        let qq: u128 = m / dd;
        proof {
            lemma_div_nonincreasing(m as int, dd as int);
        }
        -(qq as i128)
    }
}

/// Exact multiples divide out under truncating division.
proof fn lemma_div_trunc_exact(q: int, d: int)
    requires
        d > 0,
    ensures
        div_trunc_s(d * q, d) == q,
{
    if q >= 0 {
        assert(d * q >= 0) by (nonlinear_arith)
            requires
                d > 0,
                q >= 0,
        ;
        lemma_div_multiples_vanish(q, d);
    } else {
        assert(d * q < 0) by (nonlinear_arith)
            requires
                d > 0,
                q < 0,
        ;
        assert(-(d * q) == d * (-q)) by (nonlinear_arith);
        lemma_div_multiples_vanish(-q, d);
    }
}

/// A triangle that covers no in-bounds pixel center emits no fragments:
/// every fragment the rasterizer emits sits at an in-bounds covered pixel,
/// so a triangle whose convex hull misses the target entirely emits none.
pub proof fn lemma_offscreen_triangle_empty(
    a: Vertex,
    b: Vertex,
    c: Vertex,
    frags: Seq<Fragment>,
    width: int,
    height: int,
)
    requires
        forall|i: int|
            0 <= i < frags.len() ==> frag_ok_s(a, b, c, #[trigger] frags[i], width, height),
        forall|px: int, py: int|
            0 <= px < width && 0 <= py < height ==> !covered_s(a, b, c, px, py),
    ensures
        frags.len() == 0,
{
    reveal(frag_ok_s);
    if frags.len() > 0 {
        let fr = frags[0];
        assert(frag_ok_s(a, b, c, fr, width, height));
        assert(!covered_s(a, b, c, fr.x as int, fr.y as int));
        assert(false);
    }
}

/// A triangle that lies entirely off one side of the target covers no
/// in-bounds pixel center: its hull misses every pixel center of the
/// target, by the bounding-box property of coverage.
pub proof fn lemma_triangle_outside_no_coverage(
    a: Vertex,
    b: Vertex,
    c: Vertex,
    px: int,
    py: int,
    width: int,
    height: int,
)
    requires
        0 <= px < width,
        0 <= py < height,
        max3_s(sx(a), sx(b), sx(c)) < 0 || min3_s(sx(a), sx(b), sx(c)) > center(width - 1)
            || max3_s(sy(a), sy(b), sy(c)) < 0 || min3_s(sy(a), sy(b), sy(c)) > center(height - 1),
    ensures
        !covered_s(a, b, c, px, py),
{
    if covered_s(a, b, c, px, py) {
        lemma_covered_in_box(a, b, c, px, py);
        assert(center(px) >= 0) by (nonlinear_arith)
            requires
                px >= 0,
        ;
        assert(center(py) >= 0) by (nonlinear_arith)
            requires
                py >= 0,
        ;
        assert(center(px) <= center(width - 1)) by (nonlinear_arith)
            requires
                px <= width - 1,
        ;
        assert(center(py) <= center(height - 1)) by (nonlinear_arith)
            requires
                py <= height - 1,
        ;
        assert(false);
    }
}

/// A pixel center strictly inside the hull is covered.
pub proof fn lemma_strictly_inside_covered(a: Vertex, b: Vertex, c: Vertex, px: int, py: int)
    requires
        strictly_inside_s(a, b, c, px, py),
    ensures
        covered_s(a, b, c, px, py),
{
    reveal(covered_s);
}

/// Every pixel center strictly inside the triangle's convex hull yields
/// exactly one fragment: one is emitted (with exactly the interpolated
/// attributes of that pixel), and no two fragments share a pixel. The
/// premises are the rasterizer's postconditions.
pub proof fn lemma_interior_pixel_exactly_one(
    a: Vertex,
    b: Vertex,
    c: Vertex,
    frags: Seq<Fragment>,
    width: int,
    height: int,
    px: int,
    py: int,
)
    requires
        forall|i: int|
            0 <= i < frags.len() ==> frag_ok_s(a, b, c, #[trigger] frags[i], width, height),
        forall|qx: int, qy: int|
            0 <= qx < width && 0 <= qy < height && covered_s(a, b, c, qx, qy) ==> exists|i: int|
                0 <= i < frags.len() && (#[trigger] frags[i]).x == qx && frags[i].y == qy,
        forall|i: int, j: int|
            0 <= i < j < frags.len() ==> !((#[trigger] frags[i]).x == (#[trigger] frags[j]).x
                && frags[i].y == frags[j].y),
        0 <= px < width,
        0 <= py < height,
        strictly_inside_s(a, b, c, px, py),
    ensures
        exists|i: int|
            0 <= i < frags.len() && (#[trigger] frags[i]).x == px && frags[i].y == py && frags[i]
                == frag_at_s(a, b, c, px, py),
        forall|i: int, j: int|
            0 <= i < frags.len() && 0 <= j < frags.len() && (#[trigger] frags[i]).x == px
                && frags[i].y == py && (#[trigger] frags[j]).x == px && frags[j].y == py ==> i == j,
{
    lemma_strictly_inside_covered(a, b, c, px, py);
    let i = choose|i: int|
        0 <= i < frags.len() && (#[trigger] frags[i]).x == px && frags[i].y == py;
    reveal(frag_ok_s);
    assert(frag_ok_s(a, b, c, frags[i], width, height));
    assert(frags[i] == frag_at_s(a, b, c, px, py));
    assert(0 <= i < frags.len() && frags[i].x == px && frags[i].y == py && frags[i] == frag_at_s(
        a,
        b,
        c,
        px,
        py,
    ));
}

/// No pixel center outside the hull yields a fragment: fragments only sit
/// at covered pixels.
pub proof fn lemma_outside_hull_no_fragment(
    a: Vertex,
    b: Vertex,
    c: Vertex,
    frags: Seq<Fragment>,
    width: int,
    height: int,
    px: int,
    py: int,
)
    requires
        forall|i: int|
            0 <= i < frags.len() ==> frag_ok_s(a, b, c, #[trigger] frags[i], width, height),
        !covered_s(a, b, c, px, py),
    ensures
        forall|i: int|
            0 <= i < frags.len() ==> !((#[trigger] frags[i]).x == px && frags[i].y == py),
{
    reveal(frag_ok_s);
    assert forall|i: int| 0 <= i < frags.len() implies !((#[trigger] frags[i]).x == px
        && frags[i].y == py) by {
        assert(frag_ok_s(a, b, c, frags[i], width, height));
    }
}

/// Barycentric interpolation is exact at a vertex: a fragment whose pixel
/// center coincides with a vertex's screen position carries exactly that
/// vertex's depth, object-space position, lighting intensity and texture
/// coordinates.
pub proof fn lemma_interp_exact_at_vertex(a: Vertex, b: Vertex, c: Vertex, px: int, py: int)
    requires
        area2_s(a, b, c) != 0,
        center(px) == sx(a),
        center(py) == sy(a),
    ensures
        frag_at_s(a, b, c, px, py).depth == a.transformed_position.z,
        frag_at_s(a, b, c, px, py).vertex_position == a.position,
        frag_at_s(a, b, c, px, py).intensity == vert_intensity_s(a.transformed_normal),
        frag_at_s(a, b, c, px, py).tex_coords == a.tex_coords,
{
    reveal(frag_at_s);
    let w0 = w0_s(a, b, c, px, py);
    let w1 = w1_s(a, b, c, px, py);
    let w2 = w2_s(a, b, c, px, py);
    let ar = area2_s(a, b, c);
    lemma_bary_weights(a, b, c, px, py);
    lemma_mul_is_commutative(sx(a) - sx(c), sy(a) - sy(c));
    assert(w1 == 0);
    assert(w2 == 0);
    assert(w0 == ar);
    let aa = abs_int(ar);
    assert(uw0_s(a, b, c, px, py) == aa);
    assert(uw1_s(a, b, c, px, py) == 0);
    assert(uw2_s(a, b, c, px, py) == 0);
    lemma_interp_single(a, b, c, px, py, a.transformed_position.z);
    lemma_interp_single(a, b, c, px, py, a.position.x);
    lemma_interp_single(a, b, c, px, py, a.position.y);
    lemma_interp_single(a, b, c, px, py, a.position.z);
    lemma_interp_single(a, b, c, px, py, vert_intensity_s(a.transformed_normal));
    lemma_interp_single(a, b, c, px, py, a.tex_coords.x);
    lemma_interp_single(a, b, c, px, py, a.tex_coords.y);
}

/// When the full weight sits on the first vertex, interpolation returns its
/// attribute exactly, whatever the other two attributes.
proof fn lemma_interp_single(a: Vertex, b: Vertex, c: Vertex, px: int, py: int, a0: i64)
    requires
        area2_s(a, b, c) != 0,
        uw0_s(a, b, c, px, py) == abs_int(area2_s(a, b, c)),
        uw1_s(a, b, c, px, py) == 0,
        uw2_s(a, b, c, px, py) == 0,
    ensures
        forall|a1: i64, a2: i64| #[trigger] interp_s(a, b, c, px, py, a0, a1, a2) == a0,
{
    let aa = abs_int(area2_s(a, b, c));
    assert forall|a1: i64, a2: i64| #[trigger] interp_s(a, b, c, px, py, a0, a1, a2) == a0 by {
        assert(aa * a0 + 0 * a1 + 0 * a2 == aa * a0);
        lemma_div_trunc_exact(a0 as int, aa);
        assert(div_trunc_s(aa * a0, aa) == a0);
    }
}

/// Interpolate one attribute from normalized weights; the result is a convex
/// combination, so it stays between the smallest and largest vertex value.
fn interp3(u0: i128, u1: i128, u2: i128, aa: i128, a0: i64, a1: i64, a2: i64) -> (r: i64)
    requires
        0 <= u0,
        0 <= u1,
        0 <= u2,
        u0 + u1 + u2 == aa,
        0 < aa <= 0x8000000000000000,
    ensures
        r as int == div_trunc_s(u0 * a0 + u1 * a1 + u2 * a2, aa as int),
        min3_s(a0 as int, a1 as int, a2 as int) <= r <= max3_s(a0 as int, a1 as int, a2 as int),
{
    proof {
        crate::fx::lemma_mul_range(u0 as int, a0 as int, u0 as int, 0x8000000000000000);
        crate::fx::lemma_mul_range(u1 as int, a1 as int, u1 as int, 0x8000000000000000);
        crate::fx::lemma_mul_range(u2 as int, a2 as int, u2 as int, 0x8000000000000000);
    }
    let n: i128 = u0 * a0 as i128 + u1 * a1 as i128 + u2 * a2 as i128;
    let ghost lo: int = min3_s(a0 as int, a1 as int, a2 as int);
    let ghost hi: int = max3_s(a0 as int, a1 as int, a2 as int);
    proof {
        lemma_convex_lb(u0 as int, u1 as int, u2 as int, aa as int, a0 as int, a1 as int, a2 as int, lo);
        lemma_convex_ub(u0 as int, u1 as int, u2 as int, aa as int, a0 as int, a1 as int, a2 as int, hi);
        lemma_div_trunc_bounds(n as int, aa as int, lo, hi);
    }
    let q: i128 = div_trunc_e(n, aa);
    q as i64
}

/// The fragments of one row of the clipped box, for pixel columns
/// `[lo, hi)` left to right: one interpolated fragment per covered pixel
/// center, nothing otherwise.
pub open spec fn row_frags_s(a: Vertex, b: Vertex, c: Vertex, py: int, lo: int, hi: int) -> Seq<
    Fragment,
>
    decreases hi - lo,
{
    if lo >= hi {
        Seq::<Fragment>::empty()
    } else {
        row_frags_s(a, b, c, py, lo, hi - 1) + (if covered_s(a, b, c, hi - 1, py) {
            seq![frag_at_s(a, b, c, hi - 1, py)]
        } else {
            Seq::<Fragment>::empty()
        })
    }
}

/// The fragments of the clipped box, rows `[y_lo, y_end)` top to bottom,
/// each row left to right.
pub open spec fn box_frags_s(
    a: Vertex,
    b: Vertex,
    c: Vertex,
    x_lo: int,
    x_end: int,
    y_lo: int,
    y_end: int,
) -> Seq<Fragment>
    decreases y_end - y_lo,
{
    if y_lo >= y_end {
        Seq::<Fragment>::empty()
    } else {
        box_frags_s(a, b, c, x_lo, x_end, y_lo, y_end - 1) + row_frags_s(
            a,
            b,
            c,
            y_end - 1,
            x_lo,
            x_end,
        )
    }
}

/// The first pixel cell of a clipped bounding-box axis: the smallest pixel
/// whose center is at or above the fixed-point minimum, not below zero.
pub open spec fn px_lo_s(mn: int) -> int {
    let cl = -((-mn) / 65536);
    if cl < 0 {
        0
    } else {
        cl
    }
}

/// The last pixel cell of a clipped bounding-box axis: the largest pixel
/// whose center is at or below the fixed-point maximum, not beyond the
/// target.
pub open spec fn px_hi_s(mx: int, limit: int) -> int {
    let fl = mx / 65536;
    if fl > limit - 1 {
        limit - 1
    } else {
        fl
    }
}

/// The exact fragment sequence the rasterizer emits for one triangle: the
/// row-major walk of the triangle's bounding box clipped to the target,
/// keeping the covered pixel centers; degenerate triangles and empty boxes
/// emit nothing.
pub open spec fn triangle_frags_s(
    a: Vertex,
    b: Vertex,
    c: Vertex,
    width: int,
    height: int,
) -> Seq<Fragment> {
    if area2_s(a, b, c) == 0 || width <= 0 || height <= 0 {
        Seq::<Fragment>::empty()
    } else {
        let xl = px_lo_s(min3_s(sx(a), sx(b), sx(c)));
        let xh = px_hi_s(max3_s(sx(a), sx(b), sx(c)), width);
        let yl = px_lo_s(min3_s(sy(a), sy(b), sy(c)));
        let yh = px_hi_s(max3_s(sy(a), sy(b), sy(c)), height);
        if xl > xh || yl > yh {
            Seq::<Fragment>::empty()
        } else {
            box_frags_s(a, b, c, xl, xh + 1, yl, yh + 1)
        }
    }
}

/// Scan one row of the clipped bounding box, appending a fragment for every
/// covered pixel of the row in left-to-right order.
#[verifier::loop_isolation(false)]
#[verifier::rlimit(60)]
fn rasterize_row(
    a: &Vertex,
    b: &Vertex,
    c: &Vertex,
    width: usize,
    height: usize,
    py: usize,
    x_lo: usize,
    x_hi: usize,
    frags: &mut Vec<Fragment>,
)
    requires
        width <= MAX_DIM,
        height <= MAX_DIM,
        coords_in_range(*a),
        coords_in_range(*b),
        coords_in_range(*c),
        area2_s(*a, *b, *c) != 0,
        py < height,
        x_lo <= x_hi < width,
        forall|qx: int|
            0 <= qx < width && covered_s(*a, *b, *c, qx, py as int) ==> x_lo <= qx <= x_hi,
    ensures
        final(frags)@.len() >= old(frags)@.len(),
        forall|i: int| 0 <= i < old(frags)@.len() ==> final(frags)@[i] == old(frags)@[i],
        forall|i: int|
            old(frags)@.len() <= i < final(frags)@.len() ==> frag_ok_s(
                *a,
                *b,
                *c,
                #[trigger] final(frags)@[i],
                width as int,
                height as int,
            ) && final(frags)@[i].y == py,
        forall|i: int, j: int|
            old(frags)@.len() <= i < j < final(frags)@.len() ==> (#[trigger] final(frags)@[i]).x
                < (#[trigger] final(frags)@[j]).x,
        forall|qx: int|
            0 <= qx < width && covered_s(*a, *b, *c, qx, py as int) ==> exists|i: int|
                old(frags)@.len() <= i < final(frags)@.len() && (#[trigger] final(frags)@[i]).x
                    == qx,
        final(frags)@ == old(frags)@ + row_frags_s(*a, *b, *c, py as int, x_lo as int, x_hi as int
            + 1),
{
    let x0: i64 = a.transformed_position.x;
    let y0: i64 = a.transformed_position.y;
    let x1: i64 = b.transformed_position.x;
    let y1: i64 = b.transformed_position.y;
    let x2: i64 = c.transformed_position.x;
    let y2: i64 = c.transformed_position.y;
    let ar: i128 = orient_e(x0, y0, x1, y1, x2, y2);
    let iv0: i64 = vert_intensity(&a.transformed_normal);
    let iv1: i64 = vert_intensity(&b.transformed_normal);
    let iv2: i64 = vert_intensity(&c.transformed_normal);
    proof {
        reveal(covered_s);
        reveal(frag_at_s);
        reveal(frag_ok_s);
    }
    let ghost base: int = frags@.len() as int;
    proof {
        assert(frags@ =~= frags@ + row_frags_s(*a, *b, *c, py as int, x_lo as int, x_lo as int));
    }
    let mut px: usize = x_lo;
    while px <= x_hi
        invariant
            x_lo <= px <= x_hi + 1,
            frags@.len() >= base,
            frags@ == old(frags)@ + row_frags_s(*a, *b, *c, py as int, x_lo as int, px as int),
            forall|i: int| 0 <= i < base ==> frags@[i] == old(frags)@[i],
            forall|i: int|
                base <= i < frags@.len() ==> frag_ok_s(
                    *a,
                    *b,
                    *c,
                    #[trigger] frags@[i],
                    width as int,
                    height as int,
                ) && frags@[i].y == py && frags@[i].x < px,
            forall|i: int, j: int|
                base <= i < j < frags@.len() ==> (#[trigger] frags@[i]).x < (#[trigger] frags@[j]).x,
            forall|qx: int|
                0 <= qx < width && covered_s(*a, *b, *c, qx, py as int) && qx < px ==> exists|
                    i: int,
                |
                    base <= i < frags@.len() && (#[trigger] frags@[i]).x == qx,
        decreases x_hi + 1 - px,
    {
        let pcx: i64 = px as i64 * 65536;
        let pcy: i64 = py as i64 * 65536;
        let e0: i128 = orient_e(x1, y1, x2, y2, pcx, pcy);
        let e1: i128 = orient_e(x2, y2, x0, y0, pcx, pcy);
        let e2: i128 = orient_e(x0, y0, x1, y1, pcx, pcy);
        let pos: bool = ar > 0;
        let u0: i128 = if pos {
            e0
        } else {
            -e0
        };
        let u1: i128 = if pos {
            e1
        } else {
            -e1
        };
        let u2: i128 = if pos {
            e2
        } else {
            -e2
        };
        let aa: i128 = if pos {
            ar
        } else {
            -ar
        };
        proof {
            lemma_bary_weights(*a, *b, *c, px as int, py as int);
            assert(e0 == w0_s(*a, *b, *c, px as int, py as int));
            assert(e1 == w1_s(*a, *b, *c, px as int, py as int));
            assert(e2 == w2_s(*a, *b, *c, px as int, py as int));
            assert(ar == area2_s(*a, *b, *c));
        }
        if u0 >= 0 && u1 >= 0 && u2 >= 0 {
            proof {
                assert(covered_s(*a, *b, *c, px as int, py as int));
            }
            let depth: i64 = interp3(
                u0,
                u1,
                u2,
                aa,
                a.transformed_position.z,
                b.transformed_position.z,
                c.transformed_position.z,
            );
            let vx: i64 = interp3(u0, u1, u2, aa, a.position.x, b.position.x, c.position.x);
            let vy: i64 = interp3(u0, u1, u2, aa, a.position.y, b.position.y, c.position.y);
            let vz: i64 = interp3(u0, u1, u2, aa, a.position.z, b.position.z, c.position.z);
            let fin: i64 = interp3(u0, u1, u2, aa, iv0, iv1, iv2);
            let tu: i64 = interp3(u0, u1, u2, aa, a.tex_coords.x, b.tex_coords.x, c.tex_coords.x);
            let tv: i64 = interp3(u0, u1, u2, aa, a.tex_coords.y, b.tex_coords.y, c.tex_coords.y);
            let fr: Fragment = Fragment {
                x: px,
                y: py,
                depth,
                vertex_position: Fx3 { x: vx, y: vy, z: vz },
                intensity: fin,
                tex_coords: Fx2 { x: tu, y: tv },
            };
            proof {
                assert(fr == frag_at_s(*a, *b, *c, px as int, py as int));
            }
            let ghost pre: Seq<Fragment> = frags@;
            frags.push(fr);
            proof {
                assert(frags@ == pre.push(fr));
                assert(row_frags_s(*a, *b, *c, py as int, x_lo as int, px as int + 1)
                    =~= row_frags_s(*a, *b, *c, py as int, x_lo as int, px as int) + seq![fr]);
                assert(frags@ =~= old(frags)@ + row_frags_s(
                    *a,
                    *b,
                    *c,
                    py as int,
                    x_lo as int,
                    px as int + 1,
                ));
                assert forall|qx: int|
                    0 <= qx < width && covered_s(*a, *b, *c, qx, py as int) && qx < px + 1 implies exists|
                    i: int,
                |
                    base <= i < frags@.len() && (#[trigger] frags@[i]).x == qx by {
                    if qx == px {
                        assert(frags@[frags@.len() - 1].x == qx);
                    } else {
                        let i = choose|i: int|
                            base <= i < pre.len() && (#[trigger] pre[i]).x == qx;
                        assert(frags@[i].x == qx);
                    }
                }
            }
        } else {
            proof {
                assert(!covered_s(*a, *b, *c, px as int, py as int));
                assert(row_frags_s(*a, *b, *c, py as int, x_lo as int, px as int + 1)
                    =~= row_frags_s(*a, *b, *c, py as int, x_lo as int, px as int));
                assert forall|qx: int|
                    0 <= qx < width && covered_s(*a, *b, *c, qx, py as int) && qx < px + 1 implies exists|
                    i: int,
                |
                    base <= i < frags@.len() && (#[trigger] frags@[i]).x == qx by {
                    assert(qx < px);
                }
            }
        }
        px = px + 1;
    }
}

/// Rasterize one triangle into a target of the given size.
///
/// The contract pins the fragment sequence down completely: it equals the
/// row-major walk [`triangle_frags_s`] of the clipped bounding box, so every
/// emitted fragment sits at an in-bounds covered pixel with exactly the
/// barycentric interpolation of that pixel, every in-bounds covered pixel is
/// emitted exactly once, and a degenerate triangle emits nothing.
#[verifier::loop_isolation(false)]
#[verifier::rlimit(60)]
pub fn triangle(a: &Vertex, b: &Vertex, c: &Vertex, width: usize, height: usize) -> (frags: Vec<
    Fragment,
>)
    requires
        width <= MAX_DIM,
        height <= MAX_DIM,
        coords_in_range(*a),
        coords_in_range(*b),
        coords_in_range(*c),
    ensures
        forall|i: int|
            0 <= i < frags@.len() ==> frag_ok_s(
                *a,
                *b,
                *c,
                #[trigger] frags@[i],
                width as int,
                height as int,
            ),
        forall|px: int, py: int|
            0 <= px < width && 0 <= py < height && covered_s(*a, *b, *c, px, py) ==> exists|i: int|
                0 <= i < frags@.len() && (#[trigger] frags@[i]).x == px && frags@[i].y == py,
        forall|i: int, j: int|
            0 <= i < j < frags@.len() ==> !((#[trigger] frags@[i]).x == (#[trigger] frags@[j]).x
                && frags@[i].y == frags@[j].y),
        area2_s(*a, *b, *c) == 0 ==> frags@.len() == 0,
        frags@ == triangle_frags_s(*a, *b, *c, width as int, height as int),
{
    proof {
        reveal(covered_s);
    }
    let mut frags: Vec<Fragment> = Vec::new();
    let x0: i64 = a.transformed_position.x;
    let y0: i64 = a.transformed_position.y;
    let x1: i64 = b.transformed_position.x;
    let y1: i64 = b.transformed_position.y;
    let x2: i64 = c.transformed_position.x;
    let y2: i64 = c.transformed_position.y;
    let ar: i128 = orient_e(x0, y0, x1, y1, x2, y2);
    if ar == 0 {
        proof {
            assert(triangle_frags_s(*a, *b, *c, width as int, height as int)
                =~= Seq::<Fragment>::empty());
        }
        return frags;
    }
    if width == 0 || height == 0 {
        proof {
            assert(triangle_frags_s(*a, *b, *c, width as int, height as int)
                =~= Seq::<Fragment>::empty());
        }
        return frags;
    }
    let minx: i64 = if x0 <= x1 && x0 <= x2 {
        x0
    } else if x1 <= x2 {
        x1
    } else {
        x2
    };
    let maxx: i64 = if x0 >= x1 && x0 >= x2 {
        x0
    } else if x1 >= x2 {
        x1
    } else {
        x2
    };
    let miny: i64 = if y0 <= y1 && y0 <= y2 {
        y0
    } else if y1 <= y2 {
        y1
    } else {
        y2
    };
    let maxy: i64 = if y0 >= y1 && y0 >= y2 {
        y0
    } else if y1 >= y2 {
        y1
    } else {
        y2
    };
    let x_lo_f: i64 = crate::fx::fx_ceil(minx);
    let x_hi_f: i64 = crate::fx::fx_floor(maxx);
    let y_lo_f: i64 = crate::fx::fx_ceil(miny);
    let y_hi_f: i64 = crate::fx::fx_floor(maxy);
    let x_lo_i: i64 = if x_lo_f < 0 {
        0
    } else {
        x_lo_f
    };
    let x_hi_i: i64 = if x_hi_f > width as i64 - 1 {
        width as i64 - 1
    } else {
        x_hi_f
    };
    let y_lo_i: i64 = if y_lo_f < 0 {
        0
    } else {
        y_lo_f
    };
    let y_hi_i: i64 = if y_hi_f > height as i64 - 1 {
        height as i64 - 1
    } else {
        y_hi_f
    };
    proof {
        assert(minx as int == min3_s(sx(*a), sx(*b), sx(*c)));
        assert(maxx as int == max3_s(sx(*a), sx(*b), sx(*c)));
        assert(miny as int == min3_s(sy(*a), sy(*b), sy(*c)));
        assert(maxy as int == max3_s(sy(*a), sy(*b), sy(*c)));
        assert(x_lo_i as int == px_lo_s(minx as int));
        assert(x_hi_i as int == px_hi_s(maxx as int, width as int));
        assert(y_lo_i as int == px_lo_s(miny as int));
        assert(y_hi_i as int == px_hi_s(maxy as int, height as int));
        assert forall|qx: int, qy: int|
            0 <= qx < width && 0 <= qy < height && covered_s(*a, *b, *c, qx, qy) implies x_lo_i
            <= qx <= x_hi_i && y_lo_i <= qy <= y_hi_i by {
            lemma_covered_in_box(*a, *b, *c, qx, qy);
            lemma_center_bounds(qx, minx as int, maxx as int);
            lemma_center_bounds(qy, miny as int, maxy as int);
        }
    }
    if x_lo_i > x_hi_i || y_lo_i > y_hi_i {
        proof {
            assert(triangle_frags_s(*a, *b, *c, width as int, height as int)
                =~= Seq::<Fragment>::empty());
        }
        return frags;
    }
    let x_lo: usize = x_lo_i as usize;
    let x_hi: usize = x_hi_i as usize;
    let y_lo: usize = y_lo_i as usize;
    let y_hi: usize = y_hi_i as usize;
    proof {
        assert(frags@ =~= box_frags_s(
            *a,
            *b,
            *c,
            x_lo as int,
            x_hi as int + 1,
            y_lo as int,
            y_lo as int,
        ));
    }
    let mut py: usize = y_lo;
    while py <= y_hi
        invariant
            y_lo <= py <= y_hi + 1,
            frags@ == box_frags_s(
                *a,
                *b,
                *c,
                x_lo as int,
                x_hi as int + 1,
                y_lo as int,
                py as int,
            ),
            forall|i: int|
                0 <= i < frags@.len() ==> frag_ok_s(
                    *a,
                    *b,
                    *c,
                    #[trigger] frags@[i],
                    width as int,
                    height as int,
                ),
            forall|i: int| 0 <= i < frags@.len() ==> (#[trigger] frags@[i]).y < py,
            forall|i: int, j: int|
                0 <= i < j < frags@.len() ==> !((#[trigger] frags@[i]).x
                    == (#[trigger] frags@[j]).x && frags@[i].y == frags@[j].y),
            forall|qx: int, qy: int|
                0 <= qx < width && 0 <= qy < height && covered_s(*a, *b, *c, qx, qy) && qy < py
                    ==> exists|i: int|
                    0 <= i < frags@.len() && (#[trigger] frags@[i]).x == qx && frags@[i].y == qy,
        decreases y_hi + 1 - py,
    {
        let ghost before: Seq<Fragment> = frags@;
        rasterize_row(a, b, c, width, height, py, x_lo, x_hi, &mut frags);
        proof {
            assert(box_frags_s(
                *a,
                *b,
                *c,
                x_lo as int,
                x_hi as int + 1,
                y_lo as int,
                py as int + 1,
            ) =~= before + row_frags_s(*a, *b, *c, py as int, x_lo as int, x_hi as int + 1));
        }
        py = py + 1;
    }
    proof {
        assert(triangle_frags_s(*a, *b, *c, width as int, height as int) =~= box_frags_s(
            *a,
            *b,
            *c,
            x_lo as int,
            x_hi as int + 1,
            y_lo as int,
            y_hi as int + 1,
        ));
    }
    frags
}

} // verus!
