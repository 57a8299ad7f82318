//! Fixed-point vectors and matrices for the transform pipeline.
//!
//! Matrices are row-major: `mIJ` is row `I`, column `J`, and vectors are
//! columns, so `apply` computes rows-times-vector. All entry arithmetic is the
//! saturating fixed-point arithmetic of [`crate::fx`], and every operation's
//! contract states the resulting entries exactly.

use vstd::prelude::*;
use crate::fx::{FX_ONE, sat64, fx_mul_s, fx_div_s, fx_add, fx_sub, fx_mul, fx_div};

verus! {

/// A two-component fixed-point vector (texture coordinates).
#[derive(Clone, Copy, PartialEq, Eq, Structural, Debug)]
pub struct Fx2 {
    pub x: i64,
    pub y: i64,
}

impl Fx2 {
    /// Build a vector from its components.
    pub fn new(x: i64, y: i64) -> (v: Fx2)
        ensures
            v == (Fx2 { x, y }),
    {
        Fx2 { x, y }
    }
}

/// A three-component fixed-point vector.
#[derive(Clone, Copy, PartialEq, Eq, Structural, Debug)]
pub struct Fx3 {
    pub x: i64,
    pub y: i64,
    pub z: i64,
}

/// A four-component fixed-point vector.
#[derive(Clone, Copy, PartialEq, Eq, Structural, Debug)]
pub struct Fx4 {
    pub x: i64,
    pub y: i64,
    pub z: i64,
    pub w: i64,
}

/// A 3x3 fixed-point matrix.
#[derive(Clone, Copy, PartialEq, Eq, Structural, Debug)]
pub struct Mat3 {
    pub n00: i64,
    pub n01: i64,
    pub n02: i64,
    pub n10: i64,
    pub n11: i64,
    pub n12: i64,
    pub n20: i64,
    pub n21: i64,
    pub n22: i64,
}

/// A 4x4 fixed-point matrix.
#[derive(Clone, Copy, PartialEq, Eq, Structural, Debug)]
pub struct Mat4 {
    pub m00: i64,
    pub m01: i64,
    pub m02: i64,
    pub m03: i64,
    pub m10: i64,
    pub m11: i64,
    pub m12: i64,
    pub m13: i64,
    pub m20: i64,
    pub m21: i64,
    pub m22: i64,
    pub m23: i64,
    pub m30: i64,
    pub m31: i64,
    pub m32: i64,
    pub m33: i64,
}

/// Saturating sum of two scalars, at spec level.
pub open spec fn sadd_s(a: i64, b: i64) -> i64 {
    sat64(a + b)
}

/// Saturating difference of two scalars, at spec level.
pub open spec fn ssub_s(a: i64, b: i64) -> i64 {
    sat64(a - b)
}

/// A four-term fixed-point dot product, folded left.
pub open spec fn dot4_s(a0: i64, a1: i64, a2: i64, a3: i64, b0: i64, b1: i64, b2: i64, b3: i64) -> i64 {
    sadd_s(sadd_s(sadd_s(fx_mul_s(a0, b0), fx_mul_s(a1, b1)), fx_mul_s(a2, b2)), fx_mul_s(a3, b3))
}

fn dot4(a0: i64, a1: i64, a2: i64, a3: i64, b0: i64, b1: i64, b2: i64, b3: i64) -> (r: i64)
    ensures
        r == dot4_s(a0, a1, a2, a3, b0, b1, b2, b3),
{
    fx_add(fx_add(fx_add(fx_mul(a0, b0), fx_mul(a1, b1)), fx_mul(a2, b2)), fx_mul(a3, b3))
}

/// A three-term fixed-point dot product, folded left.
pub open spec fn dot3_s(a0: i64, a1: i64, a2: i64, b0: i64, b1: i64, b2: i64) -> i64 {
    sadd_s(sadd_s(fx_mul_s(a0, b0), fx_mul_s(a1, b1)), fx_mul_s(a2, b2))
}

fn dot3(a0: i64, a1: i64, a2: i64, b0: i64, b1: i64, b2: i64) -> (r: i64)
    ensures
        r == dot3_s(a0, a1, a2, b0, b1, b2),
{
    fx_add(fx_add(fx_mul(a0, b0), fx_mul(a1, b1)), fx_mul(a2, b2))
}

impl Fx3 {
    /// Build a vector from its components.
    pub fn new(x: i64, y: i64, z: i64) -> (v: Fx3)
        ensures
            v == (Fx3 { x, y, z }),
    {
        Fx3 { x, y, z }
    }

    /// Componentwise saturating sum.
    pub open spec fn add3_s(self, o: Fx3) -> Fx3 {
        Fx3 { x: sadd_s(self.x, o.x), y: sadd_s(self.y, o.y), z: sadd_s(self.z, o.z) }
    }

    /// Add another vector, saturating componentwise.
    pub fn add3(&self, o: &Fx3) -> (v: Fx3)
        ensures
            v == self.add3_s(*o),
    {
        Fx3 { x: fx_add(self.x, o.x), y: fx_add(self.y, o.y), z: fx_add(self.z, o.z) }
    }

    /// Componentwise saturating difference.
    pub open spec fn sub3_s(self, o: Fx3) -> Fx3 {
        Fx3 { x: ssub_s(self.x, o.x), y: ssub_s(self.y, o.y), z: ssub_s(self.z, o.z) }
    }

    /// Subtract another vector, saturating componentwise.
    pub fn sub3(&self, o: &Fx3) -> (v: Fx3)
        ensures
            v == self.sub3_s(*o),
    {
        Fx3 { x: fx_sub(self.x, o.x), y: fx_sub(self.y, o.y), z: fx_sub(self.z, o.z) }
    }

    /// Each component scaled by a fixed-point factor.
    pub open spec fn scale3_s(self, s: i64) -> Fx3 {
        Fx3 { x: fx_mul_s(self.x, s), y: fx_mul_s(self.y, s), z: fx_mul_s(self.z, s) }
    }

    /// Scale by a fixed-point factor.
    pub fn scale3(&self, s: i64) -> (v: Fx3)
        ensures
            v == self.scale3_s(s),
    {
        Fx3 { x: fx_mul(self.x, s), y: fx_mul(self.y, s), z: fx_mul(self.z, s) }
    }

    /// The fixed-point dot product of two vectors.
    pub open spec fn dot_s(self, o: Fx3) -> i64 {
        dot3_s(self.x, self.y, self.z, o.x, o.y, o.z)
    }

    /// Dot product.
    pub fn dot(&self, o: &Fx3) -> (r: i64)
        ensures
            r == self.dot_s(*o),
    {
        dot3(self.x, self.y, self.z, o.x, o.y, o.z)
    }

    /// The fixed-point cross product of two vectors.
    pub open spec fn cross_s(self, o: Fx3) -> Fx3 {
        Fx3 {
            x: ssub_s(fx_mul_s(self.y, o.z), fx_mul_s(self.z, o.y)),
            y: ssub_s(fx_mul_s(self.z, o.x), fx_mul_s(self.x, o.z)),
            z: ssub_s(fx_mul_s(self.x, o.y), fx_mul_s(self.y, o.x)),
        }
    }

    /// Cross product.
    pub fn cross(&self, o: &Fx3) -> (v: Fx3)
        ensures
            v == self.cross_s(*o),
    {
        Fx3 {
            x: fx_sub(fx_mul(self.y, o.z), fx_mul(self.z, o.y)),
            y: fx_sub(fx_mul(self.z, o.x), fx_mul(self.x, o.z)),
            z: fx_sub(fx_mul(self.x, o.y), fx_mul(self.y, o.x)),
        }
    }

    /// The squared Euclidean length as a mathematical integer (in squared
    /// fixed-point scale).
    pub open spec fn norm_sq_s(self) -> int {
        self.x * self.x + self.y * self.y + self.z * self.z
    }

    /// The fixed-point Euclidean length: the integer square root of the sum
    /// of squared components, saturated.
    pub open spec fn length_s(self) -> i64 {
        sat64(crate::fx::isqrt_s(self.norm_sq_s()))
    }

    /// Fixed-point length of the vector.
    pub fn length(&self) -> (r: i64)
        ensures
            r == self.length_s(),
            r >= 0,
    {
        let ax: u64 = crate::fx::abs64(self.x);
        let ay: u64 = crate::fx::abs64(self.y);
        let az: u64 = crate::fx::abs64(self.z);
        proof {
            crate::fx::lemma_mul_range(ax as int, ax as int, 0x8000000000000000, 0x8000000000000000);
            crate::fx::lemma_mul_range(ay as int, ay as int, 0x8000000000000000, 0x8000000000000000);
            crate::fx::lemma_mul_range(az as int, az as int, 0x8000000000000000, 0x8000000000000000);
            assert(ax as int * ax as int == self.x * self.x) by (nonlinear_arith)
                requires
                    ax as int == crate::fx::abs_int(self.x as int),
            ;
            assert(ay as int * ay as int == self.y * self.y) by (nonlinear_arith)
                requires
                    ay as int == crate::fx::abs_int(self.y as int),
            ;
            assert(az as int * az as int == self.z * self.z) by (nonlinear_arith)
                requires
                    az as int == crate::fx::abs_int(self.z as int),
            ;
        }
        let s: u128 = ax as u128 * ax as u128 + ay as u128 * ay as u128 + az as u128 * az as u128;
        let r: u64 = crate::fx::isqrt_u128(s);
        if r > i64::MAX as u64 {
            i64::MAX
        } else {
            r as i64
        }
    }

    /// The vector scaled to fixed-point unit length, or the zero vector when
    /// its length is zero; each component is the fixed-point quotient by the
    /// length.
    pub open spec fn normalize_s(self) -> Fx3 {
        let l = self.length_s();
        if l == 0 {
            Fx3 { x: 0, y: 0, z: 0 }
        } else {
            Fx3 { x: fx_div_s(self.x, l), y: fx_div_s(self.y, l), z: fx_div_s(self.z, l) }
        }
    }

    /// Normalize to fixed-point unit length (zero stays zero).
    pub fn normalize(&self) -> (v: Fx3)
        ensures
            v == self.normalize_s(),
    {
        let l: i64 = self.length();
        if l == 0 {
            Fx3 { x: 0, y: 0, z: 0 }
        } else {
            Fx3 { x: fx_div(self.x, l), y: fx_div(self.y, l), z: fx_div(self.z, l) }
        }
    }
}

impl Mat3 {
    /// The identity matrix.
    pub open spec fn identity_s() -> Mat3 {
        Mat3 {
            n00: FX_ONE, n01: 0, n02: 0,
            n10: 0, n11: FX_ONE, n12: 0,
            n20: 0, n21: 0, n22: FX_ONE,
        }
    }

    /// Build the identity matrix.
    pub fn identity() -> (m: Mat3)
        ensures
            m == Mat3::identity_s(),
    {
        Mat3 { n00: FX_ONE, n01: 0, n02: 0, n10: 0, n11: FX_ONE, n12: 0, n20: 0, n21: 0, n22: FX_ONE }
    }

    /// The transpose.
    pub open spec fn transpose_s(self) -> Mat3 {
        Mat3 {
            n00: self.n00, n01: self.n10, n02: self.n20,
            n10: self.n01, n11: self.n11, n12: self.n21,
            n20: self.n02, n21: self.n12, n22: self.n22,
        }
    }

    /// Transpose the matrix.
    pub fn transpose(&self) -> (m: Mat3)
        ensures
            m == self.transpose_s(),
    {
        Mat3 {
            n00: self.n00, n01: self.n10, n02: self.n20,
            n10: self.n01, n11: self.n11, n12: self.n21,
            n20: self.n02, n21: self.n12, n22: self.n22,
        }
    }

    /// The fixed-point determinant, expanded along the first row.
    pub open spec fn det_s(self) -> i64 {
        let c0 = ssub_s(fx_mul_s(self.n11, self.n22), fx_mul_s(self.n12, self.n21));
        let c1 = ssub_s(fx_mul_s(self.n10, self.n22), fx_mul_s(self.n12, self.n20));
        let c2 = ssub_s(fx_mul_s(self.n10, self.n21), fx_mul_s(self.n11, self.n20));
        sadd_s(ssub_s(fx_mul_s(self.n00, c0), fx_mul_s(self.n01, c1)), fx_mul_s(self.n02, c2))
    }

    /// The fixed-point determinant.
    pub fn det(&self) -> (r: i64)
        ensures
            r == self.det_s(),
    {
        let c0: i64 = fx_sub(fx_mul(self.n11, self.n22), fx_mul(self.n12, self.n21));
        let c1: i64 = fx_sub(fx_mul(self.n10, self.n22), fx_mul(self.n12, self.n20));
        let c2: i64 = fx_sub(fx_mul(self.n10, self.n21), fx_mul(self.n11, self.n20));
        fx_add(fx_sub(fx_mul(self.n00, c0), fx_mul(self.n01, c1)), fx_mul(self.n02, c2))
    }

    /// The adjugate scaled by the reciprocal determinant when the fixed-point
    /// determinant is nonzero, and the identity otherwise. The identity
    /// fallback for a singular matrix is deliberate renderer behavior: a
    /// degenerate normal transform silently leaves normals untouched.
    pub open spec fn inverse_or_identity_s(self) -> Mat3 {
        let d = self.det_s();
        if d == 0 {
            Mat3::identity_s()
        } else {
            Mat3 {
                n00: fx_div_s(ssub_s(fx_mul_s(self.n11, self.n22), fx_mul_s(self.n12, self.n21)), d),
                n01: fx_div_s(ssub_s(fx_mul_s(self.n02, self.n21), fx_mul_s(self.n01, self.n22)), d),
                n02: fx_div_s(ssub_s(fx_mul_s(self.n01, self.n12), fx_mul_s(self.n02, self.n11)), d),
                n10: fx_div_s(ssub_s(fx_mul_s(self.n12, self.n20), fx_mul_s(self.n10, self.n22)), d),
                n11: fx_div_s(ssub_s(fx_mul_s(self.n00, self.n22), fx_mul_s(self.n02, self.n20)), d),
                n12: fx_div_s(ssub_s(fx_mul_s(self.n02, self.n10), fx_mul_s(self.n00, self.n12)), d),
                n20: fx_div_s(ssub_s(fx_mul_s(self.n10, self.n21), fx_mul_s(self.n11, self.n20)), d),
                n21: fx_div_s(ssub_s(fx_mul_s(self.n01, self.n20), fx_mul_s(self.n00, self.n21)), d),
                n22: fx_div_s(ssub_s(fx_mul_s(self.n00, self.n11), fx_mul_s(self.n01, self.n10)), d),
            }
        }
    }

    /// Invert the matrix, or fall back to the identity when the fixed-point
    /// determinant is zero.
    pub fn inverse_or_identity(&self) -> (m: Mat3)
        ensures
            m == self.inverse_or_identity_s(),
    {
        let d: i64 = self.det();
        if d == 0 {
            Mat3::identity()
        } else {
            Mat3 {
                n00: fx_div(fx_sub(fx_mul(self.n11, self.n22), fx_mul(self.n12, self.n21)), d),
                n01: fx_div(fx_sub(fx_mul(self.n02, self.n21), fx_mul(self.n01, self.n22)), d),
                n02: fx_div(fx_sub(fx_mul(self.n01, self.n12), fx_mul(self.n02, self.n11)), d),
                n10: fx_div(fx_sub(fx_mul(self.n12, self.n20), fx_mul(self.n10, self.n22)), d),
                n11: fx_div(fx_sub(fx_mul(self.n00, self.n22), fx_mul(self.n02, self.n20)), d),
                n12: fx_div(fx_sub(fx_mul(self.n02, self.n10), fx_mul(self.n00, self.n12)), d),
                n20: fx_div(fx_sub(fx_mul(self.n10, self.n21), fx_mul(self.n11, self.n20)), d),
                n21: fx_div(fx_sub(fx_mul(self.n01, self.n20), fx_mul(self.n00, self.n21)), d),
                n22: fx_div(fx_sub(fx_mul(self.n00, self.n11), fx_mul(self.n01, self.n10)), d),
            }
        }
    }

    /// The matrix applied to a column vector.
    pub open spec fn apply_s(self, v: Fx3) -> Fx3 {
        Fx3 {
            x: dot3_s(self.n00, self.n01, self.n02, v.x, v.y, v.z),
            y: dot3_s(self.n10, self.n11, self.n12, v.x, v.y, v.z),
            z: dot3_s(self.n20, self.n21, self.n22, v.x, v.y, v.z),
        }
    }

    /// Apply the matrix to a column vector.
    pub fn apply(&self, v: &Fx3) -> (r: Fx3)
        ensures
            r == self.apply_s(*v),
    {
        Fx3 {
            x: dot3(self.n00, self.n01, self.n02, v.x, v.y, v.z),
            y: dot3(self.n10, self.n11, self.n12, v.x, v.y, v.z),
            z: dot3(self.n20, self.n21, self.n22, v.x, v.y, v.z),
        }
    }
}

impl Mat4 {
    /// The identity matrix.
    pub open spec fn identity_s() -> Mat4 {
        Mat4 {
            m00: FX_ONE, m01: 0, m02: 0, m03: 0,
            m10: 0, m11: FX_ONE, m12: 0, m13: 0,
            m20: 0, m21: 0, m22: FX_ONE, m23: 0,
            m30: 0, m31: 0, m32: 0, m33: FX_ONE,
        }
    }

    /// Build the identity matrix.
    pub fn identity() -> (m: Mat4)
        ensures
            m == Mat4::identity_s(),
    {
        Mat4 {
            m00: FX_ONE, m01: 0, m02: 0, m03: 0,
            m10: 0, m11: FX_ONE, m12: 0, m13: 0,
            m20: 0, m21: 0, m22: FX_ONE, m23: 0,
            m30: 0, m31: 0, m32: 0, m33: FX_ONE,
        }
    }

    /// The upper-left 3x3 block.
    pub open spec fn upper3_s(self) -> Mat3 {
        Mat3 {
            n00: self.m00, n01: self.m01, n02: self.m02,
            n10: self.m10, n11: self.m11, n12: self.m12,
            n20: self.m20, n21: self.m21, n22: self.m22,
        }
    }

    /// Extract the upper-left 3x3 block.
    pub fn upper3(&self) -> (m: Mat3)
        ensures
            m == self.upper3_s(),
    {
        Mat3 {
            n00: self.m00, n01: self.m01, n02: self.m02,
            n10: self.m10, n11: self.m11, n12: self.m12,
            n20: self.m20, n21: self.m21, n22: self.m22,
        }
    }

    /// The matrix product, row by column with fixed-point dot products.
    pub open spec fn mul_s(self, o: Mat4) -> Mat4 {
        Mat4 {
            m00: dot4_s(self.m00, self.m01, self.m02, self.m03, o.m00, o.m10, o.m20, o.m30),
            m01: dot4_s(self.m00, self.m01, self.m02, self.m03, o.m01, o.m11, o.m21, o.m31),
            m02: dot4_s(self.m00, self.m01, self.m02, self.m03, o.m02, o.m12, o.m22, o.m32),
            m03: dot4_s(self.m00, self.m01, self.m02, self.m03, o.m03, o.m13, o.m23, o.m33),
            m10: dot4_s(self.m10, self.m11, self.m12, self.m13, o.m00, o.m10, o.m20, o.m30),
            m11: dot4_s(self.m10, self.m11, self.m12, self.m13, o.m01, o.m11, o.m21, o.m31),
            m12: dot4_s(self.m10, self.m11, self.m12, self.m13, o.m02, o.m12, o.m22, o.m32),
            m13: dot4_s(self.m10, self.m11, self.m12, self.m13, o.m03, o.m13, o.m23, o.m33),
            m20: dot4_s(self.m20, self.m21, self.m22, self.m23, o.m00, o.m10, o.m20, o.m30),
            m21: dot4_s(self.m20, self.m21, self.m22, self.m23, o.m01, o.m11, o.m21, o.m31),
            m22: dot4_s(self.m20, self.m21, self.m22, self.m23, o.m02, o.m12, o.m22, o.m32),
            m23: dot4_s(self.m20, self.m21, self.m22, self.m23, o.m03, o.m13, o.m23, o.m33),
            m30: dot4_s(self.m30, self.m31, self.m32, self.m33, o.m00, o.m10, o.m20, o.m30),
            m31: dot4_s(self.m30, self.m31, self.m32, self.m33, o.m01, o.m11, o.m21, o.m31),
            m32: dot4_s(self.m30, self.m31, self.m32, self.m33, o.m02, o.m12, o.m22, o.m32),
            m33: dot4_s(self.m30, self.m31, self.m32, self.m33, o.m03, o.m13, o.m23, o.m33),
        }
    }

    /// Multiply with another matrix.
    pub fn mul_mat(&self, o: &Mat4) -> (m: Mat4)
        ensures
            m == self.mul_s(*o),
    {
        Mat4 {
            m00: dot4(self.m00, self.m01, self.m02, self.m03, o.m00, o.m10, o.m20, o.m30),
            m01: dot4(self.m00, self.m01, self.m02, self.m03, o.m01, o.m11, o.m21, o.m31),
            m02: dot4(self.m00, self.m01, self.m02, self.m03, o.m02, o.m12, o.m22, o.m32),
            m03: dot4(self.m00, self.m01, self.m02, self.m03, o.m03, o.m13, o.m23, o.m33),
            m10: dot4(self.m10, self.m11, self.m12, self.m13, o.m00, o.m10, o.m20, o.m30),
            m11: dot4(self.m10, self.m11, self.m12, self.m13, o.m01, o.m11, o.m21, o.m31),
            m12: dot4(self.m10, self.m11, self.m12, self.m13, o.m02, o.m12, o.m22, o.m32),
            m13: dot4(self.m10, self.m11, self.m12, self.m13, o.m03, o.m13, o.m23, o.m33),
            m20: dot4(self.m20, self.m21, self.m22, self.m23, o.m00, o.m10, o.m20, o.m30),
            m21: dot4(self.m20, self.m21, self.m22, self.m23, o.m01, o.m11, o.m21, o.m31),
            m22: dot4(self.m20, self.m21, self.m22, self.m23, o.m02, o.m12, o.m22, o.m32),
            m23: dot4(self.m20, self.m21, self.m22, self.m23, o.m03, o.m13, o.m23, o.m33),
            m30: dot4(self.m30, self.m31, self.m32, self.m33, o.m00, o.m10, o.m20, o.m30),
            m31: dot4(self.m30, self.m31, self.m32, self.m33, o.m01, o.m11, o.m21, o.m31),
            m32: dot4(self.m30, self.m31, self.m32, self.m33, o.m02, o.m12, o.m22, o.m32),
            m33: dot4(self.m30, self.m31, self.m32, self.m33, o.m03, o.m13, o.m23, o.m33),
        }
    }

    /// The matrix applied to a column vector.
    pub open spec fn apply_s(self, v: Fx4) -> Fx4 {
        Fx4 {
            x: dot4_s(self.m00, self.m01, self.m02, self.m03, v.x, v.y, v.z, v.w),
            y: dot4_s(self.m10, self.m11, self.m12, self.m13, v.x, v.y, v.z, v.w),
            z: dot4_s(self.m20, self.m21, self.m22, self.m23, v.x, v.y, v.z, v.w),
            w: dot4_s(self.m30, self.m31, self.m32, self.m33, v.x, v.y, v.z, v.w),
        }
    }

    /// Apply the matrix to a column vector.
    pub fn apply(&self, v: &Fx4) -> (r: Fx4)
        ensures
            r == self.apply_s(*v),
    {
        Fx4 {
            x: dot4(self.m00, self.m01, self.m02, self.m03, v.x, v.y, v.z, v.w),
            y: dot4(self.m10, self.m11, self.m12, self.m13, v.x, v.y, v.z, v.w),
            z: dot4(self.m20, self.m21, self.m22, self.m23, v.x, v.y, v.z, v.w),
            w: dot4(self.m30, self.m31, self.m32, self.m33, v.x, v.y, v.z, v.w),
        }
    }
}

} // verus!
