//! Construction of the model, view, perspective and viewport matrices.

use vstd::prelude::*;
use crate::fx::{
    FX_ONE, fx_add, fx_sub, fx_mul, fx_div, fx_mul_s, fx_div_s, fx_sin_units, fx_cos_units,
    fx_sin_units_s, fx_cos_units_s, units_of_fx, units_of_fx_s, sat64,
};
use crate::vecmat::{Fx3, Mat4, sadd_s, ssub_s};

verus! {

/// Saturating negation at spec level.
pub open spec fn sneg_s(a: i64) -> i64 {
    sat64(-(a as int))
}

fn sneg(a: i64) -> (r: i64)
    ensures
        r == sneg_s(a),
{
    if a == i64::MIN {
        i64::MAX
    } else {
        -a
    }
}

/// The rotation part of the model matrix: the three axis rotations composed
/// as Z then Y then X, each built from the sine and cosine of the Euler angle
/// (fixed-point radians converted to binary angle units).
pub open spec fn rotation_matrix_s(rotation: Fx3) -> Mat4 {
    let ux = units_of_fx_s(rotation.x);
    let uy = units_of_fx_s(rotation.y);
    let uz = units_of_fx_s(rotation.z);
    let sx = fx_sin_units_s(ux) as i64;
    let cx = fx_cos_units_s(ux) as i64;
    let sy = fx_sin_units_s(uy) as i64;
    let cy = fx_cos_units_s(uy) as i64;
    let sz = fx_sin_units_s(uz) as i64;
    let cz = fx_cos_units_s(uz) as i64;
    let rx = Mat4 {
        m00: FX_ONE, m01: 0, m02: 0, m03: 0,
        m10: 0, m11: cx, m12: (-sx) as i64, m13: 0,
        m20: 0, m21: sx, m22: cx, m23: 0,
        m30: 0, m31: 0, m32: 0, m33: FX_ONE,
    };
    let ry = Mat4 {
        m00: cy, m01: 0, m02: sy, m03: 0,
        m10: 0, m11: FX_ONE, m12: 0, m13: 0,
        m20: (-sy) as i64, m21: 0, m22: cy, m23: 0,
        m30: 0, m31: 0, m32: 0, m33: FX_ONE,
    };
    let rz = Mat4 {
        m00: cz, m01: (-sz) as i64, m02: 0, m03: 0,
        m10: sz, m11: cz, m12: 0, m13: 0,
        m20: 0, m21: 0, m22: FX_ONE, m23: 0,
        m30: 0, m31: 0, m32: 0, m33: FX_ONE,
    };
    rz.mul_s(ry).mul_s(rx)
}

/// What the model matrix is: uniform scale and translation times the
/// composed rotation.
pub open spec fn create_model_matrix_s(translation: Fx3, scale: i64, rotation: Fx3) -> Mat4 {
    let transform = Mat4 {
        m00: scale, m01: 0, m02: 0, m03: translation.x,
        m10: 0, m11: scale, m12: 0, m13: translation.y,
        m20: 0, m21: 0, m22: scale, m23: translation.z,
        m30: 0, m31: 0, m32: 0, m33: FX_ONE,
    };
    transform.mul_s(rotation_matrix_s(rotation))
}

/// Build the model matrix from a translation, a uniform scale and Euler
/// rotation angles in fixed-point radians.
pub fn create_model_matrix(translation: Fx3, scale: i64, rotation: Fx3) -> (m: Mat4)
    ensures
        m == create_model_matrix_s(translation, scale, rotation),
{
    let ux: u16 = units_of_fx(rotation.x);
    let uy: u16 = units_of_fx(rotation.y);
    let uz: u16 = units_of_fx(rotation.z);
    let sx: i64 = fx_sin_units(ux);
    let cx: i64 = fx_cos_units(ux);
    let sy: i64 = fx_sin_units(uy);
    let cy: i64 = fx_cos_units(uy);
    let sz: i64 = fx_sin_units(uz);
    let cz: i64 = fx_cos_units(uz);
    let rx: Mat4 = Mat4 {
        m00: FX_ONE, m01: 0, m02: 0, m03: 0,
        m10: 0, m11: cx, m12: -sx, m13: 0,
        m20: 0, m21: sx, m22: cx, m23: 0,
        m30: 0, m31: 0, m32: 0, m33: FX_ONE,
    };
    let ry: Mat4 = Mat4 {
        m00: cy, m01: 0, m02: sy, m03: 0,
        m10: 0, m11: FX_ONE, m12: 0, m13: 0,
        m20: -sy, m21: 0, m22: cy, m23: 0,
        m30: 0, m31: 0, m32: 0, m33: FX_ONE,
    };
    let rz: Mat4 = Mat4 {
        m00: cz, m01: -sz, m02: 0, m03: 0,
        m10: sz, m11: cz, m12: 0, m13: 0,
        m20: 0, m21: 0, m22: FX_ONE, m23: 0,
        m30: 0, m31: 0, m32: 0, m33: FX_ONE,
    };
    let rotation_matrix: Mat4 = rz.mul_mat(&ry).mul_mat(&rx);
    let transform_matrix: Mat4 = Mat4 {
        m00: scale, m01: 0, m02: 0, m03: translation.x,
        m10: 0, m11: scale, m12: 0, m13: translation.y,
        m20: 0, m21: 0, m22: scale, m23: translation.z,
        m30: 0, m31: 0, m32: 0, m33: FX_ONE,
    };
    transform_matrix.mul_mat(&rotation_matrix)
}

/// What the view matrix is: the standard look-at construction. The forward
/// vector runs from the eye to the center; the side and corrected up vectors
/// complete the orthonormal basis; the translation row-dots each basis vector
/// with the eye.
pub open spec fn create_view_matrix_s(eye: Fx3, center: Fx3, up: Fx3) -> Mat4 {
    let f = center.sub3_s(eye).normalize_s();
    let s = f.cross_s(up).normalize_s();
    let u = s.cross_s(f);
    Mat4 {
        m00: s.x, m01: s.y, m02: s.z, m03: sneg_s(s.dot_s(eye)),
        m10: u.x, m11: u.y, m12: u.z, m13: sneg_s(u.dot_s(eye)),
        m20: sneg_s(f.x), m21: sneg_s(f.y), m22: sneg_s(f.z), m23: f.dot_s(eye),
        m30: 0, m31: 0, m32: 0, m33: FX_ONE,
    }
}

/// Build the view matrix from the camera's eye, look-at center and up vector.
pub fn create_view_matrix(eye: Fx3, center: Fx3, up: Fx3) -> (m: Mat4)
    ensures
        m == create_view_matrix_s(eye, center, up),
{
    let f: Fx3 = center.sub3(&eye).normalize();
    let s: Fx3 = f.cross(&up).normalize();
    let u: Fx3 = s.cross(&f);
    Mat4 {
        m00: s.x, m01: s.y, m02: s.z, m03: sneg(s.dot(&eye)),
        m10: u.x, m11: u.y, m12: u.z, m13: sneg(u.dot(&eye)),
        m20: sneg(f.x), m21: sneg(f.y), m22: sneg(f.z), m23: f.dot(&eye),
        m30: 0, m31: 0, m32: 0, m33: FX_ONE,
    }
}

/// What the perspective matrix is: a 45-degree vertical field of view, the
/// window's aspect ratio, and the 0.1 / 1000 near and far planes, in the
/// standard right-handed frustum layout.
pub open spec fn create_perspective_matrix_s(window_width: i64, window_height: i64) -> Mat4 {
    let half_fov: i64 = 25736;
    let units = units_of_fx_s(half_fov);
    let focal: i64 = fx_div_s(sat64(fx_cos_units_s(units)), sat64(fx_sin_units_s(units)));
    let aspect: i64 = fx_div_s(window_width, window_height);
    let near: i64 = 6554;
    let far: i64 = 65536000;
    Mat4 {
        m00: fx_div_s(focal, aspect), m01: 0, m02: 0, m03: 0,
        m10: 0, m11: focal, m12: 0, m13: 0,
        m20: 0, m21: 0,
        m22: sneg_s(fx_div_s(sadd_s(far, near), ssub_s(far, near))),
        m23: sneg_s(fx_div_s(fx_mul_s(131072, fx_mul_s(far, near)), ssub_s(far, near))),
        m30: 0, m31: 0, m32: sneg_s(FX_ONE), m33: 0,
    }
}

/// Build the perspective projection matrix for a window size (fixed-point
/// width and height): 45-degree field of view, near plane 0.1, far plane
/// 1000.
pub fn create_perspective_matrix(window_width: i64, window_height: i64) -> (m: Mat4)
    ensures
        m == create_perspective_matrix_s(window_width, window_height),
{
    let half_fov: i64 = 25736;
    let units: u16 = units_of_fx(half_fov);
    let focal: i64 = fx_div(fx_cos_units(units), fx_sin_units(units));
    let aspect: i64 = fx_div(window_width, window_height);
    let near: i64 = 6554;
    let far: i64 = 65536000;
    Mat4 {
        m00: fx_div(focal, aspect), m01: 0, m02: 0, m03: 0,
        m10: 0, m11: focal, m12: 0, m13: 0,
        m20: 0, m21: 0,
        m22: sneg(fx_div(fx_add(far, near), fx_sub(far, near))),
        m23: sneg(fx_div(fx_mul(131072, fx_mul(far, near)), fx_sub(far, near))),
        m30: 0, m31: 0, m32: -65536, m33: 0,
    }
}

/// What the viewport matrix is: scale normalized device coordinates by half
/// the target size, invert the vertical axis (screen y grows downward), and
/// translate the origin to the render-target center.
pub open spec fn create_viewport_matrix_s(width: i64, height: i64) -> Mat4 {
    let hw: i64 = fx_mul_s(width, 32768);
    let hh: i64 = fx_mul_s(height, 32768);
    Mat4 {
        m00: hw, m01: 0, m02: 0, m03: hw,
        m10: 0, m11: sneg_s(hh), m12: 0, m13: hh,
        m20: 0, m21: 0, m22: FX_ONE, m23: 0,
        m30: 0, m31: 0, m32: 0, m33: FX_ONE,
    }
}

/// Build the viewport matrix for a render target (fixed-point width and
/// height).
pub fn create_viewport_matrix(width: i64, height: i64) -> (m: Mat4)
    ensures
        m == create_viewport_matrix_s(width, height),
{
    let hw: i64 = fx_mul(width, 32768);
    let hh: i64 = fx_mul(height, 32768);
    Mat4 {
        m00: hw, m01: 0, m02: 0, m03: hw,
        m10: 0, m11: sneg(hh), m12: 0, m13: hh,
        m20: 0, m21: 0, m22: FX_ONE, m23: 0,
        m30: 0, m31: 0, m32: 0, m33: FX_ONE,
    }
}

} // verus!
