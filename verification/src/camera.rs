//! The orbital camera.
//!
//! The camera keeps its look-at center, its up vector, and the orbital state
//! (yaw, pitch, eye distance). The eye position is derived from that state,
//! so orbiting by an angle and back restores the eye exactly: binary angles
//! wrap around the turn instead of accumulating error.

use vstd::prelude::*;
use vstd::arithmetic::div_mod::{
    lemma_add_mod_noop, lemma_mod_add_multiples_vanish, lemma_mod_pos_bound, lemma_small_mod,
};
use crate::fx::{
    sat64, wrap16, add_units, units_of_fx, units_of_fx_s, fx_sin_units, fx_cos_units,
    fx_sin_units_s, fx_cos_units_s, fx_mul, fx_mul_s, fx_sub,
};
use crate::vecmat::{Fx3, Mat4};
use crate::matrices::{create_view_matrix, create_view_matrix_s};

verus! {

/// The closest the eye may come to the center: zooming is bounded away from
/// zero so the view matrix never degenerates.
pub const MIN_RADIUS: i64 = 6554;

/// The orbital camera state.
#[derive(Clone, Copy, PartialEq, Eq, Structural, Debug)]
pub struct Camera {
    pub center: Fx3,
    pub up: Fx3,
    pub yaw: u16,
    pub pitch: u16,
    pub radius: i64,
}

impl Camera {
    /// The eye keeps a positive distance from the center.
    pub open spec fn wf(self) -> bool {
        self.radius >= MIN_RADIUS
    }

    /// Build a camera; a radius below the minimum distance is raised to it.
    pub fn new(center: Fx3, up: Fx3, yaw: u16, pitch: u16, radius: i64) -> (c: Camera)
        ensures
            c.wf(),
            c.center == center,
            c.up == up,
            c.yaw == yaw,
            c.pitch == pitch,
            c.radius == if radius >= MIN_RADIUS {
                radius
            } else {
                MIN_RADIUS
            },
    {
        let r: i64 = if radius >= MIN_RADIUS {
            radius
        } else {
            MIN_RADIUS
        };
        Camera { center, up, yaw, pitch, radius: r }
    }

    /// The derived eye position: the center displaced by the radius along
    /// the direction the yaw and pitch angles select.
    pub open spec fn eye_s(self) -> Fx3 {
        let sy = sat64(fx_sin_units_s(self.yaw));
        let cy = sat64(fx_cos_units_s(self.yaw));
        let sp = sat64(fx_sin_units_s(self.pitch));
        let cp = sat64(fx_cos_units_s(self.pitch));
        self.center.add3_s(
            Fx3 {
                x: fx_mul_s(self.radius, fx_mul_s(cp, sy)),
                y: fx_mul_s(self.radius, sp),
                z: fx_mul_s(self.radius, fx_mul_s(cp, cy)),
            },
        )
    }

    /// Compute the eye position.
    pub fn eye(&self) -> (e: Fx3)
        ensures
            e == self.eye_s(),
    {
        let sy: i64 = fx_sin_units(self.yaw);
        let cy: i64 = fx_cos_units(self.yaw);
        let sp: i64 = fx_sin_units(self.pitch);
        let cp: i64 = fx_cos_units(self.pitch);
        let offset: Fx3 = Fx3 {
            x: fx_mul(self.radius, fx_mul(cp, sy)),
            y: fx_mul(self.radius, sp),
            z: fx_mul(self.radius, fx_mul(cp, cy)),
        };
        self.center.add3(&offset)
    }

    /// Orbit the eye around the center at constant radius: the yaw and pitch
    /// deltas (fixed-point radians) are converted to binary angles and added,
    /// wrapping around the turn.
    pub fn orbit(&mut self, delta_yaw: i64, delta_pitch: i64)
        ensures
            final(self).yaw == wrap16(old(self).yaw + units_of_fx_s(delta_yaw)),
            final(self).pitch == wrap16(old(self).pitch + units_of_fx_s(delta_pitch)),
            final(self).center == old(self).center,
            final(self).up == old(self).up,
            final(self).radius == old(self).radius,
    {
        self.yaw = add_units(self.yaw, units_of_fx(delta_yaw));
        self.pitch = add_units(self.pitch, units_of_fx(delta_pitch));
    }

    /// Translate the look-at target by a world-space offset (componentwise
    /// saturating).
    pub fn move_center(&mut self, movement: Fx3)
        ensures
            final(self).center == old(self).center.add3_s(movement),
            final(self).up == old(self).up,
            final(self).yaw == old(self).yaw,
            final(self).pitch == old(self).pitch,
            final(self).radius == old(self).radius,
    {
        self.center = self.center.add3(&movement);
    }

    /// What zooming does to the eye distance: the delta moves the eye along
    /// the view direction (a positive delta moves closer), saturating, and
    /// never below the minimum distance.
    pub open spec fn zoom_radius_s(radius: i64, delta: i64) -> i64 {
        let moved = sat64(radius - delta);
        if moved >= MIN_RADIUS {
            moved
        } else {
            MIN_RADIUS
        }
    }

    /// Adjust the eye-to-center distance along the view direction.
    pub fn zoom(&mut self, delta: i64)
        ensures
            final(self).radius == Camera::zoom_radius_s(old(self).radius, delta),
            final(self).wf(),
            final(self).center == old(self).center,
            final(self).up == old(self).up,
            final(self).yaw == old(self).yaw,
            final(self).pitch == old(self).pitch,
    {
        let moved: i64 = fx_sub(self.radius, delta);
        self.radius = if moved >= MIN_RADIUS {
            moved
        } else {
            MIN_RADIUS
        };
    }

    /// The view matrix of the current state: the look-at construction from
    /// the derived eye, the center and the up vector.
    pub fn view_matrix(&self) -> (m: Mat4)
        ensures
            m == create_view_matrix_s(self.eye_s(), self.center, self.up),
    {
        let e: Fx3 = self.eye();
        create_view_matrix(e, self.center, self.up)
    }
}

/// Binary angles cancel: adding an angle and then its negation returns to
/// the start, whatever the wrap-around.
proof fn lemma_wrap16_cancel(y: u16, u: u16)
    ensures
        wrap16(wrap16(y + ((65536 - u) % 65536)) + u) == y,
        wrap16(wrap16(y + u) + ((65536 - u) % 65536)) == y,
{
    let nu = (65536 - u) % 65536;
    lemma_mod_pos_bound(65536 - u, 65536);
    lemma_add_mod_noop(y + nu, u as int, 65536);
    lemma_add_mod_noop(y + u, nu, 65536);
    lemma_small_mod(y as nat, 65536);
    lemma_small_mod(u as nat, 65536);
    lemma_small_mod(nu as nat, 65536);
    if u == 0 {
        lemma_small_mod(0nat, 65536);
    } else {
        assert(nu == 65536 - u);
        lemma_mod_add_multiples_vanish(y as int, 65536);
    }
}

/// Camera round trip: orbiting by an angle and then by its negation returns
/// the eye to its original position exactly, whatever the starting state.
pub proof fn lemma_orbit_roundtrip(cam: Camera, d_yaw: i64, d_pitch: i64, mid: Camera, back: Camera)
    requires
        i64::MIN < d_yaw,
        i64::MIN < d_pitch,
        mid.yaw == wrap16(cam.yaw + units_of_fx_s(d_yaw)),
        mid.pitch == wrap16(cam.pitch + units_of_fx_s(d_pitch)),
        mid.center == cam.center,
        mid.up == cam.up,
        mid.radius == cam.radius,
        back.yaw == wrap16(mid.yaw + units_of_fx_s((-(d_yaw as int)) as i64)),
        back.pitch == wrap16(mid.pitch + units_of_fx_s((-(d_pitch as int)) as i64)),
        back.center == mid.center,
        back.up == mid.up,
        back.radius == mid.radius,
    ensures
        back == cam,
        back.eye_s() == cam.eye_s(),
{
    lemma_angle_roundtrip(cam.yaw, d_yaw);
    lemma_angle_roundtrip(cam.pitch, d_pitch);
}

/// One angle's round trip: adding the binary angle of `d` and then of `-d`
/// restores the angle.
proof fn lemma_angle_roundtrip(y: u16, d: i64)
    requires
        i64::MIN < d,
    ensures
        wrap16(wrap16(y + units_of_fx_s(d)) + units_of_fx_s((-(d as int)) as i64)) == y,
{
    let nd = (-(d as int)) as i64;
    let u = units_of_fx_s(d);
    let nu = units_of_fx_s(nd);
    let t = (crate::fx::abs_int(d as int) * 65536) / (crate::fx::TWO_PI_FX as int);
    lemma_mod_pos_bound(t, 65536);
    if d >= 0 {
        assert(u == (t % 65536) as u16);
        assert(nu == ((65536 - (t % 65536)) % 65536) as u16);
        lemma_wrap16_cancel(y, u);
    } else {
        assert(nu == (t % 65536) as u16);
        assert(u == ((65536 - (t % 65536)) % 65536) as u16);
        lemma_wrap16_cancel(y, nu);
    }
}

/// Zoom round trip: zooming by a delta and back restores the eye distance,
/// as long as neither step runs into the minimum-distance clamp or the
/// saturation bound.
pub proof fn lemma_zoom_roundtrip(radius: i64, delta: i64)
    requires
        MIN_RADIUS <= radius - delta <= i64::MAX,
        radius >= MIN_RADIUS,
    ensures
        Camera::zoom_radius_s(Camera::zoom_radius_s(radius, delta), (-(delta as int)) as i64)
            == radius,
{
}

} // verus!
