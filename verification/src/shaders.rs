//! The procedural material functions and the vertex transform stage.
//!
//! Every material follows one template: derive fixed-point noise-sample
//! coordinates from the fragment's object-space position (its `*_plan`
//! function), then turn the returned sample values into a color by threshold
//! comparisons or linear blending, and scale by the fragment's lighting
//! intensity (its `*_shader` function). Each material's result is pinned
//! exactly by a spec mirror, so shading the same fragment with the same
//! uniforms and samples always yields the same color.

use vstd::prelude::*;
use rand::Rng;
use rand::SeedableRng;
use crate::fx::{
    FX_ONE, sat64, abs_int, fx_add, fx_mul, fx_mul_s, fx_abs, fx_sin_rad, fx_sin_rad_s, abs64,
    fx_div, fx_div_s, clamp64, clamp64_s,
};
use crate::vecmat::{sadd_s, Fx3, Fx4, Mat3, Mat4};
use crate::vertex::Vertex;
use crate::raster::COORD_LIMIT;
use crate::color::Color;
use crate::fragment::Fragment;
use crate::noise::{NoiseRequest, NoiseSamples, SamplePlan};
use crate::renderer::{Renderer, ShaderType};
use crate::Uniforms;

verus! {

/// The percentage that rand's standard generator draws from a 64-bit seed.
pub uninterp spec fn percent_from_seed(seed: u64) -> u8;

/// Relies on rand's `StdRng::seed_from_u64` and `Rng::gen_range(0..=100)`:
/// seeding is a pure PCG32-based expansion of the 64-bit seed, the generator
/// itself is ChaCha12 (a platform-independent function of its seed), and the
/// uniform integer sampler draws from that stream alone, so the draw is a
/// function of the seed; an inclusive-range draw never exceeds its upper
/// bound.
#[verifier::external_body]
fn rand_percent(seed: u64) -> (r: u8)
    ensures
        r == percent_from_seed(seed),
        r <= 100,
{
    let mut rng: rand::rngs::StdRng = rand::rngs::StdRng::seed_from_u64(seed);
    rng.gen_range(0..=100u8)
}

/// The color channels that rand's standard generator draws from a 64-bit seed.
pub uninterp spec fn rgb_from_seed(seed: u64) -> (u8, u8, u8);

/// Relies on rand's `StdRng::seed_from_u64` and `Rng::gen_range(0..=255)`:
/// the three consecutive draws from the deterministically seeded ChaCha12
/// stream are a function of the seed alone.
#[verifier::external_body]
fn rand_rgb(seed: u64) -> (rgb: (u8, u8, u8))
    ensures
        rgb == rgb_from_seed(seed),
{
    let mut rng: rand::rngs::StdRng = rand::rngs::StdRng::seed_from_u64(seed);
    let r: u8 = rng.gen_range(0..=255u8);
    let g: u8 = rng.gen_range(0..=255u8);
    let b: u8 = rng.gen_range(0..=255u8);
    (r, g, b)
}

/// The frame counter as a fixed-point scalar.
pub open spec fn time_fx_s(time: u32) -> i64 {
    (time * 65536) as i64
}

fn time_fx(time: u32) -> (r: i64)
    ensures
        r == time_fx_s(time),
{
    time as i64 * 65536
}

/// What the vertex stage computes: the object-space position taken through
/// model, view and projection space, divided by the clip-space w component,
/// mapped by the viewport matrix and clamped into the rasterizer's
/// addressable screen range; the normal taken through the inverse transpose
/// of the model matrix's upper 3x3 block, with the identity silently
/// substituted when that block's fixed-point determinant is zero (a
/// deliberate numerical fallback, preserved as documented behavior).
#[verifier::opaque]
pub open spec fn vertex_shader_s(v: Vertex, u: Uniforms) -> Vertex {
    let pos4 = Fx4 { x: v.position.x, y: v.position.y, z: v.position.z, w: FX_ONE };
    let m = u.projection_matrix.mul_s(u.view_matrix).mul_s(u.model_matrix);
    let t = m.apply_s(pos4);
    let ndc = Fx4 {
        x: fx_div_s(t.x, t.w),
        y: fx_div_s(t.y, t.w),
        z: fx_div_s(t.z, t.w),
        w: FX_ONE,
    };
    let sp = u.viewport_matrix.apply_s(ndc);
    let nm = u.model_matrix.upper3_s().transpose_s().inverse_or_identity_s();
    Vertex {
        position: v.position,
        normal: v.normal,
        tex_coords: v.tex_coords,
        color: v.color,
        transformed_position: Fx3 {
            x: clamp64_s(sp.x as int, -COORD_LIMIT as int, COORD_LIMIT as int),
            y: clamp64_s(sp.y as int, -COORD_LIMIT as int, COORD_LIMIT as int),
            z: sp.z,
        },
        transformed_normal: nm.apply_s(v.normal),
    }
}

/// Transform one vertex by the frame's uniforms into screen space.
pub fn vertex_shader(vertex: &Vertex, uniforms: &Uniforms) -> (r: Vertex)
    ensures
        r == vertex_shader_s(*vertex, *uniforms),
        crate::raster::coords_in_range(r),
{
    proof {
        reveal(vertex_shader_s);
    }
    let position: Fx4 = Fx4 {
        x: vertex.position.x,
        y: vertex.position.y,
        z: vertex.position.z,
        w: FX_ONE,
    };
    let m: Mat4 = uniforms.projection_matrix.mul_mat(&uniforms.view_matrix).mul_mat(
        &uniforms.model_matrix,
    );
    let transformed: Fx4 = m.apply(&position);
    let w: i64 = transformed.w;
    let ndc_position: Fx4 = Fx4 {
        x: fx_div(transformed.x, w),
        y: fx_div(transformed.y, w),
        z: fx_div(transformed.z, w),
        w: FX_ONE,
    };
    let screen_position: Fx4 = uniforms.viewport_matrix.apply(&ndc_position);
    let model_mat3: Mat3 = uniforms.model_matrix.upper3();
    let normal_matrix: Mat3 = model_mat3.transpose().inverse_or_identity();
    let transformed_normal: Fx3 = normal_matrix.apply(&vertex.normal);
    Vertex {
        position: vertex.position,
        normal: vertex.normal,
        tex_coords: vertex.tex_coords,
        color: vertex.color,
        transformed_position: Fx3 {
            x: clamp64(screen_position.x, -COORD_LIMIT, COORD_LIMIT),
            y: clamp64(screen_position.y, -COORD_LIMIT, COORD_LIMIT),
            z: screen_position.z,
        },
        transformed_normal,
    }
}

/// An empty sample plan, for materials that use no coherent noise.
pub open spec fn empty_plan_s() -> SamplePlan {
    SamplePlan { first: None::<NoiseRequest>, second: None::<NoiseRequest> }
}

/// A plan with a single 2-D sample.
pub open spec fn plan_2d_s(x: i64, y: i64) -> SamplePlan {
    SamplePlan {
        first: Some(NoiseRequest { three_d: false, x, y, z: 0 }),
        second: None::<NoiseRequest>,
    }
}

/// A plan with two 3-D samples.
pub open spec fn plan_3d_pair_s(a: NoiseRequest, b: NoiseRequest) -> SamplePlan {
    SamplePlan { first: Some(a), second: Some(b) }
}

// ---------------------------------------------------------------------------
// Mottled rock material (also the reserved moon tag).
// ---------------------------------------------------------------------------

/// Where the rock material samples noise: the object-space position scaled by
/// zoom 150, and a five-times finer octave.
pub open spec fn rocky_planet_plan_s(f: Fragment) -> SamplePlan {
    let zoom: i64 = 9830400;
    let x: i64 = f.vertex_position.x;
    let y: i64 = f.vertex_position.y;
    let d: i64 = f.depth;
    plan_3d_pair_s(
        NoiseRequest {
            three_d: true,
            x: fx_mul_s(x, zoom),
            y: fx_mul_s(y, zoom),
            z: fx_mul_s(d, zoom),
        },
        NoiseRequest {
            three_d: true,
            x: fx_mul_s(fx_mul_s(x, zoom), 327680),
            y: fx_mul_s(fx_mul_s(y, zoom), 327680),
            z: fx_mul_s(fx_mul_s(d, zoom), 327680),
        },
    )
}

/// Noise-sample coordinates for the rock material.
pub fn rocky_planet_plan(fragment: &Fragment, _uniforms: &Uniforms) -> (p: SamplePlan)
    ensures
        p == rocky_planet_plan_s(*fragment),
{
    let zoom: i64 = 9830400;
    let five: i64 = 327680;
    let x: i64 = fragment.vertex_position.x;
    let y: i64 = fragment.vertex_position.y;
    let d: i64 = fragment.depth;
    let sx: i64 = fx_mul(x, zoom);
    let sy: i64 = fx_mul(y, zoom);
    let sz: i64 = fx_mul(d, zoom);
    SamplePlan {
        first: Some(NoiseRequest { three_d: true, x: sx, y: sy, z: sz }),
        second: Some(NoiseRequest {
            three_d: true,
            x: fx_mul(sx, five),
            y: fx_mul(sy, five),
            z: fx_mul(sz, five),
        }),
    }
}

/// The rock material: two noise octaves blended 60/40, damped to 30 percent
/// bumpiness, then a three-way threshold between highlight, base and shadow.
pub open spec fn rocky_planet_shader_s(f: Fragment, samples: NoiseSamples) -> Color {
    let base_color = Color { r: 139, g: 69, b: 19 };
    let highlight_color = Color { r: 210, g: 180, b: 140 };
    let shadow_color = Color { r: 50, g: 25, b: 0 };
    let combined: i64 = fx_mul_s(
        sadd_s(fx_mul_s(samples.a, 39322), fx_mul_s(samples.b, 26214)),
        19661,
    );
    let color = if combined > 26214 {
        highlight_color
    } else if combined > 13107 {
        base_color
    } else {
        shadow_color
    };
    color.scale_s(f.intensity)
}

/// Shade one fragment with the rock material.
pub fn rocky_planet_shader(fragment: &Fragment, _uniforms: &Uniforms, samples: &NoiseSamples) -> (c:
    Color)
    ensures
        c == rocky_planet_shader_s(*fragment, *samples),
{
    let base_color: Color = Color::new(139, 69, 19);
    let highlight_color: Color = Color::new(210, 180, 140);
    let shadow_color: Color = Color::new(50, 25, 0);
    let combined: i64 = fx_mul(
        fx_add(fx_mul(samples.a, 39322), fx_mul(samples.b, 26214)),
        19661,
    );
    let color: Color = if combined > 26214 {
        highlight_color
    } else if combined > 13107 {
        base_color
    } else {
        shadow_color
    };
    color.scale(fragment.intensity)
}

/// The reserved moon tag reuses the rock material's sample plan.
pub fn moon_plan(fragment: &Fragment, uniforms: &Uniforms) -> (p: SamplePlan)
    ensures
        p == rocky_planet_plan_s(*fragment),
{
    rocky_planet_plan(fragment, uniforms)
}

/// The reserved moon tag reuses the rock material.
pub fn moon_shader(fragment: &Fragment, uniforms: &Uniforms, samples: &NoiseSamples) -> (c: Color)
    ensures
        c == rocky_planet_shader_s(*fragment, *samples),
{
    rocky_planet_shader(fragment, uniforms, samples)
}

// ---------------------------------------------------------------------------
// Banded gas-giant material.
// ---------------------------------------------------------------------------

/// Where the gas-giant material samples noise: zoom 200 with a time drift on
/// the first axis, and a half-scale octave drifting at half speed.
pub open spec fn gaseous_giant_plan_s(f: Fragment, time: u32) -> SamplePlan {
    let zoom: i64 = 13107200;
    let x: i64 = f.vertex_position.x;
    let y: i64 = f.vertex_position.y;
    let d: i64 = f.depth;
    let t: i64 = fx_mul_s(time_fx_s(time), 1311);
    plan_3d_pair_s(
        NoiseRequest {
            three_d: true,
            x: sadd_s(fx_mul_s(x, zoom), fx_mul_s(t, 6554)),
            y: fx_mul_s(y, zoom),
            z: fx_mul_s(d, zoom),
        },
        NoiseRequest {
            three_d: true,
            x: sadd_s(fx_mul_s(fx_mul_s(x, zoom), 32768), fx_mul_s(fx_mul_s(t, 6554), 32768)),
            y: fx_mul_s(fx_mul_s(y, zoom), 32768),
            z: fx_mul_s(fx_mul_s(d, zoom), 32768),
        },
    )
}

/// Noise-sample coordinates for the gas-giant material.
pub fn gaseous_giant_plan(fragment: &Fragment, uniforms: &Uniforms) -> (p: SamplePlan)
    ensures
        p == gaseous_giant_plan_s(*fragment, uniforms.time),
{
    let zoom: i64 = 13107200;
    let half: i64 = 32768;
    let x: i64 = fragment.vertex_position.x;
    let y: i64 = fragment.vertex_position.y;
    let d: i64 = fragment.depth;
    let t: i64 = fx_mul(time_fx(uniforms.time), 1311);
    let drift: i64 = fx_mul(t, 6554);
    SamplePlan {
        first: Some(NoiseRequest {
            three_d: true,
            x: fx_add(fx_mul(x, zoom), drift),
            y: fx_mul(y, zoom),
            z: fx_mul(d, zoom),
        }),
        second: Some(NoiseRequest {
            three_d: true,
            x: fx_add(fx_mul(fx_mul(x, zoom), half), fx_mul(drift, half)),
            y: fx_mul(fx_mul(y, zoom), half),
            z: fx_mul(fx_mul(d, zoom), half),
        }),
    }
}

/// The gas-giant material: the two octaves blended 60/40, folded to a
/// magnitude, then a three-way threshold with a blended middle band.
pub open spec fn gaseous_giant_shader_s(f: Fragment, samples: NoiseSamples) -> Color {
    let cloud_color = Color { r: 232, g: 220, b: 77 };
    let band_color1 = Color { r: 255, g: 255, b: 255 };
    let band_color2 = Color { r: 255, g: 215, b: 0 };
    let shadow_color = Color { r: 245, g: 212, b: 122 };
    let combined: i64 = sat64(abs_int(sadd_s(fx_mul_s(samples.a, 39322), fx_mul_s(samples.b, 26214)) as int));
    let color = if combined > 39322 {
        cloud_color
    } else if combined > 19661 {
        band_color1.lerp_s(band_color2, combined)
    } else {
        shadow_color
    };
    color.scale_s(f.intensity)
}

/// Shade one fragment with the gas-giant material.
pub fn gaseous_giant_shader(fragment: &Fragment, _uniforms: &Uniforms, samples: &NoiseSamples) -> (c:
    Color)
    ensures
        c == gaseous_giant_shader_s(*fragment, *samples),
{
    let cloud_color: Color = Color::new(232, 220, 77);
    let band_color1: Color = Color::new(255, 255, 255);
    let band_color2: Color = Color::new(255, 215, 0);
    let shadow_color: Color = Color::new(245, 212, 122);
    let combined: i64 = fx_abs(fx_add(fx_mul(samples.a, 39322), fx_mul(samples.b, 26214)));
    let color: Color = if combined > 39322 {
        cloud_color
    } else if combined > 19661 {
        band_color1.lerp(&band_color2, combined)
    } else {
        shadow_color
    };
    color.scale(fragment.intensity)
}

// ---------------------------------------------------------------------------
// Pulsating emissive star material.
// ---------------------------------------------------------------------------

/// Where the star material samples noise: zoom 800, a sinusoidal pulsation
/// shifting the depth axis, and a second sample offset by 1200 on every axis.
pub open spec fn solar_plan_s(f: Fragment, time: u32) -> SamplePlan {
    let zoom: i64 = 52428800;
    let off: i64 = 78643200;
    let x: i64 = f.vertex_position.x;
    let y: i64 = f.vertex_position.y;
    let d: i64 = f.depth;
    let t: i64 = fx_mul_s(time_fx_s(time), 983);
    let pulsate: i64 = fx_mul_s(sat64(fx_sin_rad_s(fx_mul_s(t, 19661))), 26214);
    plan_3d_pair_s(
        NoiseRequest {
            three_d: true,
            x: fx_mul_s(x, zoom),
            y: fx_mul_s(y, zoom),
            z: fx_mul_s(sadd_s(d, pulsate), zoom),
        },
        NoiseRequest {
            three_d: true,
            x: fx_mul_s(sadd_s(x, off), zoom),
            y: fx_mul_s(sadd_s(y, off), zoom),
            z: fx_mul_s(sadd_s(sadd_s(d, off), pulsate), zoom),
        },
    )
}

/// Noise-sample coordinates for the star material.
pub fn solar_plan(fragment: &Fragment, uniforms: &Uniforms) -> (p: SamplePlan)
    ensures
        p == solar_plan_s(*fragment, uniforms.time),
{
    let zoom: i64 = 52428800;
    let off: i64 = 78643200;
    let x: i64 = fragment.vertex_position.x;
    let y: i64 = fragment.vertex_position.y;
    let d: i64 = fragment.depth;
    let t: i64 = fx_mul(time_fx(uniforms.time), 983);
    let pulsate: i64 = fx_mul(fx_sin_rad(fx_mul(t, 19661)), 26214);
    SamplePlan {
        first: Some(NoiseRequest {
            three_d: true,
            x: fx_mul(x, zoom),
            y: fx_mul(y, zoom),
            z: fx_mul(fx_add(d, pulsate), zoom),
        }),
        second: Some(NoiseRequest {
            three_d: true,
            x: fx_mul(fx_add(x, off), zoom),
            y: fx_mul(fx_add(y, off), zoom),
            z: fx_mul(fx_add(fx_add(d, off), pulsate), zoom),
        }),
    }
}

/// The star material: the two samples averaged, then a three-way blend
/// between core, glow and spot colors.
pub open spec fn solar_shader_s(f: Fragment, samples: NoiseSamples) -> Color {
    let core_color = Color { r: 255, g: 69, b: 0 };
    let outer_glow_color = Color { r: 255, g: 179, b: 0 };
    let dark_spot_color = Color { r: 255, g: 200, b: 0 };
    let noise_value: i64 = fx_mul_s(sadd_s(samples.a, samples.b), 32768);
    let color = if noise_value > 26214 {
        core_color.lerp_s(outer_glow_color, fx_mul_s(noise_value, 52429))
    } else if noise_value > -13107 {
        outer_glow_color.lerp_s(dark_spot_color, fx_mul_s(noise_value, 32768))
    } else {
        dark_spot_color
    };
    color.scale_s(f.intensity)
}

/// Shade one fragment with the star material.
pub fn solar_shader(fragment: &Fragment, _uniforms: &Uniforms, samples: &NoiseSamples) -> (c: Color)
    ensures
        c == solar_shader_s(*fragment, *samples),
{
    let core_color: Color = Color::new(255, 69, 0);
    let outer_glow_color: Color = Color::new(255, 179, 0);
    let dark_spot_color: Color = Color::new(255, 200, 0);
    let noise_value: i64 = fx_mul(fx_add(samples.a, samples.b), 32768);
    let color: Color = if noise_value > 26214 {
        core_color.lerp(&outer_glow_color, fx_mul(noise_value, 52429))
    } else if noise_value > -13107 {
        outer_glow_color.lerp(&dark_spot_color, fx_mul(noise_value, 32768))
    } else {
        dark_spot_color
    };
    color.scale(fragment.intensity)
}

// ---------------------------------------------------------------------------
// Dual-tone banding material.
// ---------------------------------------------------------------------------

/// Where the dual-tone material samples noise: zoom 50, offset (100, 100),
/// drifting with a tenth of the frame counter.
pub open spec fn blue_green_plan_s(f: Fragment, time: u32) -> SamplePlan {
    let zoom: i64 = 3276800;
    let off: i64 = 6553600;
    let t: i64 = fx_mul_s(time_fx_s(time), 6554);
    plan_2d_s(
        sadd_s(sadd_s(fx_mul_s(f.vertex_position.x, zoom), off), t),
        sadd_s(fx_mul_s(f.vertex_position.y, zoom), off),
    )
}

/// Noise-sample coordinates for the dual-tone material.
pub fn blue_green_plan(fragment: &Fragment, uniforms: &Uniforms) -> (p: SamplePlan)
    ensures
        p == blue_green_plan_s(*fragment, uniforms.time),
{
    let zoom: i64 = 3276800;
    let off: i64 = 6553600;
    let t: i64 = fx_mul(time_fx(uniforms.time), 6554);
    SamplePlan {
        first: Some(NoiseRequest {
            three_d: false,
            x: fx_add(fx_add(fx_mul(fragment.vertex_position.x, zoom), off), t),
            y: fx_add(fx_mul(fragment.vertex_position.y, zoom), off),
            z: 0,
        }),
        second: None,
    }
}

/// The dual-tone material: the sign of one noise sample picks blue or green.
pub open spec fn blue_green_shader_s(f: Fragment, samples: NoiseSamples) -> Color {
    let blue_color = Color { r: 0, g: 0, b: 255 };
    let green_color = Color { r: 0, g: 255, b: 0 };
    let color = if samples.a > 0 {
        blue_color
    } else {
        green_color
    };
    color.scale_s(f.intensity)
}

/// Shade one fragment with the dual-tone material.
pub fn blue_green_shader(fragment: &Fragment, _uniforms: &Uniforms, samples: &NoiseSamples) -> (c:
    Color)
    ensures
        c == blue_green_shader_s(*fragment, *samples),
{
    let blue_color: Color = Color::new(0, 0, 255);
    let green_color: Color = Color::new(0, 255, 0);
    let color: Color = if samples.a > 0 {
        blue_color
    } else {
        green_color
    };
    color.scale(fragment.intensity)
}

// ---------------------------------------------------------------------------
// Three-band material (also the reserved ring tag).
// ---------------------------------------------------------------------------

/// The three-band material samples noise exactly as the dual-tone one.
pub fn tri_color_plan(fragment: &Fragment, uniforms: &Uniforms) -> (p: SamplePlan)
    ensures
        p == blue_green_plan_s(*fragment, uniforms.time),
{
    blue_green_plan(fragment, uniforms)
}

/// The three-band material: thresholds at plus and minus one half pick blue,
/// cyan or green.
pub open spec fn tri_color_shader_s(f: Fragment, samples: NoiseSamples) -> Color {
    let blue_color = Color { r: 0, g: 0, b: 255 };
    let green_color = Color { r: 0, g: 255, b: 0 };
    let cyan_color = Color { r: 0, g: 255, b: 255 };
    let color = if samples.a > 32768 {
        blue_color
    } else if samples.a > -32768 {
        cyan_color
    } else {
        green_color
    };
    color.scale_s(f.intensity)
}

/// Shade one fragment with the three-band material.
pub fn tri_color_shader(fragment: &Fragment, _uniforms: &Uniforms, samples: &NoiseSamples) -> (c:
    Color)
    ensures
        c == tri_color_shader_s(*fragment, *samples),
{
    let blue_color: Color = Color::new(0, 0, 255);
    let green_color: Color = Color::new(0, 255, 0);
    let cyan_color: Color = Color::new(0, 255, 255);
    let color: Color = if samples.a > 32768 {
        blue_color
    } else if samples.a > -32768 {
        cyan_color
    } else {
        green_color
    };
    color.scale(fragment.intensity)
}

/// The reserved ring tag reuses the three-band material's sample plan.
pub fn ring_plan(fragment: &Fragment, uniforms: &Uniforms) -> (p: SamplePlan)
    ensures
        p == blue_green_plan_s(*fragment, uniforms.time),
{
    tri_color_plan(fragment, uniforms)
}

/// The reserved ring tag reuses the three-band material.
pub fn ring_shader(fragment: &Fragment, uniforms: &Uniforms, samples: &NoiseSamples) -> (c: Color)
    ensures
        c == tri_color_shader_s(*fragment, *samples),
{
    tri_color_shader(fragment, uniforms, samples)
}

// ---------------------------------------------------------------------------
// Frame-seeded random color material.
// ---------------------------------------------------------------------------

/// The random-color material: one color drawn from the frame counter used as
/// a seed, scaled by the lighting intensity.
pub open spec fn random_color_shader_s(f: Fragment, time: u32) -> Color {
    let rgb: (u8, u8, u8) = rgb_from_seed(time as u64);
    (Color { r: rgb.0, g: rgb.1, b: rgb.2 }).scale_s(f.intensity)
}

/// Shade one fragment with the frame-seeded random color.
pub fn random_color_shader(fragment: &Fragment, uniforms: &Uniforms) -> (c: Color)
    ensures
        c == random_color_shader_s(*fragment, uniforms.time),
{
    let seed: u64 = uniforms.time as u64;
    let rgb: (u8, u8, u8) = rand_rgb(seed);
    let random_color: Color = Color::new(rgb.0, rgb.1, rgb.2);
    random_color.scale(fragment.intensity)
}

// ---------------------------------------------------------------------------
// Monochrome dither material.
// ---------------------------------------------------------------------------

/// The seed the dither material derives from a fragment: the magnitude of
/// frame counter times the two object-space coordinates, taken to an integer.
pub open spec fn black_and_white_seed_s(f: Fragment, time: u32) -> u64 {
    let p: i64 = fx_mul_s(fx_mul_s(time_fx_s(time), f.vertex_position.y), f.vertex_position.x);
    (abs_int(p as int) / 65536) as u64
}

/// The dither material: a pseudo-random percentage keyed off position and
/// frame number picks black or white.
pub open spec fn black_and_white_s(f: Fragment, time: u32) -> Color {
    let color = if percent_from_seed(black_and_white_seed_s(f, time)) < 50 {
        Color { r: 0, g: 0, b: 0 }
    } else {
        Color { r: 255, g: 255, b: 255 }
    };
    color.scale_s(f.intensity)
}

/// Shade one fragment with the monochrome dither material.
pub fn black_and_white(fragment: &Fragment, uniforms: &Uniforms) -> (c: Color)
    ensures
        c == black_and_white_s(*fragment, uniforms.time),
{
    let p: i64 = fx_mul(
        fx_mul(time_fx(uniforms.time), fragment.vertex_position.y),
        fragment.vertex_position.x,
    );
    let seed: u64 = abs64(p) / 65536;
    let random_number: u8 = rand_percent(seed);
    let black_or_white: Color = if random_number < 50 {
        Color::new(0, 0, 0)
    } else {
        Color::new(255, 255, 255)
    };
    black_or_white.scale(fragment.intensity)
}

// ---------------------------------------------------------------------------
// Two-tone spot material.
// ---------------------------------------------------------------------------

/// Where the spot material samples noise: the object-space position scaled by
/// zoom 100 with no offset.
pub open spec fn dalmata_plan_s(f: Fragment) -> SamplePlan {
    let zoom: i64 = 6553600;
    plan_2d_s(
        fx_mul_s(sadd_s(f.vertex_position.x, 0), zoom),
        fx_mul_s(sadd_s(f.vertex_position.y, 0), zoom),
    )
}

/// Noise-sample coordinates for the spot material.
pub fn dalmata_plan(fragment: &Fragment, _uniforms: &Uniforms) -> (p: SamplePlan)
    ensures
        p == dalmata_plan_s(*fragment),
{
    let zoom: i64 = 6553600;
    SamplePlan {
        first: Some(NoiseRequest {
            three_d: false,
            x: fx_mul(fx_add(fragment.vertex_position.x, 0), zoom),
            y: fx_mul(fx_add(fragment.vertex_position.y, 0), zoom),
            z: 0,
        }),
        second: None,
    }
}

/// The spot material: noise under one half paints a white spot on black.
pub open spec fn dalmata_shader_s(f: Fragment, samples: NoiseSamples) -> Color {
    let spot_color = Color { r: 255, g: 255, b: 255 };
    let base_color = Color { r: 0, g: 0, b: 0 };
    let noise_color = if samples.a < 32768 {
        spot_color
    } else {
        base_color
    };
    noise_color.scale_s(f.intensity)
}

/// Shade one fragment with the spot material.
pub fn dalmata_shader(fragment: &Fragment, _uniforms: &Uniforms, samples: &NoiseSamples) -> (c:
    Color)
    ensures
        c == dalmata_shader_s(*fragment, *samples),
{
    let spot_color: Color = Color::new(255, 255, 255);
    let base_color: Color = Color::new(0, 0, 0);
    let noise_color: Color = if samples.a < 32768 {
        spot_color
    } else {
        base_color
    };
    noise_color.scale(fragment.intensity)
}

// ---------------------------------------------------------------------------
// Drifting cloud material.
// ---------------------------------------------------------------------------

/// Where the cloud material samples noise: zoom 100, offset (100, 100),
/// drifting with half the frame counter.
pub open spec fn cloud_plan_s(f: Fragment, time: u32) -> SamplePlan {
    let zoom: i64 = 6553600;
    let off: i64 = 6553600;
    let t: i64 = fx_mul_s(time_fx_s(time), 32768);
    plan_2d_s(
        sadd_s(sadd_s(fx_mul_s(f.vertex_position.x, zoom), off), t),
        sadd_s(fx_mul_s(f.vertex_position.y, zoom), off),
    )
}

/// Noise-sample coordinates for the cloud material.
pub fn cloud_plan(fragment: &Fragment, uniforms: &Uniforms) -> (p: SamplePlan)
    ensures
        p == cloud_plan_s(*fragment, uniforms.time),
{
    let zoom: i64 = 6553600;
    let off: i64 = 6553600;
    let t: i64 = fx_mul(time_fx(uniforms.time), 32768);
    SamplePlan {
        first: Some(NoiseRequest {
            three_d: false,
            x: fx_add(fx_add(fx_mul(fragment.vertex_position.x, zoom), off), t),
            y: fx_add(fx_mul(fragment.vertex_position.y, zoom), off),
            z: 0,
        }),
        second: None,
    }
}

/// The cloud material: noise above one half is cloud white, the rest sky
/// blue.
pub open spec fn cloud_shader_s(f: Fragment, samples: NoiseSamples) -> Color {
    let cloud_color = Color { r: 255, g: 255, b: 255 };
    let sky_color = Color { r: 30, g: 97, b: 145 };
    let noise_color = if samples.a > 32768 {
        cloud_color
    } else {
        sky_color
    };
    noise_color.scale_s(f.intensity)
}

/// Shade one fragment with the cloud material.
pub fn cloud_shader(fragment: &Fragment, _uniforms: &Uniforms, samples: &NoiseSamples) -> (c: Color)
    ensures
        c == cloud_shader_s(*fragment, *samples),
{
    let cloud_color: Color = Color::new(255, 255, 255);
    let sky_color: Color = Color::new(30, 97, 145);
    let noise_color: Color = if samples.a > 32768 {
        cloud_color
    } else {
        sky_color
    };
    noise_color.scale(fragment.intensity)
}

// ---------------------------------------------------------------------------
// Cellular mosaic material.
// ---------------------------------------------------------------------------

/// Where the mosaic material samples noise: zoom 30, offset (50, 50).
pub open spec fn cellular_plan_s(f: Fragment) -> SamplePlan {
    let zoom: i64 = 1966080;
    let off: i64 = 3276800;
    plan_2d_s(
        sadd_s(fx_mul_s(f.vertex_position.x, zoom), off),
        sadd_s(fx_mul_s(f.vertex_position.y, zoom), off),
    )
}

/// Noise-sample coordinates for the mosaic material.
pub fn cellular_plan(fragment: &Fragment, _uniforms: &Uniforms) -> (p: SamplePlan)
    ensures
        p == cellular_plan_s(*fragment),
{
    let zoom: i64 = 1966080;
    let off: i64 = 3276800;
    SamplePlan {
        first: Some(NoiseRequest {
            three_d: false,
            x: fx_add(fx_mul(fragment.vertex_position.x, zoom), off),
            y: fx_add(fx_mul(fragment.vertex_position.y, zoom), off),
            z: 0,
        }),
        second: None,
    }
}

/// The mosaic material: the folded cell-noise magnitude picks one of four
/// greens.
pub open spec fn cellular_shader_s(f: Fragment, samples: NoiseSamples) -> Color {
    let cell_color_1 = Color { r: 85, g: 107, b: 47 };
    let cell_color_2 = Color { r: 124, g: 252, b: 0 };
    let cell_color_3 = Color { r: 34, g: 139, b: 34 };
    let cell_color_4 = Color { r: 173, g: 255, b: 47 };
    let v: i64 = sat64(abs_int(samples.a as int));
    let final_color = if v < 9830 {
        cell_color_1
    } else if v < 45875 {
        cell_color_2
    } else if v < 49152 {
        cell_color_3
    } else {
        cell_color_4
    };
    final_color.scale_s(f.intensity)
}

/// Shade one fragment with the mosaic material.
pub fn cellular_shader(fragment: &Fragment, _uniforms: &Uniforms, samples: &NoiseSamples) -> (c:
    Color)
    ensures
        c == cellular_shader_s(*fragment, *samples),
{
    let cell_color_1: Color = Color::new(85, 107, 47);
    let cell_color_2: Color = Color::new(124, 252, 0);
    let cell_color_3: Color = Color::new(34, 139, 34);
    let cell_color_4: Color = Color::new(173, 255, 47);
    let v: i64 = fx_abs(samples.a);
    let final_color: Color = if v < 9830 {
        cell_color_1
    } else if v < 45875 {
        cell_color_2
    } else if v < 49152 {
        cell_color_3
    } else {
        cell_color_4
    };
    final_color.scale(fragment.intensity)
}

// ---------------------------------------------------------------------------
// Pulsating lava material.
// ---------------------------------------------------------------------------

/// Where the lava material samples noise: zoom 1000, a sinusoidal pulsation
/// on the depth axis, and a second sample offset by 1000 on every axis.
pub open spec fn lava_plan_s(f: Fragment, time: u32) -> SamplePlan {
    let zoom: i64 = 65536000;
    let off: i64 = 65536000;
    let x: i64 = f.vertex_position.x;
    let y: i64 = f.vertex_position.y;
    let d: i64 = f.depth;
    let t: i64 = fx_mul_s(time_fx_s(time), 655);
    let pulsate: i64 = fx_mul_s(sat64(fx_sin_rad_s(fx_mul_s(t, 13107))), 32768);
    plan_3d_pair_s(
        NoiseRequest {
            three_d: true,
            x: fx_mul_s(x, zoom),
            y: fx_mul_s(y, zoom),
            z: fx_mul_s(sadd_s(d, pulsate), zoom),
        },
        NoiseRequest {
            three_d: true,
            x: fx_mul_s(sadd_s(x, off), zoom),
            y: fx_mul_s(sadd_s(y, off), zoom),
            z: fx_mul_s(sadd_s(sadd_s(d, off), pulsate), zoom),
        },
    )
}

/// Noise-sample coordinates for the lava material.
pub fn lava_plan(fragment: &Fragment, uniforms: &Uniforms) -> (p: SamplePlan)
    ensures
        p == lava_plan_s(*fragment, uniforms.time),
{
    let zoom: i64 = 65536000;
    let off: i64 = 65536000;
    let x: i64 = fragment.vertex_position.x;
    let y: i64 = fragment.vertex_position.y;
    let d: i64 = fragment.depth;
    let t: i64 = fx_mul(time_fx(uniforms.time), 655);
    let pulsate: i64 = fx_mul(fx_sin_rad(fx_mul(t, 13107)), 32768);
    SamplePlan {
        first: Some(NoiseRequest {
            three_d: true,
            x: fx_mul(x, zoom),
            y: fx_mul(y, zoom),
            z: fx_mul(fx_add(d, pulsate), zoom),
        }),
        second: Some(NoiseRequest {
            three_d: true,
            x: fx_mul(fx_add(x, off), zoom),
            y: fx_mul(fx_add(y, off), zoom),
            z: fx_mul(fx_add(fx_add(d, off), pulsate), zoom),
        }),
    }
}

/// The lava material: the two samples averaged, then a single blend from
/// dark red-orange to bright orange.
pub open spec fn lava_shader_s(f: Fragment, samples: NoiseSamples) -> Color {
    let bright_color = Color { r: 255, g: 240, b: 0 };
    let dark_color = Color { r: 130, g: 20, b: 0 };
    let noise_value: i64 = fx_mul_s(sadd_s(samples.a, samples.b), 32768);
    dark_color.lerp_s(bright_color, noise_value).scale_s(f.intensity)
}

/// Shade one fragment with the lava material.
pub fn lava_shader(fragment: &Fragment, _uniforms: &Uniforms, samples: &NoiseSamples) -> (c: Color)
    ensures
        c == lava_shader_s(*fragment, *samples),
{
    let bright_color: Color = Color::new(255, 240, 0);
    let dark_color: Color = Color::new(130, 20, 0);
    let noise_value: i64 = fx_mul(fx_add(samples.a, samples.b), 32768);
    let color: Color = dark_color.lerp(&bright_color, noise_value);
    color.scale(fragment.intensity)
}

// ---------------------------------------------------------------------------
// Dispatch.
// ---------------------------------------------------------------------------

/// Which sample plan a material tag asks for.
pub open spec fn sample_plan_s(shader: ShaderType, f: Fragment, time: u32) -> SamplePlan {
    match shader {
        ShaderType::RandomColor => gaseous_giant_plan_s(f, time),
        ShaderType::BlackAndWhite => empty_plan_s(),
        ShaderType::Dalmata => dalmata_plan_s(f),
        ShaderType::Cloud => cloud_plan_s(f, time),
        ShaderType::Cellular => cellular_plan_s(f),
        ShaderType::Lava => solar_plan_s(f, time),
        ShaderType::BlueGreen => blue_green_plan_s(f, time),
        ShaderType::MoonShader => rocky_planet_plan_s(f),
        ShaderType::RingShader => blue_green_plan_s(f, time),
    }
}

/// Compute the noise-sample coordinates a material wants for one fragment.
pub fn sample_plan(shader: ShaderType, fragment: &Fragment, uniforms: &Uniforms) -> (p: SamplePlan)
    ensures
        p == sample_plan_s(shader, *fragment, uniforms.time),
{
    match shader {
        ShaderType::RandomColor => gaseous_giant_plan(fragment, uniforms),
        ShaderType::BlackAndWhite => SamplePlan { first: None, second: None },
        ShaderType::Dalmata => dalmata_plan(fragment, uniforms),
        ShaderType::Cloud => cloud_plan(fragment, uniforms),
        ShaderType::Cellular => cellular_plan(fragment, uniforms),
        ShaderType::Lava => solar_plan(fragment, uniforms),
        ShaderType::BlueGreen => blue_green_plan(fragment, uniforms),
        ShaderType::MoonShader => moon_plan(fragment, uniforms),
        ShaderType::RingShader => ring_plan(fragment, uniforms),
    }
}

/// Which color a material tag produces from a fragment, the frame counter
/// and the noise samples answering its plan.
pub open spec fn shade_fragment_s(
    shader: ShaderType,
    f: Fragment,
    time: u32,
    samples: NoiseSamples,
) -> Color {
    match shader {
        ShaderType::RandomColor => gaseous_giant_shader_s(f, samples),
        ShaderType::BlackAndWhite => black_and_white_s(f, time),
        ShaderType::Dalmata => dalmata_shader_s(f, samples),
        ShaderType::Cloud => cloud_shader_s(f, samples),
        ShaderType::Cellular => cellular_shader_s(f, samples),
        ShaderType::Lava => solar_shader_s(f, samples),
        ShaderType::BlueGreen => blue_green_shader_s(f, samples),
        ShaderType::MoonShader => rocky_planet_shader_s(f, samples),
        ShaderType::RingShader => tri_color_shader_s(f, samples),
    }
}

/// Shade one fragment with the material a tag selects. The reserved moon and
/// ring tags reuse the rock and three-band materials.
pub fn shade_fragment(
    shader: ShaderType,
    fragment: &Fragment,
    uniforms: &Uniforms,
    samples: &NoiseSamples,
) -> (c: Color)
    ensures
        c == shade_fragment_s(shader, *fragment, uniforms.time, *samples),
{
    match shader {
        ShaderType::RandomColor => gaseous_giant_shader(fragment, uniforms, samples),
        ShaderType::BlackAndWhite => black_and_white(fragment, uniforms),
        ShaderType::Dalmata => dalmata_shader(fragment, uniforms, samples),
        ShaderType::Cloud => cloud_shader(fragment, uniforms, samples),
        ShaderType::Cellular => cellular_shader(fragment, uniforms, samples),
        ShaderType::Lava => solar_shader(fragment, uniforms, samples),
        ShaderType::BlueGreen => blue_green_shader(fragment, uniforms, samples),
        ShaderType::MoonShader => moon_shader(fragment, uniforms, samples),
        ShaderType::RingShader => ring_shader(fragment, uniforms, samples),
    }
}

/// Shade one fragment with the renderer's current material.
pub fn fragment_shader(
    fragment: &Fragment,
    uniforms: &Uniforms,
    renderer: &Renderer,
    samples: &NoiseSamples,
) -> (c: Color)
    ensures
        c == shade_fragment_s(renderer.current_shader, *fragment, uniforms.time, *samples),
{
    shade_fragment(renderer.current_shader, fragment, uniforms, samples)
}

/// Material purity: a material's color depends only on the fragment, the
/// frame counter and the noise samples it is handed — two evaluations with
/// equal inputs produce the same color.
pub proof fn lemma_material_purity(
    shader: ShaderType,
    f1: Fragment,
    t1: u32,
    n1: NoiseSamples,
    f2: Fragment,
    t2: u32,
    n2: NoiseSamples,
)
    requires
        f1 == f2,
        t1 == t2,
        n1 == n2,
    ensures
        shade_fragment_s(shader, f1, t1, n1) == shade_fragment_s(shader, f2, t2, n2),
{
}

} // verus!
