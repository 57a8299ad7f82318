//! Coherent-noise plumbing.
//!
//! The library never samples a noise field itself: floating-point noise
//! generators live outside the verified core. Instead it records the exact
//! generator configuration a frame asks for, computes the fixed-point
//! coordinates each material wants sampled, and consumes the fixed-point
//! sample values the caller hands back. A sample value is the generator's
//! result (nominally in `[-1, 1]`) scaled by `FX_ONE`.

use vstd::prelude::*;
use crate::renderer::{NoiseUse, Renderer};

verus! {

/// The noise algorithms the materials are configured with.
#[derive(Clone, Copy, PartialEq, Eq, Structural, Debug)]
pub enum NoiseKind {
    OpenSimplex2,
    Cellular,
    Perlin,
}

/// Fractal layering configuration (fractal Brownian motion); `lacunarity`
/// and `gain` are fixed point.
#[derive(Clone, Copy, PartialEq, Eq, Structural, Debug)]
pub struct FractalCfg {
    pub octaves: i32,
    pub lacunarity: i64,
    pub gain: i64,
}

/// A complete noise-generator configuration: seed, algorithm, and the
/// optional frequency and fractal settings (`None` keeps the generator's
/// default). The frame driver builds the real generator from this record.
#[derive(Clone, Copy, PartialEq, Eq, Structural, Debug)]
pub struct NoiseConfig {
    pub seed: i32,
    pub kind: NoiseKind,
    pub frequency: Option<i64>,
    pub fractal: Option<FractalCfg>,
}

/// One requested noise sample: a 2-D or 3-D lookup at fixed-point
/// coordinates.
#[derive(Clone, Copy, PartialEq, Eq, Structural, Debug)]
pub struct NoiseRequest {
    pub three_d: bool,
    pub x: i64,
    pub y: i64,
    pub z: i64,
}

/// The (at most two) samples one material evaluation asks for.
#[derive(Clone, Copy, PartialEq, Eq, Structural, Debug)]
pub struct SamplePlan {
    pub first: Option<NoiseRequest>,
    pub second: Option<NoiseRequest>,
}

/// The fixed-point sample values answering a [`SamplePlan`]; a slot whose
/// request was `None` is ignored.
#[derive(Clone, Copy, PartialEq, Eq, Structural, Debug)]
pub struct NoiseSamples {
    pub a: i64,
    pub b: i64,
}

/// The cloud configuration: simplex noise with the default frequency.
pub fn create_cloud_noise() -> (c: NoiseConfig)
    ensures
        c == (NoiseConfig {
            seed: 1337,
            kind: NoiseKind::OpenSimplex2,
            frequency: None::<i64>,
            fractal: None::<FractalCfg>,
        }),
{
    NoiseConfig { seed: 1337, kind: NoiseKind::OpenSimplex2, frequency: None, fractal: None }
}

/// The cellular configuration: cell noise at frequency 0.1.
pub fn create_cell_noise() -> (c: NoiseConfig)
    ensures
        c == (NoiseConfig {
            seed: 1337,
            kind: NoiseKind::Cellular,
            frequency: Some(6554i64),
            fractal: None::<FractalCfg>,
        }),
{
    NoiseConfig { seed: 1337, kind: NoiseKind::Cellular, frequency: Some(6554), fractal: None }
}

/// The ground configuration: cellular noise layered with five octaves of
/// fractal Brownian motion (lacunarity 2, gain one half) at frequency 0.05.
pub fn create_ground_noise() -> (c: NoiseConfig)
    ensures
        c == (NoiseConfig {
            seed: 1337,
            kind: NoiseKind::Cellular,
            frequency: Some(3277i64),
            fractal: Some(FractalCfg { octaves: 5, lacunarity: 131072, gain: 32768 }),
        }),
{
    NoiseConfig {
        seed: 1337,
        kind: NoiseKind::Cellular,
        frequency: Some(3277),
        fractal: Some(FractalCfg { octaves: 5, lacunarity: 131072, gain: 32768 }),
    }
}

/// The lava configuration: Perlin noise layered with six octaves of fractal
/// Brownian motion (lacunarity 2, gain one half) at frequency 0.002.
pub fn create_lava_noise() -> (c: NoiseConfig)
    ensures
        c == (NoiseConfig {
            seed: 42,
            kind: NoiseKind::Perlin,
            frequency: Some(131i64),
            fractal: Some(FractalCfg { octaves: 6, lacunarity: 131072, gain: 32768 }),
        }),
{
    NoiseConfig {
        seed: 42,
        kind: NoiseKind::Perlin,
        frequency: Some(131),
        fractal: Some(FractalCfg { octaves: 6, lacunarity: 131072, gain: 32768 }),
    }
}

/// The configuration the renderer's current noise selection stands for.
pub open spec fn create_noise_s(u: NoiseUse) -> NoiseConfig {
    match u {
        NoiseUse::Cloud => NoiseConfig {
            seed: 1337,
            kind: NoiseKind::OpenSimplex2,
            frequency: None,
            fractal: None,
        },
        NoiseUse::Cell => NoiseConfig {
            seed: 1337,
            kind: NoiseKind::Cellular,
            frequency: Some(6554),
            fractal: None,
        },
        NoiseUse::Ground => NoiseConfig {
            seed: 1337,
            kind: NoiseKind::Cellular,
            frequency: Some(3277),
            fractal: Some(FractalCfg { octaves: 5, lacunarity: 131072, gain: 32768 }),
        },
        NoiseUse::Lava => NoiseConfig {
            seed: 42,
            kind: NoiseKind::Perlin,
            frequency: Some(131),
            fractal: Some(FractalCfg { octaves: 6, lacunarity: 131072, gain: 32768 }),
        },
    }
}

/// Select the noise configuration for the renderer's current selection.
pub fn create_noise(renderer: &Renderer) -> (c: NoiseConfig)
    ensures
        c == create_noise_s(renderer.current_noise),
{
    match renderer.current_noise {
        NoiseUse::Cloud => create_cloud_noise(),
        NoiseUse::Cell => create_cell_noise(),
        NoiseUse::Ground => create_ground_noise(),
        NoiseUse::Lava => create_lava_noise(),
    }
}

} // verus!
