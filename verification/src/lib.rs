//! A software 3D rendering pipeline verified with Verus.
//!
//! The renderer transforms mesh geometry through model, view and projection
//! space, rasterizes triangles into per-pixel fragments, shades each fragment
//! with procedural noise-driven materials, and resolves visibility with a
//! depth-tested framebuffer. All core arithmetic is 16.16 fixed point (see
//! [`fx`]); coherent-noise fields are sampled by the caller at coordinates the
//! library computes, so every decision the pipeline makes is verified.

use vstd::prelude::*;

pub mod fx;
pub mod color;
pub mod vecmat;
pub mod vertex;
pub mod fragment;
pub mod renderer;
pub mod noise;
pub mod shaders;
pub mod matrices;
pub mod raster;
pub mod framebuffer;
pub mod camera;
pub mod pipeline;

verus! {

/// The per-frame immutable uniform snapshot: the four transform matrices,
/// the frame counter and the noise configuration shared by every shading
/// invocation of the frame.
#[derive(Clone, Copy, PartialEq, Eq, Structural, Debug)]
pub struct Uniforms {
    pub model_matrix: crate::vecmat::Mat4,
    pub view_matrix: crate::vecmat::Mat4,
    pub projection_matrix: crate::vecmat::Mat4,
    pub viewport_matrix: crate::vecmat::Mat4,
    pub time: u32,
    pub noise: crate::noise::NoiseConfig,
}

} // verus!
