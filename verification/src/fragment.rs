//! Fragments: the per-pixel unit of work handed from the rasterizer to the
//! shading system, strictly ephemeral within one frame.

use vstd::prelude::*;
use crate::vecmat::{Fx2, Fx3};

verus! {

/// One covered pixel. `x`/`y` are the integer screen cell; `depth` is the
/// interpolated fixed-point depth; `vertex_position` is the interpolated
/// object-space position (noise patterns sample it so they stay stable under
/// camera movement); `intensity` is the interpolated fixed-point lighting
/// scalar; `tex_coords` are the interpolated texture coordinates.
#[derive(Clone, Copy, PartialEq, Eq, Structural, Debug)]
pub struct Fragment {
    pub x: usize,
    pub y: usize,
    pub depth: i64,
    pub vertex_position: Fx3,
    pub intensity: i64,
    pub tex_coords: Fx2,
}

} // verus!
