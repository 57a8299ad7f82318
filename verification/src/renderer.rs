//! Scene-facing types: the closed material enumeration and the per-object
//! binding of geometry, transform and material.

use vstd::prelude::*;
use crate::vecmat::Fx3;
use crate::vertex::Vertex;

verus! {

/// The closed set of material tags the shading system dispatches on.
#[derive(Clone, Copy, PartialEq, Eq, Structural, Debug)]
pub enum ShaderType {
    RandomColor,
    BlackAndWhite,
    Dalmata,
    Cloud,
    Cellular,
    Lava,
    BlueGreen,
    MoonShader,
    RingShader,
}

/// Which coherent-noise configuration a frame renders with.
#[derive(Clone, Copy, PartialEq, Eq, Structural, Debug)]
pub enum NoiseUse {
    Cloud,
    Cell,
    Ground,
    Lava,
}

/// The renderer's current material and noise selection.
#[derive(Clone, Copy, PartialEq, Eq, Structural, Debug)]
pub struct Renderer {
    pub current_shader: ShaderType,
    pub current_noise: NoiseUse,
}

/// A per-object transform: world position, uniform scale and Euler rotation
/// (fixed-point radians).
#[derive(Clone, Copy, PartialEq, Eq, Structural, Debug)]
pub struct Transform {
    pub position: Fx3,
    pub scale: i64,
    pub rotation: Fx3,
}

/// One renderable object: its vertex buffer, its transform and its material.
#[derive(Clone, Debug)]
pub struct Object {
    pub vertices: Vec<Vertex>,
    pub transform: Transform,
    pub shader: ShaderType,
}

} // verus!
