//! Mesh vertices: immutable source attributes plus the derived screen-space
//! attributes the transform stage fills in each frame.

use vstd::prelude::*;
use crate::vecmat::{Fx2, Fx3};
use crate::color::Color;

verus! {

/// One mesh vertex. `position`, `normal`, `tex_coords` and `color` are the
/// object-space source attributes; `transformed_position` (screen space) and
/// `transformed_normal` are recomputed by the vertex stage every frame and
/// never persisted.
#[derive(Clone, Copy, PartialEq, Eq, Structural, Debug)]
pub struct Vertex {
    pub position: Fx3,
    pub normal: Fx3,
    pub tex_coords: Fx2,
    pub color: Option<Color>,
    pub transformed_position: Fx3,
    pub transformed_normal: Fx3,
}

impl Vertex {
    /// A fresh vertex from its source attributes; the derived attributes
    /// start at zero until the transform stage fills them.
    pub fn new(position: Fx3, normal: Fx3, tex_coords: Fx2) -> (v: Vertex)
        ensures
            v == (Vertex {
                position,
                normal,
                tex_coords,
                color: None::<Color>,
                transformed_position: Fx3 { x: 0, y: 0, z: 0 },
                transformed_normal: Fx3 { x: 0, y: 0, z: 0 },
            }),
    {
        Vertex {
            position,
            normal,
            tex_coords,
            color: None,
            transformed_position: Fx3 { x: 0, y: 0, z: 0 },
            transformed_normal: Fx3 { x: 0, y: 0, z: 0 },
        }
    }
}

} // verus!
