//! Mesh vertices as they enter and leave the transform stage.
use vstd::prelude::*;
use crate::color::Color;
use crate::fragment::Depth;
use crate::vector::{Vec2, Vec3};

verus! {

/// A vertex of a mesh. `position`, `normal` and `tex_coords` come from the
/// mesh; the transform stage fills the two `transformed_` fields and
/// `depth`, and replaces `position` by the position in the world.
/// `depth` is the third coordinate of the place on the screen once more,
/// in fine units: the rasterizer takes the depth of its fragments from
/// it.
#[derive(Clone, Copy, Debug, PartialEq, Eq, Structural)]
pub struct Vertex {
    pub position: Vec3,
    pub normal: Vec3,
    pub tex_coords: Vec2,
    pub color: Color,
    pub transformed_position: Vec3,
    pub transformed_normal: Vec3,
    pub depth: Depth,
}

impl Vertex {
    /// A black vertex as a mesh gives it: the transformed position is the
    /// position, the transformed normal is the normal, and the depth is
    /// the third coordinate of the position.
    pub fn new(position: Vec3, normal: Vec3, tex_coords: Vec2) -> (v: Vertex)
        ensures
            v == (Vertex {
                position,
                normal,
                tex_coords,
                color: Color { r: 0, g: 0, b: 0, a: 255 },
                transformed_position: position,
                transformed_normal: normal,
                depth: Depth::of(position.z@ * 65536),
            }),
    {
        Vertex {
            position,
            normal,
            tex_coords,
            color: Color::black(),
            transformed_position: position,
            transformed_normal: normal,
            depth: Depth::from_fixed(position.z),
        }
    }
}

} // verus!
