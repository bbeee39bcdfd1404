//! The transform stage: from a vertex of a mesh to its place in the world
//! and on the screen.
use vstd::prelude::*;
use crate::fixed::{
    Fixed, ONE, saturate, saturate_i128, trunc_div, div_toward_zero, lemma_mul_bounds,
};
use crate::trig::{nearest, div_nearest};
use crate::fragment::{Depth, depth_clamp, DEPTH_LIMIT};
use crate::render::Uniforms;
use crate::vector::{Vec3, Vec4, V3, V4, M4, m4_apply, dot3, v3_normalized, at_most_unit};
use crate::vertex::Vertex;

verus! {

/// The point `p` in homogeneous coordinates.
pub open spec fn as_point(p: V3) -> V4 {
    V4 { x: p.x, y: p.y, z: p.z, w: ONE as int }
}

/// The first three coordinates of `v`.
pub open spec fn xyz(v: V4) -> V3 {
    V3 { x: v.x, y: v.y, z: v.z }
}

/// The upper left 3×3 block of `m` applied to `n`.
pub open spec fn rotate_normal(m: M4, n: V3) -> V3 {
    V3 { x: dot3(xyz(m.r0), n), y: dot3(xyz(m.r1), n), z: dot3(xyz(m.r2), n) }
}

/// Where the model matrix takes a position of the mesh.
pub open spec fn world_position(model: M4, position: V3) -> V3 {
    xyz(m4_apply(model, as_point(position)))
}

/// The quotient `a / b` of two raw values in fine units of 2^-32, rounded
/// toward zero and brought within the greatest depth; a zero divisor
/// gives the end of that range on the side of the dividend's sign.
pub open spec fn fine_quotient(a: int, b: int) -> int {
    if b == 0 {
        if a > 0 {
            DEPTH_LIMIT as int
        } else if a < 0 {
            -(DEPTH_LIMIT as int)
        } else {
            0
        }
    } else {
        depth_clamp(trunc_div(a * 0x1_0000_0000, b))
    }
}

/// The first three coordinates of `v`, each divided by the fourth, in
/// fine units. A fourth coordinate of zero sends each of them to the end
/// of the range on the side of its sign.
pub open spec fn perspective_divide(v: V4) -> V3 {
    V3 { x: fine_quotient(v.x, v.w), y: fine_quotient(v.y, v.w), z: fine_quotient(v.z, v.w) }
}

/// One row of the viewport matrix applied to a point in fine units; the
/// result is in fine units.
pub open spec fn viewport_row(row: V4, n: V3) -> int {
    trunc_div(row.x * n.x + row.y * n.y + row.z * n.z + row.w * 0x1_0000_0000, ONE as int)
}

/// A value in fine units rounded to the nearest raw value, saturated.
pub open spec fn rounded(fine: int) -> int {
    saturate(nearest(fine, 65536))
}

/// Where a position of the mesh lands on the screen: through the model,
/// view and projection matrices, the perspective divide, and the
/// viewport matrix. The divide and the viewport matrix work in fine
/// units, and each coordinate is rounded once at the end.
pub open spec fn screen_position(u: Uniforms, position: V3) -> V3 {
    let world = m4_apply(u.model_matrix@, as_point(position));
    let clip = m4_apply(u.projection_matrix@, m4_apply(u.view_matrix@, world));
    let n = perspective_divide(clip);
    V3 {
        x: rounded(viewport_row(u.viewport_matrix@.r0, n)),
        y: rounded(viewport_row(u.viewport_matrix@.r1, n)),
        z: rounded(viewport_row(u.viewport_matrix@.r2, n)),
    }
}

/// The depth on the screen of a position of the mesh: the third
/// coordinate of `screen_position` before it is rounded, in fine units.
pub open spec fn screen_depth(u: Uniforms, position: V3) -> int {
    let world = m4_apply(u.model_matrix@, as_point(position));
    let clip = m4_apply(u.projection_matrix@, m4_apply(u.view_matrix@, world));
    depth_clamp(viewport_row(u.viewport_matrix@.r2, perspective_divide(clip)))
}

/// The unit normal in the world of a normal of the mesh.
pub open spec fn world_normal(model: M4, normal: V3) -> V3 {
    v3_normalized(rotate_normal(model, normal))
}

/// The vertex after the transform stage.
pub open spec fn transformed_vertex(vertex: Vertex, u: Uniforms) -> Vertex {
    Vertex {
        position: Vec3::of(world_position(u.model_matrix@, vertex.position@)),
        transformed_position: Vec3::of(screen_position(u, vertex.position@)),
        transformed_normal: Vec3::of(world_normal(u.model_matrix@, vertex.normal@)),
        depth: Depth::of(screen_depth(u, vertex.position@)),
        ..vertex
    }
}

/// The point `p` in homogeneous coordinates.
fn point(p: &Vec3) -> (v: Vec4)
    ensures
        v@ == as_point(p@),
{
    Vec4 { x: p.x, y: p.y, z: p.z, w: Fixed::one() }
}

/// The first three coordinates of `v`.
fn truncate(v: &Vec4) -> (p: Vec3)
    ensures
        p@ == xyz(v@),
{
    Vec3 { x: v.x, y: v.y, z: v.z }
}

/// The quotient of two numbers in fine units.
fn divide_fine(a: Fixed, b: Fixed) -> (q: i64)
    ensures
        q == fine_quotient(a@, b@),
        -DEPTH_LIMIT <= q <= DEPTH_LIMIT,
{
    if b.raw == 0 {
        if a.raw > 0 {
            0x8000_0000_0000
        } else if a.raw < 0 {
            -0x8000_0000_0000
        } else {
            0
        }
    } else {
        let wide: i128 = a.raw as i128 * 0x1_0000_0000;
        Depth::clamp(div_toward_zero(wide, b.raw as i128)).raw
    }
}

/// One row of the viewport matrix applied to a point in fine units.
fn row_of(row: &Vec4, x: i64, y: i64, z: i64) -> (r: i128)
    requires
        -DEPTH_LIMIT <= x <= DEPTH_LIMIT,
        -DEPTH_LIMIT <= y <= DEPTH_LIMIT,
        -DEPTH_LIMIT <= z <= DEPTH_LIMIT,
    ensures
        r == viewport_row(row@, V3 { x: x as int, y: y as int, z: z as int }),
        -0x1_0000_0000_0000_0000_0000 <= r <= 0x1_0000_0000_0000_0000_0000,
{
    proof {
        lemma_mul_bounds(row.x@, x as int, 0x8000_0000, 0x8000_0000_0000);
        lemma_mul_bounds(row.y@, y as int, 0x8000_0000, 0x8000_0000_0000);
        lemma_mul_bounds(row.z@, z as int, 0x8000_0000, 0x8000_0000_0000);
    }
    let sum: i128 = row.x.raw as i128 * x as i128 + row.y.raw as i128 * y as i128 + row.z.raw as i128
        * z as i128 + row.w.raw as i128 * 0x1_0000_0000;
    div_toward_zero(sum, 65536)
}

/// A value in fine units rounded to the nearest raw value.
fn round_to_raw(fine: i128) -> (r: Fixed)
    requires
        -0x1_0000_0000_0000_0000_0000 <= fine <= 0x1_0000_0000_0000_0000_0000,
    ensures
        r@ == rounded(fine as int),
{
    Fixed { raw: saturate_i128(div_nearest(fine, 65536)) }
}

/// Transforms one vertex. The result keeps the vertex's normal, texture
/// coordinates and color; its `position` is the position in the world,
/// its `transformed_position` the position on the screen, its `depth` the
/// depth on the screen in fine units, and its `transformed_normal` the
/// unit normal in the world. The input is not changed.
pub fn vertex_shader(vertex: &Vertex, uniforms: &Uniforms) -> (out: Vertex)
    ensures
        out == transformed_vertex(*vertex, *uniforms),
        out.position@ == world_position(uniforms.model_matrix@, vertex.position@),
        out.transformed_position@ == screen_position(*uniforms, vertex.position@),
        out.depth@ == screen_depth(*uniforms, vertex.position@),
        out.transformed_normal@ == world_normal(uniforms.model_matrix@, vertex.normal@),
        at_most_unit(out.transformed_normal@),
        out.normal == vertex.normal,
        out.tex_coords == vertex.tex_coords,
        out.color == vertex.color,
{
    let position = point(&vertex.position);
    let world_position_4 = uniforms.model_matrix.apply(&position);
    let world_position = truncate(&world_position_4);
    let clip_space = uniforms.projection_matrix.apply(&uniforms.view_matrix.apply(&world_position_4));
    let w = clip_space.w;
    let x = divide_fine(clip_space.x, w);
    let y = divide_fine(clip_space.y, w);
    let z = divide_fine(clip_space.z, w);
    let viewport = &uniforms.viewport_matrix;
    let deep = row_of(&viewport.r2, x, y, z);
    let transformed_position = Vec3 {
        x: round_to_raw(row_of(&viewport.r0, x, y, z)),
        y: round_to_raw(row_of(&viewport.r1, x, y, z)),
        z: round_to_raw(deep),
    };
    let depth = Depth::clamp(deep);
    let model = &uniforms.model_matrix;
    let turned = Vec3 {
        x: truncate(&model.r0).dot(&vertex.normal),
        y: truncate(&model.r1).dot(&vertex.normal),
        z: truncate(&model.r2).dot(&vertex.normal),
    };
    let transformed_normal = turned.normalize();
    Vertex {
        position: world_position,
        normal: vertex.normal,
        tex_coords: vertex.tex_coords,
        color: vertex.color,
        transformed_position,
        transformed_normal,
        depth,
    }
}

} // verus!
