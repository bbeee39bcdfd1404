//! One draw call: the matrices of an object, and the way of its vertices
//! through the transform stage, the rasterizer and the surface shaders.
use vstd::prelude::*;
use crate::color::Color;
use crate::fixed::{Fixed, ONE, saturate, quotient};
use crate::fragment::Fragment;
use crate::gaseous_shader::{
    gaseous_shader, rocky_shader, sun_shader, gaseous_factor, rocky_factor, sun_factor,
};
use crate::shaders::{vertex_shader, transformed_vertex};
use crate::triangle::{triangle, triangle_fragments, lemma_filter_map_step};
use crate::fixed::lemma_mul_bounds;
use crate::trig::{
    Angle, sine_fine, cosine_fine, nearest, div_nearest, fine_scaled, scale_fine,
    lemma_nearest_within,
};
use crate::vector::{Vec3, Vec4, Mat4, FineVec3, V3, V4, M4, fine_within};
use crate::vertex::Vertex;

verus! {

/// The four matrices of one draw call.
#[derive(Clone, Copy, Debug, PartialEq, Eq, Structural)]
pub struct Uniforms {
    pub model_matrix: Mat4,
    pub view_matrix: Mat4,
    pub projection_matrix: Mat4,
    pub viewport_matrix: Mat4,
}

/// The kinds of surface.
#[derive(Clone, Copy, Debug, PartialEq, Eq, Structural)]
pub enum PlanetType {
    /// Shines by itself.
    Sun,
    /// Banded and turbulent.
    Gaseous,
    /// Rough, with craters.
    Rocky,
    /// Lit and nothing else.
    Normal,
    /// Lit and nothing else.
    Spaceship,
}

/// Rows of a 3×3 matrix in fine units of 2^-32.
pub struct M3 {
    pub r0: V3,
    pub r1: V3,
    pub r2: V3,
}

/// The turn about the x axis by the angle of the given sine and cosine,
/// in fine units.
pub open spec fn rotation_x(s: int, c: int) -> M3 {
    M3 {
        r0: V3 { x: 0x1_0000_0000, y: 0, z: 0 },
        r1: V3 { x: 0, y: c, z: -s },
        r2: V3 { x: 0, y: s, z: c },
    }
}

/// The turn about the y axis by the angle of the given sine and cosine,
/// in fine units.
pub open spec fn rotation_y(s: int, c: int) -> M3 {
    M3 {
        r0: V3 { x: c, y: 0, z: s },
        r1: V3 { x: 0, y: 0x1_0000_0000, z: 0 },
        r2: V3 { x: -s, y: 0, z: c },
    }
}

/// The turn about the z axis by the angle of the given sine and cosine,
/// in fine units.
pub open spec fn rotation_z(s: int, c: int) -> M3 {
    M3 {
        r0: V3 { x: c, y: -s, z: 0 },
        r1: V3 { x: s, y: c, z: 0 },
        r2: V3 { x: 0, y: 0, z: 0x1_0000_0000 },
    }
}

/// A row of a fine matrix times a fine matrix: each entry is the exact
/// sum of three products, scaled back once and rounded to the nearest.
pub open spec fn m3_row_times(r: V3, b: M3) -> V3 {
    V3 {
        x: nearest(r.x * b.r0.x + r.y * b.r1.x + r.z * b.r2.x, 0x1_0000_0000),
        y: nearest(r.x * b.r0.y + r.y * b.r1.y + r.z * b.r2.y, 0x1_0000_0000),
        z: nearest(r.x * b.r0.z + r.y * b.r1.z + r.z * b.r2.z, 0x1_0000_0000),
    }
}

/// The product of two matrices in fine units.
pub open spec fn m3_mul(a: M3, b: M3) -> M3 {
    M3 { r0: m3_row_times(a.r0, b), r1: m3_row_times(a.r1, b), r2: m3_row_times(a.r2, b) }
}

/// The turn of an object by the raw Euler angles of `rotation`: about x
/// first, then y, then z, in fine units.
pub open spec fn turn_matrix(rotation: V3) -> M3 {
    let rx = rotation_x(sine_fine(rotation.x * 65536), cosine_fine(rotation.x * 65536));
    let ry = rotation_y(sine_fine(rotation.y * 65536), cosine_fine(rotation.y * 65536));
    let rz = rotation_z(sine_fine(rotation.z * 65536), cosine_fine(rotation.z * 65536));
    m3_mul(m3_mul(rz, ry), rx)
}

/// One row of a model matrix: a row of the turn times the scale, each
/// entry rounded once to the nearest raw value, and the shift.
pub open spec fn model_row(turn: V3, scale: int, shift: int) -> V4 {
    V4 {
        x: fine_scaled(scale, turn.x),
        y: fine_scaled(scale, turn.y),
        z: fine_scaled(scale, turn.z),
        w: shift,
    }
}

/// The model matrix of an object: it turns the object about x, then y,
/// then z by the raw angles of `rotation`, scales it and shifts it to
/// `translation`.
pub open spec fn model_matrix(translation: V3, scale: int, rotation: V3) -> M4 {
    let turn = turn_matrix(rotation);
    M4 {
        r0: model_row(turn.r0, scale, translation.x),
        r1: model_row(turn.r1, scale, translation.y),
        r2: model_row(turn.r2, scale, translation.z),
        r3: V4 { x: 0, y: 0, z: 0, w: ONE as int },
    }
}

/// A 3×3 matrix in fine units, stored by rows.
#[derive(Clone, Copy, Debug, PartialEq, Eq, Structural)]
pub struct FineMat3 {
    pub r0: FineVec3,
    pub r1: FineVec3,
    pub r2: FineVec3,
}

impl View for FineMat3 {
    type V = M3;

    open spec fn view(&self) -> M3 {
        M3 { r0: self.r0@, r1: self.r1@, r2: self.r2@ }
    }
}

/// Whether every entry of a fine matrix lies within `bound`.
pub open spec fn m3_within(m: M3, bound: int) -> bool {
    fine_within(m.r0, bound) && fine_within(m.r1, bound) && fine_within(m.r2, bound)
}

/// One entry of a product of fine matrices.
fn fine_entry(a: i64, b: i64, c: i64, d: i64, e: i64, f: i64) -> (r: i64)
    requires
        -0x4_0000_0000 <= a <= 0x4_0000_0000,
        -0x4_0000_0000 <= c <= 0x4_0000_0000,
        -0x4_0000_0000 <= e <= 0x4_0000_0000,
        -0x1_0000_0000 <= b <= 0x1_0000_0000,
        -0x1_0000_0000 <= d <= 0x1_0000_0000,
        -0x1_0000_0000 <= f <= 0x1_0000_0000,
    ensures
        r == nearest(a * b + c * d + e * f, 0x1_0000_0000),
        -0x10_0000_0000 <= r <= 0x10_0000_0000,
        -0x1_0000_0000 <= a <= 0x1_0000_0000 && -0x1_0000_0000 <= c <= 0x1_0000_0000
            && -0x1_0000_0000 <= e <= 0x1_0000_0000 ==> -0x4_0000_0000 <= r <= 0x4_0000_0000,
{
    proof {
        lemma_mul_bounds(a as int, b as int, 0x4_0000_0000, 0x1_0000_0000);
        lemma_mul_bounds(c as int, d as int, 0x4_0000_0000, 0x1_0000_0000);
        lemma_mul_bounds(e as int, f as int, 0x4_0000_0000, 0x1_0000_0000);
        lemma_nearest_within(a * b + c * d + e * f, 0x1_0000_0000, 0x10_0000_0000);
        if -0x1_0000_0000 <= a <= 0x1_0000_0000 && -0x1_0000_0000 <= c <= 0x1_0000_0000
            && -0x1_0000_0000 <= e <= 0x1_0000_0000 {
            lemma_mul_bounds(a as int, b as int, 0x1_0000_0000, 0x1_0000_0000);
            lemma_mul_bounds(c as int, d as int, 0x1_0000_0000, 0x1_0000_0000);
            lemma_mul_bounds(e as int, f as int, 0x1_0000_0000, 0x1_0000_0000);
            lemma_nearest_within(a * b + c * d + e * f, 0x1_0000_0000, 0x4_0000_0000);
        }
    }
    let wide: i128 = a as i128 * b as i128 + c as i128 * d as i128 + e as i128 * f as i128;
    div_nearest(wide, 0x1_0000_0000) as i64
}

/// A row of a fine matrix times a fine matrix.
fn fine_row_times(r: &FineVec3, b: &FineMat3) -> (v: FineVec3)
    requires
        fine_within(r@, 0x4_0000_0000),
        m3_within(b@, 0x1_0000_0000),
    ensures
        v@ == m3_row_times(r@, b@),
        fine_within(v@, 0x10_0000_0000),
        fine_within(r@, 0x1_0000_0000) ==> fine_within(v@, 0x4_0000_0000),
{
    FineVec3 {
        x: fine_entry(r.x, b.r0.x, r.y, b.r1.x, r.z, b.r2.x),
        y: fine_entry(r.x, b.r0.y, r.y, b.r1.y, r.z, b.r2.y),
        z: fine_entry(r.x, b.r0.z, r.y, b.r1.z, r.z, b.r2.z),
    }
}

/// The product of two fine matrices.
fn fine_mat_mul(a: &FineMat3, b: &FineMat3) -> (m: FineMat3)
    requires
        m3_within(a@, 0x4_0000_0000),
        m3_within(b@, 0x1_0000_0000),
    ensures
        m@ == m3_mul(a@, b@),
        m3_within(m@, 0x10_0000_0000),
        m3_within(a@, 0x1_0000_0000) ==> m3_within(m@, 0x4_0000_0000),
{
    FineMat3 {
        r0: fine_row_times(&a.r0, b),
        r1: fine_row_times(&a.r1, b),
        r2: fine_row_times(&a.r2, b),
    }
}

/// One row of a model matrix.
fn row_of_model(turn: &FineVec3, scale: Fixed, shift: Fixed) -> (r: Vec4)
    ensures
        r@ == model_row(turn@, scale@, shift@),
{
    Vec4 {
        x: scale_fine(scale, turn.x),
        y: scale_fine(scale, turn.y),
        z: scale_fine(scale, turn.z),
        w: shift,
    }
}

/// The matrix from normalized device coordinates to pixels of a screen of
/// the given raw width and height; it turns the y axis downward.
pub open spec fn viewport_matrix(width: int, height: int) -> M4 {
    let half_w = quotient(width, 2 * ONE);
    let half_h = quotient(height, 2 * ONE);
    M4 {
        r0: V4 { x: half_w, y: 0, z: 0, w: half_w },
        r1: V4 { x: 0, y: saturate(-half_h), z: 0, w: half_h },
        r2: V4 { x: 0, y: 0, z: ONE as int, w: 0 },
        r3: V4 { x: 0, y: 0, z: 0, w: ONE as int },
    }
}

/// The model matrix of an object with the given place, size and Euler
/// angles.
pub fn create_model_matrix(translation: Vec3, scale: Fixed, rotation: Vec3) -> (m: Mat4)
    ensures
        m@ == model_matrix(translation@, scale@, rotation@),
{
    let ax = Angle::from_fixed(rotation.x);
    let ay = Angle::from_fixed(rotation.y);
    let az = Angle::from_fixed(rotation.z);
    let (sin_x, cos_x) = (ax.sin_fine(), ax.cos_fine());
    let (sin_y, cos_y) = (ay.sin_fine(), ay.cos_fine());
    let (sin_z, cos_z) = (az.sin_fine(), az.cos_fine());
    let one: i64 = 0x1_0000_0000;
    let rotation_matrix_x = FineMat3 {
        r0: FineVec3 { x: one, y: 0, z: 0 },
        r1: FineVec3 { x: 0, y: cos_x, z: -sin_x },
        r2: FineVec3 { x: 0, y: sin_x, z: cos_x },
    };
    let rotation_matrix_y = FineMat3 {
        r0: FineVec3 { x: cos_y, y: 0, z: sin_y },
        r1: FineVec3 { x: 0, y: one, z: 0 },
        r2: FineVec3 { x: -sin_y, y: 0, z: cos_y },
    };
    let rotation_matrix_z = FineMat3 {
        r0: FineVec3 { x: cos_z, y: -sin_z, z: 0 },
        r1: FineVec3 { x: sin_z, y: cos_z, z: 0 },
        r2: FineVec3 { x: 0, y: 0, z: one },
    };
    let turn = fine_mat_mul(&fine_mat_mul(&rotation_matrix_z, &rotation_matrix_y), &rotation_matrix_x);
    Mat4 {
        r0: row_of_model(&turn.r0, scale, translation.x),
        r1: row_of_model(&turn.r1, scale, translation.y),
        r2: row_of_model(&turn.r2, scale, translation.z),
        r3: Vec4 { x: Fixed::zero(), y: Fixed::zero(), z: Fixed::zero(), w: Fixed::one() },
    }
}

/// The viewport matrix of a screen of the given size.
pub fn create_viewport_matrix(width: Fixed, height: Fixed) -> (m: Mat4)
    ensures
        m@ == viewport_matrix(width@, height@),
{
    let two = Fixed::from_int(2);
    let half_w = width.div(two);
    let half_h = height.div(two);
    let o = Fixed::one();
    let z = Fixed::zero();
    Mat4 {
        r0: Vec4 { x: half_w, y: z, z: z, w: half_w },
        r1: Vec4 { x: z, y: half_h.neg(), z: z, w: half_h },
        r2: Vec4 { x: z, y: z, z: o, w: z },
        r3: Vec4 { x: z, y: z, z: z, w: o },
    }
}

/// The color of a fragment after the shader of its kind of surface. The
/// plain kinds keep the color that the rasterizer gave.
pub open spec fn shaded_color(planet_type: PlanetType, f: Fragment, time: int) -> Color {
    match planet_type {
        PlanetType::Sun => f.color.scaled(sun_factor(f.x as int, f.y as int, time)),
        PlanetType::Gaseous => f.color.scaled(gaseous_factor(f.x as int, f.y as int, time)),
        PlanetType::Rocky => f.color.scaled(rocky_factor(f.x as int, f.y as int)),
        PlanetType::Normal => f.color,
        PlanetType::Spaceship => f.color,
    }
}

/// Whether a fragment falls on a screen of the given size.
pub open spec fn on_screen(f: Fragment, width: int, height: int) -> bool {
    0 <= f.x < width && 0 <= f.y < height
}

/// The test that picks the fragments on the screen.
pub open spec fn screen_test(width: int, height: int) -> spec_fn(Fragment) -> bool {
    |f: Fragment| on_screen(f, width, height)
}

/// The map from a fragment to the same fragment in its final color.
pub open spec fn surface_map(planet_type: PlanetType, time: int) -> spec_fn(Fragment) -> Fragment {
    |f: Fragment| Fragment { color: shaded_color(planet_type, f, time), ..f }
}

/// The map from a vertex of the mesh to the transformed vertex in the
/// color of the object.
pub open spec fn vertex_map(uniforms: Uniforms, color: Color) -> spec_fn(Vertex) -> Vertex {
    |v: Vertex| Vertex { color, ..transformed_vertex(v, uniforms) }
}

/// The fragments of the first `triangles` triangles of a list of
/// vertices, where each three vertices in a row make one triangle.
pub open spec fn mesh_fragments(vertices: Seq<Vertex>, sun: V3, is_sun: bool, triangles: int)
    -> Seq<Fragment>
    decreases triangles,
{
    if triangles <= 0 {
        Seq::empty()
    } else {
        let i = 3 * (triangles - 1);
        mesh_fragments(vertices, sun, is_sun, triangles - 1) + triangle_fragments(
            vertices[i],
            vertices[i + 1],
            vertices[i + 2],
            sun,
            is_sun,
        )
    }
}

/// What one draw call puts on a screen of the given size: the vertices
/// are transformed and colored, every three in a row are rasterized as a
/// triangle (what is left over of the list is dropped), the fragments off
/// the screen are dropped, and the others get the color of their surface.
pub open spec fn rendered(
    uniforms: Uniforms,
    vertices: Seq<Vertex>,
    color: Color,
    planet_type: PlanetType,
    time: int,
    sun: V3,
    width: int,
    height: int,
) -> Seq<Fragment> {
    let transformed = vertices.map_values(vertex_map(uniforms, color));
    mesh_fragments(
        transformed,
        sun,
        planet_type == PlanetType::Sun,
        transformed.len() as int / 3,
    ).filter(screen_test(width, height)).map_values(surface_map(planet_type, time))
}

/// The color of a fragment after the shader of its kind of surface.
pub fn shade(planet_type: PlanetType, fragment: &Fragment, time: Fixed) -> (c: Color)
    ensures
        c == shaded_color(planet_type, *fragment, time@),
{
    match planet_type {
        PlanetType::Sun => sun_shader(fragment, fragment.color, time),
        PlanetType::Gaseous => gaseous_shader(fragment, fragment.color, time),
        PlanetType::Rocky => rocky_shader(fragment, fragment.color),
        PlanetType::Normal => fragment.color,
        PlanetType::Spaceship => fragment.color,
    }
}

/// Transforms every vertex of a mesh and gives it the color of the
/// object.
pub fn transform_vertices(vertex_array: &[Vertex], uniforms: &Uniforms, color: Color) -> (out: Vec<
    Vertex,
>)
    ensures
        out@ == vertex_array@.map_values(vertex_map(*uniforms, color)),
{
    let mut out: Vec<Vertex> = Vec::new();
    let mut i: usize = 0;
    while i < vertex_array.len()
        invariant
            0 <= i <= vertex_array@.len(),
            out@ == vertex_array@.take(i as int).map_values(vertex_map(*uniforms, color)),
        decreases vertex_array@.len() - i,
    {
        let mut transformed = vertex_shader(&vertex_array[i], uniforms);
        transformed.color = color;
        proof {
            assert(vertex_array@.take(i + 1).map_values(vertex_map(*uniforms, color))
                =~= vertex_array@.take(i as int).map_values(vertex_map(*uniforms, color)).push(
                transformed,
            ));
        }
        out.push(transformed);
        i = i + 1;
    }
    proof {
        assert(vertex_array@.take(i as int) =~= vertex_array@);
    }
    out
}

/// Rasterizes a list of transformed vertices, each three in a row as one
/// triangle; one or two vertices left over at the end are dropped.
pub fn rasterize_mesh(vertices: &[Vertex], sun_world_position: &Vec3, is_sun: bool) -> (fragments:
    Vec<Fragment>)
    ensures
        fragments@ == mesh_fragments(
            vertices@,
            sun_world_position@,
            is_sun,
            vertices@.len() as int / 3,
        ),
{
    let mut fragments: Vec<Fragment> = Vec::new();
    let len: usize = vertices.len();
    let count: usize = len / 3;
    let mut t: usize = 0;
    while t < count
        invariant
            len == vertices@.len(),
            count == len / 3,
            0 <= t <= count,
            fragments@ == mesh_fragments(vertices@, sun_world_position@, is_sun, t as int),
        decreases count - t,
    {
        assert(3 * t + 2 < len);
        let i: usize = 3 * t;
        let mut more = triangle(
            &vertices[i],
            &vertices[i + 1],
            &vertices[i + 2],
            sun_world_position,
            is_sun,
        );
        fragments.append(&mut more);
        t = t + 1;
    }
    fragments
}

/// Keeps the fragments that fall on the screen and gives each the color
/// of its surface.
pub fn shade_visible(
    fragments: &Vec<Fragment>,
    planet_type: PlanetType,
    time: Fixed,
    width: usize,
    height: usize,
) -> (shaded: Vec<Fragment>)
    ensures
        shaded@ == fragments@.filter(screen_test(width as int, height as int)).map_values(
            surface_map(planet_type, time@),
        ),
        forall|i: int|
            0 <= i < shaded@.len() ==> on_screen(#[trigger] shaded@[i], width as int, height as int),
{
    let mut shaded: Vec<Fragment> = Vec::new();
    let ghost test = screen_test(width as int, height as int);
    let ghost surface = surface_map(planet_type, time@);
    proof {
        reveal(Seq::filter);
        assert(fragments@.take(0) =~= Seq::<Fragment>::empty());
        assert(fragments@.take(0).filter(test).map_values(surface) =~= shaded@);
    }
    let mut i: usize = 0;
    while i < fragments.len()
        invariant
            0 <= i <= fragments@.len(),
            test == screen_test(width as int, height as int),
            surface == surface_map(planet_type, time@),
            shaded@ == fragments@.take(i as int).filter(test).map_values(surface),
            forall|j: int|
                0 <= j < shaded@.len() ==> on_screen(
                    #[trigger] shaded@[j],
                    width as int,
                    height as int,
                ),
        decreases fragments@.len() - i,
    {
        let fragment = fragments[i];
        proof {
            lemma_filter_map_step(fragments@, i as int, test, surface);
        }
        if fragment.x >= 0 && fragment.y >= 0 && (fragment.x as usize) < width && (
        fragment.y as usize) < height {
            let final_color = shade(planet_type, &fragment, time);
            shaded.push(Fragment::new(fragment.x, fragment.y, final_color, fragment.depth));
        }
        i = i + 1;
    }
    proof {
        assert(fragments@.take(i as int) =~= fragments@);
    }
    shaded
}

/// One draw call: transforms the vertices of a mesh, rasterizes its
/// triangles, and returns, in the order in which they are to be written,
/// the fragments that fall on a screen of `width` by `height` pixels, each
/// in the final color of its surface. The object is drawn in the color
/// `0xRRGGBB`; the sun is not lit, every other kind is lit from
/// `sun_world_position`.
pub fn render(
    uniforms: &Uniforms,
    vertex_array: &[Vertex],
    color: u32,
    planet_type: PlanetType,
    time: Fixed,
    sun_world_position: Vec3,
    width: usize,
    height: usize,
) -> (writes: Vec<Fragment>)
    ensures
        writes@ == rendered(
            *uniforms,
            vertex_array@,
            Color::unpacked(color as int),
            planet_type,
            time@,
            sun_world_position@,
            width as int,
            height as int,
        ),
        forall|i: int|
            0 <= i < writes@.len() ==> on_screen(#[trigger] writes@[i], width as int, height as int),
{
    let is_sun = match planet_type {
        PlanetType::Sun => true,
        _ => false,
    };
    let transformed_vertices = transform_vertices(vertex_array, uniforms, Color::from_hex(color));
    let fragments = rasterize_mesh(transformed_vertices.as_slice(), &sun_world_position, is_sun);
    shade_visible(&fragments, planet_type, time, width, height)
}

} // verus!
