//! The rasterizer: from three transformed vertices to the fragments that
//! cover their triangle on the screen.
//!
//! Barycentric weights are kept exact, as three numerators over the
//! triangle's signed double area, so that the weights of every pixel sum
//! to exactly one.
use vstd::prelude::*;
use crate::color::{
    Color, channel_clamp, clamp_channel, scaled_channel, lemma_scaled_channel_bounds,
};
use crate::fixed::{
    Fixed, ONE, HALF, saturate, trunc_div, product, saturate_i128, div_toward_zero,
    lemma_mul_bounds, lemma_trunc_div_bounds,
};
use crate::fragment::{Fragment, Depth, depth_clamp};
use crate::vector::{
    Vec3, V3, dot3, v3_sub, v3_normalized, at_most_unit, lemma_unit_dot_bounds,
    lemma_normalized_at_most_unit, lemma_trunc_div_between,
};
use crate::vertex::Vertex;

verus! {

/// Raw value of the share of light that reaches every surface, 0.2,
/// rounded up.
pub const AMBIENT: i32 = 13108;

/// Raw value of the share of light that depends on the angle to the
/// light, 0.8; with the ambient share it makes exactly one.
pub const DIFFUSE: i32 = ONE - AMBIENT;

/// The smallest of three.
pub open spec fn min3(a: int, b: int, c: int) -> int {
    if a <= b && a <= c {
        a
    } else if b <= c {
        b
    } else {
        c
    }
}

/// The largest of three.
pub open spec fn max3(a: int, b: int, c: int) -> int {
    if a >= b && a >= c {
        a
    } else if b >= c {
        b
    } else {
        c
    }
}

/// The pixels that may touch a triangle: columns `min_x..=max_x`, rows
/// `min_y..=max_y`.
pub struct PixelBox {
    pub min_x: int,
    pub min_y: int,
    pub max_x: int,
    pub max_y: int,
}

/// The box from the floor of the least to the ceiling of the greatest
/// screen coordinate of three points.
pub open spec fn bounding_box(a: V3, b: V3, c: V3) -> PixelBox {
    PixelBox {
        min_x: min3(a.x, b.x, c.x) / (ONE as int),
        min_y: min3(a.y, b.y, c.y) / (ONE as int),
        max_x: -((-max3(a.x, b.x, c.x)) / (ONE as int)),
        max_y: -((-max3(a.y, b.y, c.y)) / (ONE as int)),
    }
}

/// The edge function: twice the signed area of the triangle `a`, `b`,
/// `c` on the screen plane, in squared raw units.
pub open spec fn edge(a: V3, b: V3, c: V3) -> int {
    (c.x - a.x) * (b.y - a.y) - (c.y - a.y) * (b.x - a.x)
}

/// The centre of the pixel in column `px` and row `py`, in raw units.
pub open spec fn pixel_center(px: int, py: int) -> V3 {
    V3 { x: px * ONE + HALF, y: py * ONE + HALF, z: 0 }
}

/// Barycentric weights as exact fractions: the weight of the first vertex
/// is `w1 / area`, and so on.
pub struct Weights {
    pub w1: int,
    pub w2: int,
    pub w3: int,
    pub area: int,
}

/// The weights of the point `p` in the triangle `a`, `b`, `c`.
pub open spec fn weights_of(p: V3, a: V3, b: V3, c: V3) -> Weights {
    Weights { w1: edge(b, c, p), w2: edge(c, a, p), w3: edge(a, b, p), area: edge(a, b, c) }
}

/// Whether the fraction `w / area` lies in `[0, 1]`.
pub open spec fn unit_fraction(w: int, area: int) -> bool {
    (area > 0 && 0 <= w <= area) || (area < 0 && area <= w <= 0)
}

/// Whether each of the three weights lies in `[0, 1]`.
pub open spec fn weights_inside(w: Weights) -> bool {
    unit_fraction(w.w1, w.area) && unit_fraction(w.w2, w.area) && unit_fraction(w.w3, w.area)
}

/// The weighted mean of three raw values, rounded toward zero.
pub open spec fn blend(w: Weights, v1: int, v2: int, v3: int) -> int {
    trunc_div(v1 * w.w1 + v2 * w.w2 + v3 * w.w3, w.area)
}

/// The weighted mean of three vectors, componentwise.
pub open spec fn blend_v3(w: Weights, q1: V3, q2: V3, q3: V3) -> V3 {
    V3 {
        x: saturate(blend(w, q1.x, q2.x, q3.x)),
        y: saturate(blend(w, q1.y, q2.y, q3.y)),
        z: saturate(blend(w, q1.z, q2.z, q3.z)),
    }
}

/// The weighted mean of three depths in fine units, each first brought
/// within the greatest depth, and so the mean.
pub open spec fn blend_depth(w: Weights, d1: int, d2: int, d3: int) -> int {
    depth_clamp(blend(w, depth_clamp(d1), depth_clamp(d2), depth_clamp(d3)))
}

/// The weighted mean of three colors, channel by channel; opaque.
pub open spec fn blend_color(w: Weights, c1: Color, c2: Color, c3: Color) -> Color {
    Color {
        r: channel_clamp(blend(w, c1.r as int, c2.r as int, c3.r as int)) as u8,
        g: channel_clamp(blend(w, c1.g as int, c2.g as int, c3.g as int)) as u8,
        b: channel_clamp(blend(w, c1.b as int, c2.b as int, c3.b as int)) as u8,
        a: 255,
    }
}

/// The share of light on a surface with the given normal, seen from a
/// point from which `to_light` points at the light: the ambient share plus
/// the diffuse share times the cosine between the two, where that is
/// positive.
pub open spec fn light_level(normal: V3, to_light: V3) -> int {
    let d = dot3(normal, to_light);
    let intensity = if d > 0 {
        d
    } else {
        0
    };
    saturate(AMBIENT + product(DIFFUSE as int, intensity))
}

/// The three barycentric weights of any point sum to the whole: as
/// fractions of the area they sum to exactly one.
pub proof fn lemma_weights_sum_to_one(p: V3, a: V3, b: V3, c: V3)
    ensures
        weights_of(p, a, b, c).w1 + weights_of(p, a, b, c).w2 + weights_of(p, a, b, c).w3
            == weights_of(p, a, b, c).area,
{
    lemma_expand_differences(p.x, b.x, c.y, b.y);
    lemma_expand_differences(p.y, b.y, c.x, b.x);
    lemma_expand_differences(p.x, c.x, a.y, c.y);
    lemma_expand_differences(p.y, c.y, a.x, c.x);
    lemma_expand_differences(p.x, a.x, b.y, a.y);
    lemma_expand_differences(p.y, a.y, b.x, a.x);
    lemma_expand_differences(c.x, a.x, b.y, a.y);
    lemma_expand_differences(c.y, a.y, b.x, a.x);
    lemma_commute(c.y, p.x);
    lemma_commute(b.y, p.x);
    lemma_commute(a.y, p.x);
    lemma_commute(c.x, p.y);
    lemma_commute(b.x, p.y);
    lemma_commute(a.x, p.y);
    lemma_commute(a.x, b.y);
    lemma_commute(a.x, c.y);
    lemma_commute(b.x, c.y);
    lemma_commute(b.x, a.y);
    lemma_commute(c.x, a.y);
    lemma_commute(c.x, b.y);
    lemma_commute(a.x, a.y);
    lemma_commute(b.x, b.y);
    lemma_commute(c.x, c.y);
}

/// A product of two differences, written out.
proof fn lemma_expand_differences(u: int, v: int, s: int, t: int)
    by (nonlinear_arith)
    ensures
        (u - v) * (s - t) == u * s - u * t - v * s + v * t,
{
}

/// The two orders of a product.
proof fn lemma_commute(u: int, v: int)
    by (nonlinear_arith)
    ensures
        u * v == v * u,
{
}

/// A weighted mean with weights inside the triangle lies between the
/// least and the greatest of the three values.
pub proof fn lemma_blend_between(w: Weights, v1: int, v2: int, v3: int)
    requires
        weights_inside(w),
        w.w1 + w.w2 + w.w3 == w.area,
    ensures
        min3(v1, v2, v3) <= blend(w, v1, v2, v3) <= max3(v1, v2, v3),
{
    let lo = min3(v1, v2, v3);
    let hi = max3(v1, v2, v3);
    let n = v1 * w.w1 + v2 * w.w2 + v3 * w.w3;
    if w.area > 0 {
        lemma_weighted_sum_between(w.w1, w.w2, w.w3, v1, v2, v3, lo, hi);
        lemma_trunc_div_between(n, w.area, lo, hi);
    } else {
        lemma_weighted_sum_between(-w.w1, -w.w2, -w.w3, v1, v2, v3, lo, hi);
        assert(v1 * (-w.w1) + v2 * (-w.w2) + v3 * (-w.w3) == -n) by (nonlinear_arith)
            requires
                n == v1 * w.w1 + v2 * w.w2 + v3 * w.w3,
        ;
        lemma_trunc_div_between(-n, -w.area, lo, hi);
    }
}

/// A sum of three values with non-negative weights lies between the
/// bounds of the values times the sum of the weights.
proof fn lemma_weighted_sum_between(
    w1: int,
    w2: int,
    w3: int,
    v1: int,
    v2: int,
    v3: int,
    lo: int,
    hi: int,
)
    by (nonlinear_arith)
    requires
        w1 >= 0 && w2 >= 0 && w3 >= 0,
        lo <= v1 <= hi,
        lo <= v2 <= hi,
        lo <= v3 <= hi,
    ensures
        lo * (w1 + w2 + w3) <= v1 * w1 + v2 * w2 + v3 * w3 <= hi * (w1 + w2 + w3),
{
    assert(lo * w1 <= v1 * w1 <= hi * w1);
    assert(lo * w2 <= v2 * w2 <= hi * w2);
    assert(lo * w3 <= v3 * w3 <= hi * w3);
}

/// The depth of a fragment lies between the least and the greatest depth
/// of the three vertices, and its color before lighting is the exact
/// weighted mean of the vertex colors, with nothing cut off.
pub proof fn lemma_fragment_between_vertices(
    v1: Vertex,
    v2: Vertex,
    v3: Vertex,
    sun: V3,
    is_sun: bool,
    px: int,
    py: int,
)
    requires
        covers(
            v1.transformed_position@,
            v2.transformed_position@,
            v3.transformed_position@,
            px,
            py,
        ),
    ensures
        ({
            let a = v1.transformed_position@;
            let b = v2.transformed_position@;
            let c = v3.transformed_position@;
            let w = weights_of(pixel_center(px, py), a, b, c);
            let f = fragment_at(v1, v2, v3, sun, is_sun, px, py);
            let base = blend_color(w, v1.color, v2.color, v3.color);
            &&& min3(depth_clamp(v1.depth@), depth_clamp(v2.depth@), depth_clamp(v3.depth@))
                <= f.depth@ <= max3(
                depth_clamp(v1.depth@),
                depth_clamp(v2.depth@),
                depth_clamp(v3.depth@),
            )
            &&& base.r == blend(w, v1.color.r as int, v2.color.r as int, v3.color.r as int)
            &&& base.g == blend(w, v1.color.g as int, v2.color.g as int, v3.color.g as int)
            &&& base.b == blend(w, v1.color.b as int, v2.color.b as int, v3.color.b as int)
        }),
{
    let a = v1.transformed_position@;
    let b = v2.transformed_position@;
    let c = v3.transformed_position@;
    let p = pixel_center(px, py);
    let w = weights_of(p, a, b, c);
    lemma_weights_sum_to_one(p, a, b, c);
    lemma_blend_between(w, depth_clamp(v1.depth@), depth_clamp(v2.depth@), depth_clamp(v3.depth@));
    lemma_blend_between(w, v1.color.r as int, v2.color.r as int, v3.color.r as int);
    lemma_blend_between(w, v1.color.g as int, v2.color.g as int, v3.color.g as int);
    lemma_blend_between(w, v1.color.b as int, v2.color.b as int, v3.color.b as int);
}

/// Twice the signed area of a triangle given by raw coordinates.
fn edge_wide(ax: i64, ay: i64, bx: i64, by: i64, cx: i64, cy: i64) -> (e: i128)
    requires
        -0x1_0000_0000_0000 <= ax <= 0x1_0000_0000_0000,
        -0x1_0000_0000_0000 <= ay <= 0x1_0000_0000_0000,
        -0x1_0000_0000_0000 <= bx <= 0x1_0000_0000_0000,
        -0x1_0000_0000_0000 <= by <= 0x1_0000_0000_0000,
        -0x1_0000_0000_0000 <= cx <= 0x1_0000_0000_0000,
        -0x1_0000_0000_0000 <= cy <= 0x1_0000_0000_0000,
    ensures
        e == (cx - ax) * (by - ay) - (cy - ay) * (bx - ax),
{
    let dx1: i128 = (cx - ax) as i128;
    let dy1: i128 = (by - ay) as i128;
    let dy2: i128 = (cy - ay) as i128;
    let dx2: i128 = (bx - ax) as i128;
    proof {
        lemma_mul_bounds(dx1 as int, dy1 as int, 0x2_0000_0000_0000, 0x2_0000_0000_0000);
        lemma_mul_bounds(dy2 as int, dx2 as int, 0x2_0000_0000_0000, 0x2_0000_0000_0000);
    }
    dx1 * dy1 - dy2 * dx2
}

/// Twice the signed area of the triangle of three screen positions.
pub fn edge_function(a: &Vec3, b: &Vec3, c: &Vec3) -> (e: i128)
    ensures
        e == edge(a@, b@, c@),
        -0x2_0000_0000_0000_0000 <= e <= 0x2_0000_0000_0000_0000,
{
    proof {
        lemma_mul_bounds(c.x@ - a.x@, b.y@ - a.y@, 0x1_0000_0000, 0x1_0000_0000);
        lemma_mul_bounds(c.y@ - a.y@, b.x@ - a.x@, 0x1_0000_0000, 0x1_0000_0000);
    }
    edge_wide(
        a.x.raw as i64,
        a.y.raw as i64,
        b.x.raw as i64,
        b.y.raw as i64,
        c.x.raw as i64,
        c.y.raw as i64,
    )
}

/// The pixel box of three screen positions, as `(min_x, min_y, max_x,
/// max_y)`.
pub fn calculate_bounding_box(v1: &Vec3, v2: &Vec3, v3: &Vec3) -> (bb: (i32, i32, i32, i32))
    ensures
        bb.0 == bounding_box(v1@, v2@, v3@).min_x,
        bb.1 == bounding_box(v1@, v2@, v3@).min_y,
        bb.2 == bounding_box(v1@, v2@, v3@).max_x,
        bb.3 == bounding_box(v1@, v2@, v3@).max_y,
        -32768 <= bb.0 <= bb.2 <= 32768,
        -32768 <= bb.1 <= bb.3 <= 32768,
{
    let min_x = v1.x.min(v2.x).min(v3.x).floor();
    let min_y = v1.y.min(v2.y).min(v3.y).floor();
    let max_x = v1.x.max(v2.x).max(v3.x).ceil();
    let max_y = v1.y.max(v2.y).max(v3.y).ceil();
    (min_x, min_y, max_x, max_y)
}

/// Exact barycentric weights of a point, over the area of its triangle.
#[derive(Clone, Copy, Debug, PartialEq, Eq, Structural)]
pub struct Barycentric {
    pub w1: i128,
    pub w2: i128,
    pub w3: i128,
    pub area: i128,
}

impl View for Barycentric {
    type V = Weights;

    open spec fn view(&self) -> Weights {
        Weights { w1: self.w1 as int, w2: self.w2 as int, w3: self.w3 as int, area: self.area as int }
    }
}

/// The weights of the centre of the pixel `(px, py)` in the triangle `a`,
/// `b`, `c`, whose edge function is `area`.
pub fn barycentric_coordinates(px: i32, py: i32, a: &Vec3, b: &Vec3, c: &Vec3, area: i128) -> (w:
    Barycentric)
    ensures
        w.w1 == edge(b@, c@, pixel_center(px as int, py as int)),
        w.w2 == edge(c@, a@, pixel_center(px as int, py as int)),
        w.w3 == edge(a@, b@, pixel_center(px as int, py as int)),
        w.area == area,
        area == edge(a@, b@, c@) ==> w@ == weights_of(pixel_center(px as int, py as int), a@, b@, c@),
{
    let x: i64 = px as i64 * 65536 + 32768;
    let y: i64 = py as i64 * 65536 + 32768;
    let (ax, ay) = (a.x.raw as i64, a.y.raw as i64);
    let (bx, by) = (b.x.raw as i64, b.y.raw as i64);
    let (cx, cy) = (c.x.raw as i64, c.y.raw as i64);
    Barycentric {
        w1: edge_wide(bx, by, cx, cy, x, y),
        w2: edge_wide(cx, cy, ax, ay, x, y),
        w3: edge_wide(ax, ay, bx, by, x, y),
        area,
    }
}

impl Barycentric {
    /// Whether each weight lies in `[0, 1]`, the ends included.
    pub fn inside(&self) -> (b: bool)
        ensures
            b == weights_inside(self@),
    {
        if self.area > 0 {
            0 <= self.w1 && self.w1 <= self.area && 0 <= self.w2 && self.w2 <= self.area && 0
                <= self.w3 && self.w3 <= self.area
        } else if self.area < 0 {
            self.area <= self.w1 && self.w1 <= 0 && self.area <= self.w2 && self.w2 <= 0
                && self.area <= self.w3 && self.w3 <= 0
        } else {
            false
        }
    }

    /// The weighted mean of three raw values, rounded toward zero.
    pub fn blend(&self, v1: i32, v2: i32, v3: i32) -> (r: i128)
        requires
            weights_inside(self@),
            -0x2_0000_0000_0000_0000 <= self.area <= 0x2_0000_0000_0000_0000,
        ensures
            r == blend(self@, v1 as int, v2 as int, v3 as int),
    {
        proof {
            lemma_mul_bounds(v1 as int, self.w1 as int, 0x8000_0000, 0x2_0000_0000_0000_0000);
            lemma_mul_bounds(v2 as int, self.w2 as int, 0x8000_0000, 0x2_0000_0000_0000_0000);
            lemma_mul_bounds(v3 as int, self.w3 as int, 0x8000_0000, 0x2_0000_0000_0000_0000);
        }
        let sum: i128 = v1 as i128 * self.w1 + v2 as i128 * self.w2 + v3 as i128 * self.w3;
        div_toward_zero(sum, self.area)
    }

    /// The weighted mean of three fixed-point numbers.
    pub fn blend_fixed(&self, v1: Fixed, v2: Fixed, v3: Fixed) -> (r: Fixed)
        requires
            weights_inside(self@),
            -0x2_0000_0000_0000_0000 <= self.area <= 0x2_0000_0000_0000_0000,
        ensures
            r@ == saturate(blend(self@, v1@, v2@, v3@)),
    {
        Fixed { raw: saturate_i128(self.blend(v1.raw, v2.raw, v3.raw)) }
    }

    /// The weighted mean of three depths.
    pub fn blend_depth(&self, d1: Depth, d2: Depth, d3: Depth) -> (r: Depth)
        requires
            weights_inside(self@),
            -0x2_0000_0000_0000_0000 <= self.area <= 0x2_0000_0000_0000_0000,
        ensures
            r@ == blend_depth(self@, d1@, d2@, d3@),
    {
        let a = Depth::clamp(d1.raw as i128).raw as i128;
        let b = Depth::clamp(d2.raw as i128).raw as i128;
        let c = Depth::clamp(d3.raw as i128).raw as i128;
        proof {
            lemma_mul_bounds(a as int, self.w1 as int, 0x8000_0000_0000, 0x2_0000_0000_0000_0000);
            lemma_mul_bounds(b as int, self.w2 as int, 0x8000_0000_0000, 0x2_0000_0000_0000_0000);
            lemma_mul_bounds(c as int, self.w3 as int, 0x8000_0000_0000, 0x2_0000_0000_0000_0000);
        }
        let sum: i128 = a * self.w1 + b * self.w2 + c * self.w3;
        Depth::clamp(div_toward_zero(sum, self.area))
    }

    /// The weighted mean of three vectors.
    pub fn blend_vec3(&self, q1: &Vec3, q2: &Vec3, q3: &Vec3) -> (r: Vec3)
        requires
            weights_inside(self@),
            -0x2_0000_0000_0000_0000 <= self.area <= 0x2_0000_0000_0000_0000,
        ensures
            r@ == blend_v3(self@, q1@, q2@, q3@),
    {
        Vec3 {
            x: self.blend_fixed(q1.x, q2.x, q3.x),
            y: self.blend_fixed(q1.y, q2.y, q3.y),
            z: self.blend_fixed(q1.z, q2.z, q3.z),
        }
    }

    /// The weighted mean of three colors; opaque.
    pub fn blend_color(&self, c1: Color, c2: Color, c3: Color) -> (r: Color)
        requires
            weights_inside(self@),
            -0x2_0000_0000_0000_0000 <= self.area <= 0x2_0000_0000_0000_0000,
        ensures
            r == blend_color(self@, c1, c2, c3),
    {
        Color {
            r: clamp_channel(self.blend(c1.r as i32, c2.r as i32, c3.r as i32)),
            g: clamp_channel(self.blend(c1.g as i32, c2.g as i32, c3.g as i32)),
            b: clamp_channel(self.blend(c1.b as i32, c2.b as i32, c3.b as i32)),
            a: 255,
        }
    }
}

/// The share of light, between the ambient share and one, that falls on a
/// surface: `normal` is the surface's unit normal and `to_light` the unit
/// vector from the surface to the light.
pub fn lighting(normal: &Vec3, to_light: &Vec3) -> (level: Fixed)
    ensures
        level@ == light_level(normal@, to_light@),
        at_most_unit(normal@) && at_most_unit(to_light@) ==> AMBIENT <= level@ <= ONE,
{
    let d = normal.dot(to_light);
    let intensity = d.max(Fixed::zero());
    proof {
        if at_most_unit(normal@) && at_most_unit(to_light@) {
            lemma_light_level_range(normal@, to_light@);
        }
    }
    Fixed::from_raw(AMBIENT).add(Fixed::from_raw(DIFFUSE).mul(intensity))
}

/// Light between two vectors no longer than one lies between the ambient
/// share and one.
pub proof fn lemma_light_level_range(normal: V3, to_light: V3)
    requires
        at_most_unit(normal),
        at_most_unit(to_light),
    ensures
        AMBIENT <= light_level(normal, to_light) <= ONE,
{
    lemma_unit_dot_bounds(normal, to_light);
    let d = dot3(normal, to_light);
    lemma_diffuse_share(if d > 0 {
        d
    } else {
        0
    });
}

/// Wherever a triangle that does not shine by itself is lit, no channel
/// of the fragment is brighter than in the blend of the vertex colors.
pub proof fn lemma_lit_fragment_no_brighter(
    v1: Vertex,
    v2: Vertex,
    v3: Vertex,
    sun: V3,
    px: int,
    py: int,
)
    ensures
        ({
            let w = weights_of(
                pixel_center(px, py),
                v1.transformed_position@,
                v2.transformed_position@,
                v3.transformed_position@,
            );
            let base = blend_color(w, v1.color, v2.color, v3.color);
            let lit = fragment_at(v1, v2, v3, sun, false, px, py).color;
            lit.r <= base.r && lit.g <= base.g && lit.b <= base.b && lit.a == base.a
        }),
{
    let w = weights_of(
        pixel_center(px, py),
        v1.transformed_position@,
        v2.transformed_position@,
        v3.transformed_position@,
    );
    let base = blend_color(w, v1.color, v2.color, v3.color);
    let inward = blend_v3(
        w,
        v1.transformed_normal@,
        v2.transformed_normal@,
        v3.transformed_normal@,
    );
    let toward = v3_sub(sun, blend_v3(w, v1.position@, v2.position@, v3.position@));
    lemma_normalized_at_most_unit(inward);
    lemma_normalized_at_most_unit(toward);
    let level = light_level(v3_normalized(inward), v3_normalized(toward));
    lemma_light_level_range(v3_normalized(inward), v3_normalized(toward));
    lemma_scaled_channel_bounds(base.r as int, level);
    lemma_scaled_channel_bounds(base.g as int, level);
    lemma_scaled_channel_bounds(base.b as int, level);
}

/// Light from far above leaves the color as it is, to within one: where
/// the three vertices lie in the plane `z = 0` with normals straight up
/// and share one color, and the light stands at least a thousand times
/// as high as it is off to either side of any vertex, every channel of a
/// lit fragment is that of the color or one less.
pub proof fn lemma_light_from_far_above(
    v1: Vertex,
    v2: Vertex,
    v3: Vertex,
    sun: V3,
    px: int,
    py: int,
)
    requires
        covers(
            v1.transformed_position@,
            v2.transformed_position@,
            v3.transformed_position@,
            px,
            py,
        ),
        straight_up(v1.transformed_normal@) && v1.position@.z == 0,
        straight_up(v2.transformed_normal@) && v2.position@.z == 0,
        straight_up(v3.transformed_normal@) && v3.position@.z == 0,
        v2.color == v1.color && v3.color == v1.color,
        0 < sun.z <= i32::MAX,
        far_below(v1.position@, sun) && far_below(v2.position@, sun) && far_below(
            v3.position@,
            sun,
        ),
    ensures
        ({
            let lit = fragment_at(v1, v2, v3, sun, false, px, py).color;
            &&& v1.color.r - 1 <= lit.r <= v1.color.r
            &&& v1.color.g - 1 <= lit.g <= v1.color.g
            &&& v1.color.b - 1 <= lit.b <= v1.color.b
            &&& lit.a == 255
        }),
{
    let a = v1.transformed_position@;
    let b = v2.transformed_position@;
    let c = v3.transformed_position@;
    let p = pixel_center(px, py);
    let w = weights_of(p, a, b, c);
    lemma_weights_sum_to_one(p, a, b, c);
    let one = ONE as int;
    lemma_blend_between(w, 0, 0, 0);
    lemma_blend_between(w, one, one, one);
    let normal = blend_v3(w, v1.transformed_normal@, v2.transformed_normal@, v3.transformed_normal@);
    assert(normal == (V3 { x: 0, y: 0, z: one }));
    crate::vector::lemma_normalized_axis();
    let up = v3_normalized(normal);
    lemma_blend_between(w, v1.position@.x, v2.position@.x, v3.position@.x);
    lemma_blend_between(w, v1.position@.y, v2.position@.y, v3.position@.y);
    let world = blend_v3(w, v1.position@, v2.position@, v3.position@);
    let toward = v3_sub(sun, world);
    assert(toward.z == sun.z);
    crate::vector::lemma_normalized_steep(toward);
    let light = v3_normalized(toward);
    let lz = light.z;
    assert(crate::vector::dot3_wide(up, light) == one * lz) by (nonlinear_arith)
        requires
            crate::vector::dot3_wide(up, light) == up.x * light.x + up.y * light.y + up.z
                * light.z,
            up.x == 0 && up.y == 0 && up.z == one,
            lz == light.z,
    ;
    assert(dot3(up, light) == lz);
    let level = light_level(up, light);
    lemma_diffuse_share(lz);
    assert(52428 * lz >= 52428 * 65533);
    lemma_trunc_div_bounds(52428 * lz, 65536);
    assert(ONE - 3 <= level <= ONE);
    lemma_blend_between(w, v1.color.r as int, v1.color.r as int, v1.color.r as int);
    lemma_blend_between(w, v1.color.g as int, v1.color.g as int, v1.color.g as int);
    lemma_blend_between(w, v1.color.b as int, v1.color.b as int, v1.color.b as int);
    lemma_nearly_full_channel(v1.color.r as int, level);
    lemma_nearly_full_channel(v1.color.g as int, level);
    lemma_nearly_full_channel(v1.color.b as int, level);
}

/// Whether a normal points straight up with length one.
pub open spec fn straight_up(n: V3) -> bool {
    n == (V3 { x: 0, y: 0, z: ONE as int })
}

/// Whether the light at `sun` stands at least a thousand times as high
/// as it is off to either side of the point `at`.
pub open spec fn far_below(at: V3, sun: V3) -> bool {
    &&& -sun.z <= 1000 * (sun.x - at.x) <= sun.z
    &&& -sun.z <= 1000 * (sun.y - at.y) <= sun.z
}

/// A factor within three raw units of one takes at most one off a
/// channel.
pub proof fn lemma_nearly_full_channel(c: int, factor: int)
    requires
        0 <= c <= 255,
        ONE - 3 <= factor <= ONE,
    ensures
        c - 1 <= scaled_channel(c, factor) <= c,
{
    lemma_scaled_channel_bounds(c, factor);
    assert(c * factor >= (c - 1) * 65536 && c * factor >= 0) by (nonlinear_arith)
        requires
            0 <= c <= 255,
            65533 <= factor <= 65536,
    ;
    lemma_trunc_div_bounds(c * factor, 65536);
}

/// The diffuse share of an intensity between zero and one lies between
/// zero and the diffuse coefficient.
pub proof fn lemma_diffuse_share(intensity: int)
    requires
        0 <= intensity <= ONE,
    ensures
        0 <= product(DIFFUSE as int, intensity) <= DIFFUSE,
{
    assert(0 <= 52428 * intensity <= 52428 * 65536);
    lemma_trunc_div_bounds(52428 * intensity, 65536);
}

/// The pixels of a box, row by row from the first row, each row from the
/// first column.
pub open spec fn box_pixels(bb: PixelBox) -> Seq<(int, int)> {
    let w = bb.max_x - bb.min_x + 1;
    let h = bb.max_y - bb.min_y + 1;
    Seq::new((w * h) as nat, |k: int| (bb.min_x + k % w, bb.min_y + k / w))
}

/// Whether the centre of pixel `(px, py)` lies in the triangle `a`, `b`,
/// `c`, edges included. A triangle without area covers nothing.
pub open spec fn covers(a: V3, b: V3, c: V3, px: int, py: int) -> bool {
    weights_inside(weights_of(pixel_center(px, py), a, b, c))
}

/// The fragment of the triangle `v1`, `v2`, `v3` at pixel `(px, py)`:
/// the blend of the vertex colors, lit from `sun` unless the triangle
/// shines by itself, at the blend of the vertices' depths.
pub open spec fn fragment_at(
    v1: Vertex,
    v2: Vertex,
    v3: Vertex,
    sun: V3,
    is_sun: bool,
    px: int,
    py: int,
) -> Fragment {
    let a = v1.transformed_position@;
    let b = v2.transformed_position@;
    let c = v3.transformed_position@;
    let w = weights_of(pixel_center(px, py), a, b, c);
    let base = blend_color(w, v1.color, v2.color, v3.color);
    let color = if is_sun {
        base
    } else {
        let normal = v3_normalized(
            blend_v3(w, v1.transformed_normal@, v2.transformed_normal@, v3.transformed_normal@),
        );
        let world = blend_v3(w, v1.position@, v2.position@, v3.position@);
        let to_light = v3_normalized(v3_sub(sun, world));
        base.scaled(light_level(normal, to_light))
    };
    Fragment {
        x: px as i32,
        y: py as i32,
        color,
        depth: Depth::of(blend_depth(w, v1.depth@, v2.depth@, v3.depth@)),
    }
}

/// The test that picks the covered pixels of a triangle.
pub open spec fn cover_test(a: V3, b: V3, c: V3) -> spec_fn((int, int)) -> bool {
    |p: (int, int)| covers(a, b, c, p.0, p.1)
}

/// The map from a pixel to its fragment.
pub open spec fn fragment_map(v1: Vertex, v2: Vertex, v3: Vertex, sun: V3, is_sun: bool)
    -> spec_fn((int, int)) -> Fragment {
    |p: (int, int)| fragment_at(v1, v2, v3, sun, is_sun, p.0, p.1)
}

/// The fragments of a triangle: one for each pixel of its bounding box
/// whose centre the triangle covers, in the order of the box.
pub open spec fn triangle_fragments(v1: Vertex, v2: Vertex, v3: Vertex, sun: V3, is_sun: bool)
    -> Seq<Fragment> {
    let a = v1.transformed_position@;
    let b = v2.transformed_position@;
    let c = v3.transformed_position@;
    box_pixels(bounding_box(a, b, c)).filter(cover_test(a, b, c)).map_values(
        fragment_map(v1, v2, v3, sun, is_sun),
    )
}

/// Taking one more element of a sequence before filtering and mapping
/// appends the image of that element if it passes the filter, and
/// changes nothing if it does not.
pub proof fn lemma_filter_map_step<A, B>(
    s: Seq<A>,
    k: int,
    pred: spec_fn(A) -> bool,
    f: spec_fn(A) -> B,
)
    requires
        0 <= k < s.len(),
    ensures
        pred(s[k]) ==> s.take(k + 1).filter(pred).map_values(f) == s.take(k).filter(
            pred,
        ).map_values(f).push(f(s[k])),
        !pred(s[k]) ==> s.take(k + 1).filter(pred).map_values(f) == s.take(k).filter(
            pred,
        ).map_values(f),
{
    reveal(Seq::filter);
    let t = s.take(k + 1);
    assert(t.drop_last() =~= s.take(k));
    assert(t.last() == s[k]);
    if pred(s[k]) {
        assert(t.filter(pred) == s.take(k).filter(pred).push(s[k]));
        assert(t.filter(pred).map_values(f) =~= s.take(k).filter(pred).map_values(f).push(
            f(s[k]),
        ));
    } else {
        assert(t.filter(pred) == s.take(k).filter(pred));
    }
}

/// The pixel in row `dy` and column `dx` of a box stands at index
/// `dy * width + dx` of the box's pixels.
pub proof fn lemma_box_pixel_index(bb: PixelBox, dx: int, dy: int)
    requires
        0 <= dx < bb.max_x - bb.min_x + 1,
        0 <= dy < bb.max_y - bb.min_y + 1,
    ensures
        0 <= dy * (bb.max_x - bb.min_x + 1) + dx < box_pixels(bb).len(),
        box_pixels(bb)[dy * (bb.max_x - bb.min_x + 1) + dx] == (bb.min_x + dx, bb.min_y + dy),
{
    let w = bb.max_x - bb.min_x + 1;
    let h = bb.max_y - bb.min_y + 1;
    let k = dy * w + dx;
    assert(0 <= k < w * h) by (nonlinear_arith)
        requires
            k == dy * w + dx,
            0 <= dx < w,
            0 <= dy < h,
    ;
    vstd::arithmetic::div_mod::lemma_fundamental_div_mod_converse(k, w, dy, dx);
}

/// A triangle without area has no fragments.
pub proof fn lemma_no_area_no_fragments(
    v1: Vertex,
    v2: Vertex,
    v3: Vertex,
    sun: V3,
    is_sun: bool,
)
    requires
        edge(v1.transformed_position@, v2.transformed_position@, v3.transformed_position@) == 0,
    ensures
        triangle_fragments(v1, v2, v3, sun, is_sun) == Seq::<Fragment>::empty(),
{
    let a = v1.transformed_position@;
    let b = v2.transformed_position@;
    let c = v3.transformed_position@;
    let pixels = box_pixels(bounding_box(a, b, c));
    let pred = cover_test(a, b, c);
    assert(pixels.all(|p: (int, int)| !pred(p)));
    pixels.lemma_all_neg_filter_empty(pred);
    assert(triangle_fragments(v1, v2, v3, sun, is_sun) =~= Seq::<Fragment>::empty());
}

/// The fragment of one covered pixel.
fn shade_pixel(
    v1: &Vertex,
    v2: &Vertex,
    v3: &Vertex,
    sun_world_position: &Vec3,
    is_sun: bool,
    w: &Barycentric,
    px: i32,
    py: i32,
) -> (f: Fragment)
    requires
        w@ == weights_of(
            pixel_center(px as int, py as int),
            v1.transformed_position@,
            v2.transformed_position@,
            v3.transformed_position@,
        ),
        weights_inside(w@),
        -0x2_0000_0000_0000_0000 <= w.area <= 0x2_0000_0000_0000_0000,
    ensures
        f == fragment_at(*v1, *v2, *v3, sun_world_position@, is_sun, px as int, py as int),
{
    let base = w.blend_color(v1.color, v2.color, v3.color);
    let lit = if is_sun {
        base
    } else {
        let normal = w.blend_vec3(
            &v1.transformed_normal,
            &v2.transformed_normal,
            &v3.transformed_normal,
        ).normalize();
        let world = w.blend_vec3(&v1.position, &v2.position, &v3.position);
        let to_light = sun_world_position.sub(&world).normalize();
        base.scale(lighting(&normal, &to_light))
    };
    let depth = w.blend_depth(v1.depth, v2.depth, v3.depth);
    Fragment::new(px, py, lit, depth)
}

/// Rasterizes one triangle. The result holds, in the order of the
/// bounding box, one fragment for each pixel whose centre the triangle
/// covers, edges included; a triangle without area gives none. Unless
/// `is_sun`, each fragment is lit from `sun_world_position`.
pub fn triangle(
    v1: &Vertex,
    v2: &Vertex,
    v3: &Vertex,
    sun_world_position: &Vec3,
    is_sun: bool,
) -> (fragments: Vec<Fragment>)
    ensures
        fragments@ == triangle_fragments(*v1, *v2, *v3, sun_world_position@, is_sun),
        edge(v1.transformed_position@, v2.transformed_position@, v3.transformed_position@) == 0
            ==> fragments@.len() == 0,
        forall|i: int|
            0 <= i < fragments@.len() ==> {
                let bb = bounding_box(
                    v1.transformed_position@,
                    v2.transformed_position@,
                    v3.transformed_position@,
                );
                &&& bb.min_x <= (#[trigger] fragments@[i]).x <= bb.max_x
                &&& bb.min_y <= fragments@[i].y <= bb.max_y
                &&& covers(
                    v1.transformed_position@,
                    v2.transformed_position@,
                    v3.transformed_position@,
                    fragments@[i].x as int,
                    fragments@[i].y as int,
                )
            },
{
    let mut fragments: Vec<Fragment> = Vec::new();
    let a = v1.transformed_position;
    let b = v2.transformed_position;
    let c = v3.transformed_position;
    let (min_x, min_y, max_x, max_y) = calculate_bounding_box(&a, &b, &c);
    let triangle_area = edge_function(&a, &b, &c);
    let ghost bb = bounding_box(a@, b@, c@);
    let ghost pixels = box_pixels(bb);
    let ghost pred = cover_test(a@, b@, c@);
    let ghost shader = fragment_map(*v1, *v2, *v3, sun_world_position@, is_sun);
    let ghost width = bb.max_x - bb.min_x + 1;
    let ghost mut k: int = 0;
    if triangle_area == 0 {
        proof {
            lemma_no_area_no_fragments(*v1, *v2, *v3, sun_world_position@, is_sun);
        }
        return fragments;
    }
    proof {
        assert(pixels.take(0) =~= Seq::<(int, int)>::empty());
        reveal(Seq::filter);
        assert(pixels.take(0).filter(pred).map_values(shader) =~= fragments@);
    }
    let mut y: i32 = min_y;
    while y <= max_y
        invariant
            a == v1.transformed_position,
            b == v2.transformed_position,
            c == v3.transformed_position,
            bb == bounding_box(a@, b@, c@),
            pixels == box_pixels(bb),
            pred == cover_test(a@, b@, c@),
            shader == fragment_map(*v1, *v2, *v3, sun_world_position@, is_sun),
            width == bb.max_x - bb.min_x + 1,
            min_x == bb.min_x,
            min_y == bb.min_y,
            max_x == bb.max_x,
            max_y == bb.max_y,
            -32768 <= min_x <= max_x <= 32768,
            -32768 <= min_y <= max_y <= 32768,
            triangle_area == edge(a@, b@, c@),
            -0x2_0000_0000_0000_0000 <= triangle_area <= 0x2_0000_0000_0000_0000,
            min_y <= y <= max_y + 1,
            k == (y - min_y) * width,
            0 <= k <= pixels.len(),
            fragments@ == pixels.take(k).filter(pred).map_values(shader),
            forall|i: int|
                0 <= i < fragments@.len() ==> {
                    &&& bb.min_x <= (#[trigger] fragments@[i]).x <= bb.max_x
                    &&& bb.min_y <= fragments@[i].y <= bb.max_y
                    &&& covers(a@, b@, c@, fragments@[i].x as int, fragments@[i].y as int)
                },
        decreases max_y + 1 - y,
    {
        let mut x: i32 = min_x;
        while x <= max_x
            invariant
                a == v1.transformed_position,
                b == v2.transformed_position,
                c == v3.transformed_position,
                bb == bounding_box(a@, b@, c@),
                pixels == box_pixels(bb),
                pred == cover_test(a@, b@, c@),
                shader == fragment_map(*v1, *v2, *v3, sun_world_position@, is_sun),
                width == bb.max_x - bb.min_x + 1,
                min_x == bb.min_x,
                min_y == bb.min_y,
                max_x == bb.max_x,
                max_y == bb.max_y,
                -32768 <= min_x <= max_x <= 32768,
                -32768 <= min_y <= max_y <= 32768,
                triangle_area == edge(a@, b@, c@),
                -0x2_0000_0000_0000_0000 <= triangle_area <= 0x2_0000_0000_0000_0000,
                min_y <= y <= max_y,
                min_x <= x <= max_x + 1,
                k == (y - min_y) * width + (x - min_x),
                0 <= k <= pixels.len(),
                fragments@ == pixels.take(k).filter(pred).map_values(shader),
                forall|i: int|
                    0 <= i < fragments@.len() ==> {
                        &&& bb.min_x <= (#[trigger] fragments@[i]).x <= bb.max_x
                        &&& bb.min_y <= fragments@[i].y <= bb.max_y
                        &&& covers(a@, b@, c@, fragments@[i].x as int, fragments@[i].y as int)
                    },
            decreases max_x + 1 - x,
        {
            let w = barycentric_coordinates(x, y, &a, &b, &c, triangle_area);
            proof {
                lemma_box_pixel_index(bb, x - min_x, y - min_y);
                lemma_filter_map_step(pixels, k, pred, shader);
                assert(pixels[k] == (x as int, y as int));
                assert(pred(pixels[k]) == weights_inside(w@));
            }
            if w.inside() {
                let fragment = shade_pixel(v1, v2, v3, sun_world_position, is_sun, &w, x, y);
                assert(fragment == shader(pixels[k]));
                fragments.push(fragment);
            }
            proof {
                k = k + 1;
            }
            x = x + 1;
        }
        proof {
            assert(k == (y + 1 - min_y) * width) by (nonlinear_arith)
                requires
                    k == (y - min_y) * width + (max_x + 1 - min_x),
                    width == max_x - min_x + 1,
            ;
        }
        y = y + 1;
    }
    proof {
        assert(k == pixels.len()) by (nonlinear_arith)
            requires
                k == (max_y + 1 - min_y) * width,
                pixels.len() == (width * (max_y - min_y + 1)) as nat,
                width >= 1,
                max_y - min_y + 1 >= 1,
        ;
        assert(pixels.take(k) =~= pixels);
    }
    fragments
}

} // verus!
