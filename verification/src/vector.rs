//! Fixed-point vectors of two, three and four components, and 4×4 matrices.
//!
//! The model of a vector is the tuple of its raw component values; the
//! spec functions of this module are plain integer arithmetic on them.
use vstd::prelude::*;
use crate::trig::{fine_scaled, scale_fine, nearest};
use crate::fixed::{
    Fixed, Fine, ONE, saturate, trunc_div, product, ceil_sqrt, floor_sqrt, is_floor_sqrt, isqrt,
    isqrt_ceil, saturate_i128, div_toward_zero, lemma_mul_bounds, lemma_trunc_div_bounds,
    lemma_square_monotonic, lemma_floor_sqrt_of_zero,
};

verus! {

/// Raw components of a three-vector.
pub struct V3 {
    pub x: int,
    pub y: int,
    pub z: int,
}

/// Raw components of a four-vector.
pub struct V4 {
    pub x: int,
    pub y: int,
    pub z: int,
    pub w: int,
}

/// Rows of a 4×4 matrix.
pub struct M4 {
    pub r0: V4,
    pub r1: V4,
    pub r2: V4,
    pub r3: V4,
}

/// Componentwise saturated sum.
pub open spec fn v3_add(a: V3, b: V3) -> V3 {
    V3 { x: saturate(a.x + b.x), y: saturate(a.y + b.y), z: saturate(a.z + b.z) }
}

/// Componentwise saturated difference.
pub open spec fn v3_sub(a: V3, b: V3) -> V3 {
    V3 { x: saturate(a.x - b.x), y: saturate(a.y - b.y), z: saturate(a.z - b.z) }
}

/// Each component times the raw factor `k`.
pub open spec fn v3_scale(a: V3, k: int) -> V3 {
    V3 { x: product(a.x, k), y: product(a.y, k), z: product(a.z, k) }
}

/// Each component times the factor `k` in fine units of 2^-32, rounded
/// to the nearest raw value.
pub open spec fn v3_scale_fine(a: V3, k: int) -> V3 {
    V3 { x: fine_scaled(a.x, k), y: fine_scaled(a.y, k), z: fine_scaled(a.z, k) }
}

/// The exact sum of the three componentwise products, in squared raw units.
pub open spec fn dot3_wide(a: V3, b: V3) -> int {
    a.x * b.x + a.y * b.y + a.z * b.z
}

/// Raw value of the dot product: the exact sum of products, scaled back
/// once, rounded toward zero and saturated.
pub open spec fn dot3(a: V3, b: V3) -> int {
    saturate(trunc_div(dot3_wide(a, b), ONE as int))
}

/// Raw value of `p * q - r * s`, computed exactly and scaled back once.
pub open spec fn cross_term(p: int, q: int, r: int, s: int) -> int {
    saturate(trunc_div(p * q - r * s, ONE as int))
}

/// The cross product.
pub open spec fn v3_cross(a: V3, b: V3) -> V3 {
    V3 {
        x: cross_term(a.y, b.z, a.z, b.y),
        y: cross_term(a.z, b.x, a.x, b.z),
        z: cross_term(a.x, b.y, a.y, b.x),
    }
}

/// The squared length in squared raw units.
pub open spec fn norm_sq(a: V3) -> int {
    dot3_wide(a, a)
}

/// Raw value of the length, rounded down and saturated.
pub open spec fn v3_length(a: V3) -> int {
    saturate(floor_sqrt(norm_sq(a)))
}

/// The length of a vector in units of 2^-32, rounded up.
pub open spec fn fine_length(a: V3) -> int {
    ceil_sqrt(norm_sq(a) * 0x1_0000_0000)
}

/// The vector divided by its length, which is taken in units of 2^-32
/// and rounded up, each component rounded toward zero; the zero vector
/// stays zero.
pub open spec fn v3_normalized(a: V3) -> V3 {
    let len = fine_length(a);
    if len == 0 {
        V3 { x: 0, y: 0, z: 0 }
    } else {
        V3 {
            x: trunc_div(a.x * 0x1_0000_0000, len),
            y: trunc_div(a.y * 0x1_0000_0000, len),
            z: trunc_div(a.z * 0x1_0000_0000, len),
        }
    }
}

/// Whether the vector is at least five raw units short of one in length,
/// or longer.
pub open spec fn nearly_unit(a: V3) -> bool {
    norm_sq(a) >= (ONE - 5) * (ONE - 5)
}

/// Whether the vector is no longer than one.
pub open spec fn at_most_unit(a: V3) -> bool {
    norm_sq(a) <= ONE * ONE
}

/// Raw value of the dot product of two four-vectors.
pub open spec fn dot4(a: V4, b: V4) -> int {
    saturate(trunc_div(a.x * b.x + a.y * b.y + a.z * b.z + a.w * b.w, ONE as int))
}

/// The matrix applied to a column vector.
pub open spec fn m4_apply(m: M4, v: V4) -> V4 {
    V4 { x: dot4(m.r0, v), y: dot4(m.r1, v), z: dot4(m.r2, v), w: dot4(m.r3, v) }
}

/// The first column of a matrix.
pub open spec fn m4_col0(m: M4) -> V4 {
    V4 { x: m.r0.x, y: m.r1.x, z: m.r2.x, w: m.r3.x }
}

/// The second column of a matrix.
pub open spec fn m4_col1(m: M4) -> V4 {
    V4 { x: m.r0.y, y: m.r1.y, z: m.r2.y, w: m.r3.y }
}

/// The third column of a matrix.
pub open spec fn m4_col2(m: M4) -> V4 {
    V4 { x: m.r0.z, y: m.r1.z, z: m.r2.z, w: m.r3.z }
}

/// The fourth column of a matrix.
pub open spec fn m4_col3(m: M4) -> V4 {
    V4 { x: m.r0.w, y: m.r1.w, z: m.r2.w, w: m.r3.w }
}

/// A row vector times a matrix.
pub open spec fn row_times(r: V4, m: M4) -> V4 {
    V4 {
        x: dot4(r, m4_col0(m)),
        y: dot4(r, m4_col1(m)),
        z: dot4(r, m4_col2(m)),
        w: dot4(r, m4_col3(m)),
    }
}

/// The matrix product `a * b`.
pub open spec fn m4_mul(a: M4, b: M4) -> M4 {
    M4 {
        r0: row_times(a.r0, b),
        r1: row_times(a.r1, b),
        r2: row_times(a.r2, b),
        r3: row_times(a.r3, b),
    }
}

/// The zero vector has no length.
pub proof fn lemma_zero_has_no_length()
    ensures
        norm_sq(V3 { x: 0, y: 0, z: 0 }) == 0,
        v3_length(V3 { x: 0, y: 0, z: 0 }) == 0,
{
    let z: int = 0;
    assert(z * z + z * z + z * z == 0) by (nonlinear_arith)
        requires
            z == 0,
    ;
    lemma_floor_sqrt_of_zero();
}

/// A squared length is never negative.
pub proof fn lemma_norm_sq_nonnegative(a: V3)
    ensures
        norm_sq(a) >= 0,
{
    let (x, y, z) = (a.x, a.y, a.z);
    assert(x * x + y * y + z * z >= 0) by (nonlinear_arith);
}

/// No component of a vector is longer than the vector.
pub proof fn lemma_component_within_length(a: V3, len: int)
    requires
        len >= 0,
        len * len >= norm_sq(a),
    ensures
        -len <= a.x <= len,
        -len <= a.y <= len,
        -len <= a.z <= len,
{
    let (x, y, z) = (a.x, a.y, a.z);
    assert(x * x <= x * x + y * y + z * z && y * y <= x * x + y * y + z * z && z * z <= x * x
        + y * y + z * z) by (nonlinear_arith);
    lemma_abs_below_root(x, len);
    lemma_abs_below_root(y, len);
    lemma_abs_below_root(z, len);
}

/// A number whose square is at most `len * len` lies within `len` of zero.
pub proof fn lemma_abs_below_root(x: int, len: int)
    by (nonlinear_arith)
    requires
        len >= 0,
        x * x <= len * len,
    ensures
        -len <= x <= len,
{
    if x > len {
        assert(x * x > len * len);
    }
    if x < -len {
        assert(x * x > len * len);
    }
}

/// A quotient rounded toward zero lies between two whole numbers when the
/// dividend lies between their multiples of the divisor.
pub proof fn lemma_trunc_div_between(n: int, d: int, lo: int, hi: int)
    requires
        d > 0,
        lo * d <= n <= hi * d,
    ensures
        lo <= trunc_div(n, d) <= hi,
{
    lemma_trunc_div_bounds(n, d);
    let q = trunc_div(n, d);
    if n >= 0 {
        assert(lo <= q <= hi) by (nonlinear_arith)
            requires
                q * d <= n < (q + 1) * d,
                lo * d <= n <= hi * d,
                d > 0,
        ;
    } else {
        assert(lo <= q <= hi) by (nonlinear_arith)
            requires
                (q - 1) * d < n <= q * d,
                lo * d <= n <= hi * d,
                d > 0,
        ;
    }
}

/// A quotient rounded toward zero is no larger in magnitude than the
/// bound `k` when the dividend is at most `k` times the divisor.
pub proof fn lemma_trunc_div_within(n: int, d: int, k: int)
    requires
        d > 0,
        k >= 0,
        -(k * d) <= n <= k * d,
    ensures
        -k <= trunc_div(n, d) <= k,
{
    assert((-k) * d == -(k * d)) by (nonlinear_arith);
    lemma_trunc_div_between(n, d, -k, k);
}

/// Rounding a quotient toward zero does not lengthen it: the square of the
/// rounded quotient times the square of the divisor is at most the square
/// of the dividend.
pub proof fn lemma_trunc_div_square(n: int, d: int)
    requires
        d > 0,
    ensures
        trunc_div(n, d) * trunc_div(n, d) * (d * d) <= n * n,
{
    lemma_trunc_div_bounds(n, d);
    let q = trunc_div(n, d);
    let p = q * d;
    assert(p * p <= n * n) by (nonlinear_arith)
        requires
            (0 <= p <= n) || (n <= p <= 0),
    ;
    assert(q * q * (d * d) == p * p) by (nonlinear_arith)
        requires
            p == q * d,
    ;
}

/// The squared length of a vector scaled by `u` is the squared length
/// times `u` twice.
proof fn lemma_scaled_norm(a: V3, u: int)
    ensures
        (a.x * u) * (a.x * u) + (a.y * u) * (a.y * u) + (a.z * u) * (a.z * u) == (norm_sq(a) * u)
            * u,
{
    let (x, y, z) = (a.x, a.y, a.z);
    let uu = u * u;
    lemma_square_of_product(x, u);
    lemma_square_of_product(y, u);
    lemma_square_of_product(z, u);
    let (xx, yy, zz) = (x * x, y * y, z * z);
    assert((xx + yy + zz) * uu == xx * uu + yy * uu + zz * uu) by (nonlinear_arith);
    let s = xx + yy + zz;
    assert((s * u) * u == s * uu) by (nonlinear_arith)
        requires
            uu == u * u,
    ;
}

/// A normalized vector is no longer than one.
pub proof fn lemma_normalized_at_most_unit(a: V3)
    ensures
        at_most_unit(v3_normalized(a)),
{
    lemma_norm_sq_nonnegative(a);
    let s = norm_sq(a);
    let u: int = 0x1_0000_0000;
    let len = fine_length(a);
    lemma_ceil_sqrt(s * u);
    let n = v3_normalized(a);
    let (nx, ny, nz) = (n.x, n.y, n.z);
    if len > 0 {
        lemma_trunc_div_square(a.x * u, len);
        lemma_trunc_div_square(a.y * u, len);
        lemma_trunc_div_square(a.z * u, len);
        let l2 = len * len;
        let (ax, ay, az) = (a.x, a.y, a.z);
        lemma_scaled_norm(a, u);
        assert((nx * nx + ny * ny + nz * nz) * l2 == nx * nx * l2 + ny * ny * l2 + nz * nz * l2)
            by (nonlinear_arith);
        let t = nx * nx + ny * ny + nz * nz;
        lemma_norm_sq_nonnegative(n);
        assert(t * l2 <= s * u * u);
        assert(t <= u) by (nonlinear_arith)
            requires
                t * l2 <= s * u * u,
                s * u <= l2,
                l2 > 0,
                t >= 0,
                u > 0,
        ;
    } else {
        assert(nx * nx + ny * ny + nz * nz == 0) by (nonlinear_arith)
            requires
                nx == 0 && ny == 0 && nz == 0,
        ;
    }
}

/// The unit vector along the third axis is its own normalization.
pub proof fn lemma_normalized_axis()
    ensures
        v3_normalized(V3 { x: 0, y: 0, z: ONE as int }) == (V3 { x: 0, y: 0, z: ONE as int }),
{
    let a = V3 { x: 0, y: 0, z: ONE as int };
    let u: int = 0x1_0000_0000;
    let zero: int = 0;
    let one: int = 65536;
    assert(zero * zero + zero * zero + one * one == u) by (nonlinear_arith)
        requires
            zero == 0,
            one == 65536,
            u == 0x1_0000_0000,
    ;
    assert(u * u == u * u && (u + 1) * (u + 1) > u * u) by (nonlinear_arith)
        requires
            u == 0x1_0000_0000,
    ;
    assert(is_floor_sqrt(norm_sq(a) * 0x1_0000_0000, u));
    crate::fixed::lemma_floor_sqrt_unique(norm_sq(a) * 0x1_0000_0000, u);
    assert(fine_length(a) == u);
    assert(trunc_div(one * 0x1_0000_0000, u) == one) by (nonlinear_arith)
        requires
            one == 65536,
            u == 0x1_0000_0000,
    ;
    assert(trunc_div(zero * 0x1_0000_0000, u) == 0) by (nonlinear_arith)
        requires
            zero == 0,
            u == 0x1_0000_0000,
    ;
}

/// A vector that rises at least a thousand times as far as it leans to
/// either side is, when normalized, within three raw units of the unit
/// vector along the third axis in its third coordinate.
pub proof fn lemma_normalized_steep(v: V3)
    requires
        v.z > 0,
        -v.z <= 1000 * v.x <= v.z,
        -v.z <= 1000 * v.y <= v.z,
    ensures
        ONE - 3 <= v3_normalized(v).z <= ONE,
{
    let (x, y, h) = (v.x, v.y, v.z);
    let u: int = 0x1_0000_0000;
    let s = norm_sq(v);
    let len = fine_length(v);
    let xx = x * x;
    let yy = y * y;
    let hh = h * h;
    assert(s == xx + yy + hh);
    assert(hh >= 1 && xx >= 0 && yy >= 0 && 1000000 * xx <= hh && 1000000 * yy <= hh)
        by (nonlinear_arith)
        requires
            h > 0,
            -h <= 1000 * x <= h,
            -h <= 1000 * y <= h,
            xx == x * x,
            yy == y * y,
            hh == h * h,
    ;
    let n = s * u;
    assert(n == xx * u + yy * u + hh * u) by (nonlinear_arith)
        requires
            n == s * u,
            s == xx + yy + hh,
    ;
    let bound = h * 65537;
    assert(bound * bound == hh * u + hh * 131073) by (nonlinear_arith)
        requires
            bound == h * 65537,
            hh == h * h,
            u == 0x1_0000_0000,
    ;
    assert(xx * u <= 4295 * hh && yy * u <= 4295 * hh) by (nonlinear_arith)
        requires
            1000000 * xx <= hh,
            1000000 * yy <= hh,
            u == 0x1_0000_0000,
            hh >= 0,
    ;
    assert(0 < n <= bound * bound) by (nonlinear_arith)
        requires
            n == xx * u + yy * u + hh * u,
            bound * bound == hh * u + hh * 131073,
            xx * u <= 4295 * hh,
            yy * u <= 4295 * hh,
            xx >= 0,
            yy >= 0,
            hh >= 1,
            u == 0x1_0000_0000,
    ;
    lemma_ceil_sqrt(n);
    lemma_ceil_sqrt_tight(n);
    assert(len >= 1);
    if len - 1 >= bound {
        lemma_square_monotonic(bound, len - 1);
    }
    assert(len <= bound);
    lemma_trunc_div_bounds(h * u, len);
    let q = trunc_div(h * u, len);
    assert(h * u >= 0) by (nonlinear_arith)
        requires
            h > 0,
            u == 0x1_0000_0000,
    ;
    assert(q >= 65533) by (nonlinear_arith)
        requires
            h * u < (q + 1) * len,
            0 < len <= h * 65537,
            h > 0,
            u == 0x1_0000_0000,
    ;
    lemma_norm_sq_nonnegative(v);
    lemma_normalized_at_most_unit(v);
    lemma_component_within_length(v3_normalized(v), 65536);
}

/// The strict upper side of rounding toward zero, squared: the square of
/// the dividend is below the square of the divisor times the square of
/// the quotient's magnitude plus one.
proof fn lemma_trunc_div_square_above(n: int, d: int, m: int)
    requires
        d > 0,
        m >= 0,
        m == trunc_div(n, d) || m == -trunc_div(n, d),
    ensures
        n * n < (d * d) * ((m + 1) * (m + 1)),
{
    lemma_trunc_div_bounds(n, d);
    let q = trunc_div(n, d);
    let top = (m + 1) * d;
    assert(-top < n < top) by (nonlinear_arith)
        requires
            top == (m + 1) * d,
            d > 0,
            m >= 0,
            m == q || m == -q,
            n >= 0 ==> 0 <= q * d <= n < (q + 1) * d,
            n <= 0 ==> (q - 1) * d < n <= q * d <= 0,
    ;
    assert(n * n < top * top) by (nonlinear_arith)
        requires
            -top < n < top,
    ;
    assert(top * top == (d * d) * ((m + 1) * (m + 1))) by (nonlinear_arith)
        requires
            top == (m + 1) * d,
    ;
}

/// A normalized vector other than zero is at most five raw units short
/// of one in length.
pub proof fn lemma_normalized_nearly_unit(a: V3)
    requires
        norm_sq(a) != 0,
    ensures
        nearly_unit(v3_normalized(a)),
{
    lemma_norm_sq_nonnegative(a);
    lemma_normalized_at_most_unit(a);
    let s = norm_sq(a);
    let u: int = 0x1_0000_0000;
    let len = fine_length(a);
    lemma_ceil_sqrt(s * u);
    lemma_ceil_sqrt_tight(s * u);
    let n = v3_normalized(a);
    let (ax, ay, az) = (a.x, a.y, a.z);
    let mx = if n.x < 0 {
        -n.x
    } else {
        n.x
    };
    let my = if n.y < 0 {
        -n.y
    } else {
        n.y
    };
    let mz = if n.z < 0 {
        -n.z
    } else {
        n.z
    };
    let t = n.x * n.x + n.y * n.y + n.z * n.z;
    let l2 = len * len;
    assert(len >= 65536) by {
        if len < 65536 {
            lemma_square_monotonic(len, 65535);
        }
    }
    lemma_trunc_div_square_above(ax * u, len, mx);
    lemma_trunc_div_square_above(ay * u, len, my);
    lemma_trunc_div_square_above(az * u, len, mz);
    lemma_component_within_length(n, 65536);
    let grown = (mx + 1) * (mx + 1) + (my + 1) * (my + 1) + (mz + 1) * (mz + 1);
    assert(grown == t + 2 * (mx + my + mz) + 3) by (nonlinear_arith)
        requires
            grown == (mx + 1) * (mx + 1) + (my + 1) * (my + 1) + (mz + 1) * (mz + 1),
            t == n.x * n.x + n.y * n.y + n.z * n.z,
            mx == n.x || mx == -n.x,
            my == n.y || my == -n.y,
            mz == n.z || mz == -n.z,
    ;
    lemma_scaled_norm(a, u);
    assert(l2 * grown == l2 * ((mx + 1) * (mx + 1)) + l2 * ((my + 1) * (my + 1)) + l2 * ((mz
        + 1) * (mz + 1))) by (nonlinear_arith)
        requires
            grown == (mx + 1) * (mx + 1) + (my + 1) * (my + 1) + (mz + 1) * (mz + 1),
    ;
    assert((s * u) * u < l2 * grown);
    assert(l2 * (u - 131072) <= ((len - 1) * (len - 1)) * u) by (nonlinear_arith)
        requires
            l2 == len * len,
            len >= 65536,
            u == 0x1_0000_0000,
    ;
    assert(((len - 1) * (len - 1)) * u < (s * u) * u) by (nonlinear_arith)
        requires
            (len - 1) * (len - 1) < s * u,
            u > 0,
    ;
    assert(u - 131072 < grown) by (nonlinear_arith)
        requires
            l2 * (u - 131072) < l2 * grown,
            l2 > 0,
    ;
}

/// The square of one less than a positive rounded-up square root stays
/// below `n`.
pub proof fn lemma_ceil_sqrt_tight(n: int)
    requires
        n > 0,
    ensures
        (ceil_sqrt(n) - 1) * (ceil_sqrt(n) - 1) < n,
{
    lemma_floor_sqrt_exists(n);
    let r = floor_sqrt(n);
    if r * r == n {
        assert((r - 1) * (r - 1) < r * r) by (nonlinear_arith)
            requires
                r >= 1 || r * r > 0,
                r >= 0,
        ;
    } else {
        assert((r + 1 - 1) * (r + 1 - 1) == r * r);
    }
}

/// The rounded-up square root is non-negative and its square reaches `n`.
pub proof fn lemma_ceil_sqrt(n: int)
    requires
        n >= 0,
    ensures
        ceil_sqrt(n) >= 0,
        ceil_sqrt(n) * ceil_sqrt(n) >= n,
        ceil_sqrt(n) == 0 <==> n == 0,
{
    lemma_floor_sqrt_exists(n);
    let r = floor_sqrt(n);
    assert(is_floor_sqrt(n, r));
    if r * r != n {
        assert((r + 1) * (r + 1) >= n);
    }
    assert((r == 0 ==> r * r == 0) && (r != 0 ==> r * r > 0)) by (nonlinear_arith)
        requires
            r >= 0,
    ;
}

/// Every non-negative integer has a floor square root.
pub proof fn lemma_floor_sqrt_exists(n: int)
    requires
        n >= 0,
    ensures
        is_floor_sqrt(n, floor_sqrt(n)),
    decreases n,
{
    if n == 0 {
        assert(is_floor_sqrt(0, 0));
    } else {
        lemma_floor_sqrt_exists(n - 1);
        let r = floor_sqrt(n - 1);
        if (r + 1) * (r + 1) <= n {
            assert(n < (r + 2) * (r + 2)) by (nonlinear_arith)
                requires
                    n - 1 < (r + 1) * (r + 1),
                    r >= 0,
            ;
            assert(is_floor_sqrt(n, r + 1));
        } else {
            assert(is_floor_sqrt(n, r));
        }
    }
}

/// The square of a product is the product of the squares.
proof fn lemma_square_of_product(a: int, b: int)
    by (nonlinear_arith)
    ensures
        (a * b) * (a * b) == (a * a) * (b * b),
{
}

/// Four factors may be paired either way.
proof fn lemma_swap_pairs(a: int, b: int, c: int, d: int)
    by (nonlinear_arith)
    ensures
        (a * b) * (c * d) == (a * d) * (c * b),
{
}

/// The product of two sums of three terms, written out.
proof fn lemma_expand_three_by_three(a1: int, a2: int, a3: int, b1: int, b2: int, b3: int)
    by (nonlinear_arith)
    ensures
        (a1 + a2 + a3) * (b1 + b2 + b3) == a1 * b1 + a1 * b2 + a1 * b3 + a2 * b1 + a2 * b2 + a2
            * b3 + a3 * b1 + a3 * b2 + a3 * b3,
{
}

/// The square of a sum of three terms, written out.
proof fn lemma_square_of_sum(x: int, y: int, z: int)
    by (nonlinear_arith)
    ensures
        (x + y + z) * (x + y + z) == x * x + y * y + z * z + 2 * (x * y) + 2 * (x * z) + 2 * (y
            * z),
{
}

/// The square of a difference, written out; it is never negative.
proof fn lemma_square_of_difference(x: int, y: int)
    by (nonlinear_arith)
    ensures
        (x - y) * (x - y) == x * x - 2 * (x * y) + y * y,
        (x - y) * (x - y) >= 0,
{
}

/// Lagrange's identity in a weakened form: the product of two squared
/// lengths is at least the square of the exact dot product.
pub proof fn lemma_cauchy_schwarz(a: V3, b: V3)
    ensures
        dot3_wide(a, b) * dot3_wide(a, b) <= norm_sq(a) * norm_sq(b),
{
    let (a1, a2, a3) = (a.x, a.y, a.z);
    let (b1, b2, b3) = (b.x, b.y, b.z);
    let m11 = a1 * b1;
    let m12 = a1 * b2;
    let m13 = a1 * b3;
    let m21 = a2 * b1;
    let m22 = a2 * b2;
    let m23 = a2 * b3;
    let m31 = a3 * b1;
    let m32 = a3 * b2;
    let m33 = a3 * b3;
    lemma_square_of_product(a1, b1);
    lemma_square_of_product(a1, b2);
    lemma_square_of_product(a1, b3);
    lemma_square_of_product(a2, b1);
    lemma_square_of_product(a2, b2);
    lemma_square_of_product(a2, b3);
    lemma_square_of_product(a3, b1);
    lemma_square_of_product(a3, b2);
    lemma_square_of_product(a3, b3);
    lemma_expand_three_by_three(a1 * a1, a2 * a2, a3 * a3, b1 * b1, b2 * b2, b3 * b3);
    lemma_square_of_sum(m11, m22, m33);
    lemma_swap_pairs(a1, b1, a2, b2);
    lemma_swap_pairs(a1, b1, a3, b3);
    lemma_swap_pairs(a2, b2, a3, b3);
    lemma_square_of_difference(m12, m21);
    lemma_square_of_difference(m13, m31);
    lemma_square_of_difference(m23, m32);
    assert(norm_sq(a) * norm_sq(b) - dot3_wide(a, b) * dot3_wide(a, b) == (m12 - m21) * (m12
        - m21) + (m13 - m31) * (m13 - m31) + (m23 - m32) * (m23 - m32));
}

/// Cauchy–Schwarz for vectors no longer than one: their exact dot product
/// lies between minus one and one.
pub proof fn lemma_unit_dot_bounds(a: V3, b: V3)
    requires
        at_most_unit(a),
        at_most_unit(b),
    ensures
        -(ONE * ONE) <= dot3_wide(a, b) <= ONE * ONE,
        -ONE <= dot3(a, b) <= ONE,
{
    let d = dot3_wide(a, b);
    let na = norm_sq(a);
    let nb = norm_sq(b);
    lemma_cauchy_schwarz(a, b);
    let (a1, a2, a3) = (a.x, a.y, a.z);
    let (b1, b2, b3) = (b.x, b.y, b.z);
    assert(na >= 0 && nb >= 0) by (nonlinear_arith)
        requires
            na == a1 * a1 + a2 * a2 + a3 * a3,
            nb == b1 * b1 + b2 * b2 + b3 * b3,
    ;
    let u: int = 4294967296;
    assert(na * nb <= u * u) by (nonlinear_arith)
        requires
            0 <= na <= u,
            0 <= nb <= u,
    ;
    assert(d * d <= u * u);
    lemma_abs_below_root(d, u);
    lemma_trunc_div_within(d, 65536, 65536);
}

/// A pair of fixed-point numbers.
#[derive(Clone, Copy, Debug, PartialEq, Eq, Structural)]
pub struct Vec2 {
    pub x: Fixed,
    pub y: Fixed,
}

/// A fixed-point vector in space.
#[derive(Clone, Copy, Debug, PartialEq, Eq, Structural)]
pub struct Vec3 {
    pub x: Fixed,
    pub y: Fixed,
    pub z: Fixed,
}

/// A fixed-point vector in homogeneous coordinates.
#[derive(Clone, Copy, Debug, PartialEq, Eq, Structural)]
pub struct Vec4 {
    pub x: Fixed,
    pub y: Fixed,
    pub z: Fixed,
    pub w: Fixed,
}

/// A 4×4 fixed-point matrix, stored by rows.
#[derive(Clone, Copy, Debug, PartialEq, Eq, Structural)]
pub struct Mat4 {
    pub r0: Vec4,
    pub r1: Vec4,
    pub r2: Vec4,
    pub r3: Vec4,
}

impl View for Vec3 {
    type V = V3;

    open spec fn view(&self) -> V3 {
        V3 { x: self.x@, y: self.y@, z: self.z@ }
    }
}

impl View for Vec4 {
    type V = V4;

    open spec fn view(&self) -> V4 {
        V4 { x: self.x@, y: self.y@, z: self.z@, w: self.w@ }
    }
}

impl View for Mat4 {
    type V = M4;

    open spec fn view(&self) -> M4 {
        M4 { r0: self.r0@, r1: self.r1@, r2: self.r2@, r3: self.r3@ }
    }
}

/// The exact product of two raw values.
fn wide_product(a: Fixed, b: Fixed) -> (r: i128)
    ensures
        r == a@ * b@,
        -4611686018427387904 <= r <= 4611686018427387904,
{
    proof {
        lemma_mul_bounds(a@, b@, 2147483648, 2147483648);
    }
    let p: i64 = a.raw as i64 * b.raw as i64;
    p as i128
}

/// A wide sum of products scaled back once and saturated.
fn scale_back(wide: i128) -> (r: Fixed)
    requires
        wide > i128::MIN,
    ensures
        r@ == saturate(trunc_div(wide as int, ONE as int)),
{
    Fixed { raw: saturate_i128(div_toward_zero(wide, 65536)) }
}

impl Vec2 {
    /// The pair `(x, y)`.
    pub fn new(x: Fixed, y: Fixed) -> (v: Vec2)
        ensures
            v.x == x,
            v.y == y,
    {
        Vec2 { x, y }
    }
}

impl Vec3 {
    /// The vector with the given raw components, which must be in range.
    pub open spec fn of(v: V3) -> Vec3 {
        Vec3 { x: Fixed::of(v.x), y: Fixed::of(v.y), z: Fixed::of(v.z) }
    }

    /// The vector `(x, y, z)`.
    pub fn new(x: Fixed, y: Fixed, z: Fixed) -> (v: Vec3)
        ensures
            v.x == x,
            v.y == y,
            v.z == z,
    {
        Vec3 { x, y, z }
    }

    /// The vector of three whole numbers.
    pub fn from_ints(x: i32, y: i32, z: i32) -> (v: Vec3)
        ensures
            v@ == (V3 { x: saturate(x * ONE), y: saturate(y * ONE), z: saturate(z * ONE) }),
    {
        Vec3 { x: Fixed::from_int(x), y: Fixed::from_int(y), z: Fixed::from_int(z) }
    }

    /// The zero vector.
    pub fn zero() -> (v: Vec3)
        ensures
            v@ == (V3 { x: 0, y: 0, z: 0 }),
    {
        Vec3 { x: Fixed::zero(), y: Fixed::zero(), z: Fixed::zero() }
    }

    /// The componentwise saturated sum.
    pub fn add(&self, other: &Vec3) -> (v: Vec3)
        ensures
            v@ == v3_add(self@, other@),
    {
        Vec3 { x: self.x.add(other.x), y: self.y.add(other.y), z: self.z.add(other.z) }
    }

    /// The componentwise saturated difference.
    pub fn sub(&self, other: &Vec3) -> (v: Vec3)
        ensures
            v@ == v3_sub(self@, other@),
    {
        Vec3 { x: self.x.sub(other.x), y: self.y.sub(other.y), z: self.z.sub(other.z) }
    }

    /// Each component times `k`.
    pub fn scale(&self, k: Fixed) -> (v: Vec3)
        ensures
            v@ == v3_scale(self@, k@),
    {
        Vec3 { x: self.x.mul(k), y: self.y.mul(k), z: self.z.mul(k) }
    }

    /// Each component times the fine factor `k`.
    pub fn scale_fine(&self, k: Fine) -> (v: Vec3)
        ensures
            v@ == v3_scale_fine(self@, k@),
    {
        Vec3 {
            x: scale_fine(self.x, k.raw),
            y: scale_fine(self.y, k.raw),
            z: scale_fine(self.z, k.raw),
        }
    }

    /// The dot product.
    pub fn dot(&self, other: &Vec3) -> (d: Fixed)
        ensures
            d@ == dot3(self@, other@),
    {
        let wide: i128 = wide_product(self.x, other.x) + wide_product(self.y, other.y)
            + wide_product(self.z, other.z);
        scale_back(wide)
    }

    /// The cross product.
    pub fn cross(&self, other: &Vec3) -> (v: Vec3)
        ensures
            v@ == v3_cross(self@, other@),
    {
        let x = scale_back(wide_product(self.y, other.z) - wide_product(self.z, other.y));
        let y = scale_back(wide_product(self.z, other.x) - wide_product(self.x, other.z));
        let z = scale_back(wide_product(self.x, other.y) - wide_product(self.y, other.x));
        Vec3 { x, y, z }
    }

    /// The squared length in squared raw units.
    pub fn norm_squared(&self) -> (n: u64)
        ensures
            n == norm_sq(self@),
    {
        let xx: i128 = wide_product(self.x, self.x);
        let yy: i128 = wide_product(self.y, self.y);
        let zz: i128 = wide_product(self.z, self.z);
        proof {
            let (x, y, z) = (self.x@, self.y@, self.z@);
            assert(x * x >= 0 && y * y >= 0 && z * z >= 0) by (nonlinear_arith);
        }
        (xx + yy + zz) as u64
    }

    /// The length, rounded down and saturated.
    pub fn length(&self) -> (len: Fixed)
        ensures
            len@ == v3_length(self@),
    {
        let root: u64 = isqrt(self.norm_squared() as u128);
        Fixed { raw: saturate_i128(root as i128) }
    }

    /// The vector scaled to length one, or zero for the zero vector. The
    /// length is rounded up and each component toward zero, so that the
    /// result is never longer than one.
    pub fn normalize(&self) -> (v: Vec3)
        ensures
            v@ == v3_normalized(self@),
            at_most_unit(v@),
            norm_sq(self@) != 0 ==> nearly_unit(v@),
    {
        let n: u128 = self.norm_squared() as u128 * 0x1_0000_0000;
        let len: u128 = isqrt_ceil(n);
        proof {
            lemma_normalized_at_most_unit(self@);
            if norm_sq(self@) != 0 {
                lemma_normalized_nearly_unit(self@);
            }
        }
        if len == 0 {
            Vec3::zero()
        } else {
            proof {
                let (x, y, z) = (self.x@, self.y@, self.z@);
                let scaled = V3 { x: x * 65536, y: y * 65536, z: z * 65536 };
                assert(norm_sq(scaled) == norm_sq(self@) * 0x1_0000_0000) by (nonlinear_arith)
                    requires
                        norm_sq(scaled) == (x * 65536) * (x * 65536) + (y * 65536) * (y * 65536)
                            + (z * 65536) * (z * 65536),
                        norm_sq(self@) == x * x + y * y + z * z,
                ;
                lemma_component_within_length(scaled, len as int);
            }
            Vec3 {
                x: unit_component(self.x, len),
                y: unit_component(self.y, len),
                z: unit_component(self.z, len),
            }
        }
    }
}

/// One component of a vector divided by the vector's length, which is
/// given in units of 2^-32.
fn unit_component(c: Fixed, len: u128) -> (r: Fixed)
    requires
        0 < len <= 0x1_0000_0000_0000_0000,
        -len <= c@ * 65536 <= len,
    ensures
        r@ == trunc_div(c@ * 0x1_0000_0000, len as int),
        -ONE <= r@ <= ONE,
{
    let wide: i64 = c.raw as i64 * 0x1_0000_0000;
    proof {
        assert(-(65536 * len) <= wide <= 65536 * len);
        lemma_trunc_div_within(wide as int, len as int, 65536);
    }
    let q: i128 = div_toward_zero(wide as i128, len as i128);
    Fixed { raw: q as i32 }
}

impl Vec4 {
    /// The vector with the given raw components, which must be in range.
    pub open spec fn of(v: V4) -> Vec4 {
        Vec4 { x: Fixed::of(v.x), y: Fixed::of(v.y), z: Fixed::of(v.z), w: Fixed::of(v.w) }
    }

    /// The vector `(x, y, z, w)`.
    pub fn new(x: Fixed, y: Fixed, z: Fixed, w: Fixed) -> (v: Vec4)
        ensures
            v.x == x,
            v.y == y,
            v.z == z,
            v.w == w,
    {
        Vec4 { x, y, z, w }
    }

    /// The dot product.
    pub fn dot(&self, other: &Vec4) -> (d: Fixed)
        ensures
            d@ == dot4(self@, other@),
    {
        let wide: i128 = wide_product(self.x, other.x) + wide_product(self.y, other.y)
            + wide_product(self.z, other.z) + wide_product(self.w, other.w);
        scale_back(wide)
    }
}

impl Mat4 {
    /// The matrix with the given raw rows, which must be in range.
    pub open spec fn of(m: M4) -> Mat4 {
        Mat4 { r0: Vec4::of(m.r0), r1: Vec4::of(m.r1), r2: Vec4::of(m.r2), r3: Vec4::of(m.r3) }
    }

    /// The matrix of the four given rows.
    pub fn from_rows(r0: Vec4, r1: Vec4, r2: Vec4, r3: Vec4) -> (m: Mat4)
        ensures
            m.r0 == r0,
            m.r1 == r1,
            m.r2 == r2,
            m.r3 == r3,
    {
        Mat4 { r0, r1, r2, r3 }
    }

    /// The identity matrix.
    pub fn identity() -> (m: Mat4)
        ensures
            m@ == identity_matrix(),
    {
        let o = Fixed::one();
        let z = Fixed::zero();
        Mat4 {
            r0: Vec4 { x: o, y: z, z: z, w: z },
            r1: Vec4 { x: z, y: o, z: z, w: z },
            r2: Vec4 { x: z, y: z, z: o, w: z },
            r3: Vec4 { x: z, y: z, z: z, w: o },
        }
    }

    /// The matrix applied to a column vector.
    pub fn apply(&self, v: &Vec4) -> (r: Vec4)
        ensures
            r@ == m4_apply(self@, v@),
    {
        Vec4 { x: self.r0.dot(v), y: self.r1.dot(v), z: self.r2.dot(v), w: self.r3.dot(v) }
    }

    /// The matrix product `self * other`.
    pub fn mul(&self, other: &Mat4) -> (m: Mat4)
        ensures
            m@ == m4_mul(self@, other@),
    {
        let c0 = Vec4 { x: other.r0.x, y: other.r1.x, z: other.r2.x, w: other.r3.x };
        let c1 = Vec4 { x: other.r0.y, y: other.r1.y, z: other.r2.y, w: other.r3.y };
        let c2 = Vec4 { x: other.r0.z, y: other.r1.z, z: other.r2.z, w: other.r3.z };
        let c3 = Vec4 { x: other.r0.w, y: other.r1.w, z: other.r2.w, w: other.r3.w };
        Mat4 {
            r0: row_by_columns(&self.r0, &c0, &c1, &c2, &c3),
            r1: row_by_columns(&self.r1, &c0, &c1, &c2, &c3),
            r2: row_by_columns(&self.r2, &c0, &c1, &c2, &c3),
            r3: row_by_columns(&self.r3, &c0, &c1, &c2, &c3),
        }
    }
}

/// A row dotted with each of four columns.
fn row_by_columns(r: &Vec4, c0: &Vec4, c1: &Vec4, c2: &Vec4, c3: &Vec4) -> (v: Vec4)
    ensures
        v@ == (V4 { x: dot4(r@, c0@), y: dot4(r@, c1@), z: dot4(r@, c2@), w: dot4(r@, c3@) }),
{
    Vec4 { x: r.dot(c0), y: r.dot(c1), z: r.dot(c2), w: r.dot(c3) }
}

/// A matrix is the matrix of its raw rows.
pub proof fn lemma_matrix_of_view(m: Mat4)
    ensures
        Mat4::of(m@) == m,
{
}

/// The rows of the identity matrix.
pub open spec fn identity_matrix() -> M4 {
    M4 {
        r0: V4 { x: ONE as int, y: 0, z: 0, w: 0 },
        r1: V4 { x: 0, y: ONE as int, z: 0, w: 0 },
        r2: V4 { x: 0, y: 0, z: ONE as int, w: 0 },
        r3: V4 { x: 0, y: 0, z: 0, w: ONE as int },
    }
}

/// Whether each component of a vector in fine units lies within `bound`.
pub open spec fn fine_within(a: V3, bound: int) -> bool {
    &&& -bound <= a.x <= bound
    &&& -bound <= a.y <= bound
    &&& -bound <= a.z <= bound
}

/// The unit vector along the raw vector `a`, in fine units of 2^-32; the
/// zero vector stays zero. The length is rounded up and each component
/// toward zero, as in `v3_normalized`.
pub open spec fn v3_unit_fine(a: V3) -> V3 {
    let len = fine_length(a);
    if len == 0 {
        V3 { x: 0, y: 0, z: 0 }
    } else {
        V3 {
            x: trunc_div(a.x * 0x1_0000_0000_0000, len),
            y: trunc_div(a.y * 0x1_0000_0000_0000, len),
            z: trunc_div(a.z * 0x1_0000_0000_0000, len),
        }
    }
}

/// The unit vector along a vector that is itself in fine units.
pub open spec fn fine_unit(b: V3) -> V3 {
    let len = ceil_sqrt(norm_sq(b));
    if len == 0 {
        V3 { x: 0, y: 0, z: 0 }
    } else {
        V3 {
            x: trunc_div(b.x * 0x1_0000_0000, len),
            y: trunc_div(b.y * 0x1_0000_0000, len),
            z: trunc_div(b.z * 0x1_0000_0000, len),
        }
    }
}

/// The cross product of two vectors whose products are scaled back by
/// `unit`: by the raw one where the second vector is raw, by the fine one
/// where both are in fine units. The result is in fine units.
pub open spec fn cross_scaled(a: V3, b: V3, unit: int) -> V3 {
    V3 {
        x: trunc_div(a.y * b.z - a.z * b.y, unit),
        y: trunc_div(a.z * b.x - a.x * b.z, unit),
        z: trunc_div(a.x * b.y - a.y * b.x, unit),
    }
}

/// Raw value of the dot product of a vector in fine units with a raw
/// vector, rounded to the nearest and saturated.
pub open spec fn dot_fine(a: V3, b: V3) -> int {
    saturate(nearest(dot3_wide(a, b), 0x1_0000_0000))
}

/// A vector in fine units, each component rounded to the nearest raw
/// value.
pub open spec fn v3_rounded(a: V3) -> V3 {
    V3 {
        x: saturate(nearest(a.x, 65536)),
        y: saturate(nearest(a.y, 65536)),
        z: saturate(nearest(a.z, 65536)),
    }
}

/// A vector whose components count fine units of 2^-32. It carries the
/// directions of a camera at a precision that survives the long ways
/// they are multiplied by.
#[derive(Clone, Copy, Debug, PartialEq, Eq, Structural)]
pub struct FineVec3 {
    pub x: i64,
    pub y: i64,
    pub z: i64,
}

impl View for FineVec3 {
    type V = V3;

    open spec fn view(&self) -> V3 {
        V3 { x: self.x as int, y: self.y as int, z: self.z as int }
    }
}

/// One component of a unit vector in fine units.
fn fine_component(c: i128, scale: i128, len: u128) -> (r: i64)
    requires
        0 < len <= 0x1_0000_0000_0000_0000,
        scale == 0x1_0000_0000 || scale == 0x1_0000_0000_0000,
        -0x1_0000_0000_0000 <= c <= 0x1_0000_0000_0000,
        -(0x1_0000_0000 * len) <= c * scale <= 0x1_0000_0000 * len,
    ensures
        r == trunc_div(c * scale, len as int),
        -0x1_0000_0000 <= r <= 0x1_0000_0000,
{
    proof {
        lemma_mul_bounds(c as int, scale as int, 0x1_0000_0000_0000, 0x1_0000_0000_0000);
        lemma_trunc_div_within(c * scale, len as int, 0x1_0000_0000);
    }
    div_toward_zero(c * scale, len as i128) as i64
}

impl Vec3 {
    /// The unit vector along this vector in fine units, or zero for the
    /// zero vector.
    pub fn unit_fine(&self) -> (v: FineVec3)
        ensures
            v@ == v3_unit_fine(self@),
            fine_within(v@, 0x1_0000_0000),
    {
        let n: u128 = self.norm_squared() as u128 * 0x1_0000_0000;
        let len: u128 = isqrt_ceil(n);
        if len == 0 {
            FineVec3 { x: 0, y: 0, z: 0 }
        } else {
            proof {
                let (x, y, z) = (self.x@, self.y@, self.z@);
                let scaled = V3 { x: x * 65536, y: y * 65536, z: z * 65536 };
                lemma_scaled_norm(self@, 65536);
                lemma_component_within_length(scaled, len as int);
            }
            FineVec3 {
                x: fine_component(self.x.raw as i128, 0x1_0000_0000_0000, len),
                y: fine_component(self.y.raw as i128, 0x1_0000_0000_0000, len),
                z: fine_component(self.z.raw as i128, 0x1_0000_0000_0000, len),
            }
        }
    }
}

impl FineVec3 {
    /// The unit vector along this vector, or zero for the zero vector.
    pub fn normalize(&self) -> (v: FineVec3)
        requires
            fine_within(self@, 0x1_0000_0000_0000),
        ensures
            v@ == fine_unit(self@),
            fine_within(v@, 0x1_0000_0000),
    {
        let (x, y, z) = (self.x as i128, self.y as i128, self.z as i128);
        proof {
            lemma_mul_bounds(x as int, x as int, 0x1_0000_0000_0000, 0x1_0000_0000_0000);
            lemma_mul_bounds(y as int, y as int, 0x1_0000_0000_0000, 0x1_0000_0000_0000);
            lemma_mul_bounds(z as int, z as int, 0x1_0000_0000_0000, 0x1_0000_0000_0000);
            lemma_norm_sq_nonnegative(self@);
            assert(x * x >= 0 && y * y >= 0 && z * z >= 0) by (nonlinear_arith);
        }
        let n: u128 = (x * x + y * y + z * z) as u128;
        let len: u128 = isqrt_ceil(n);
        if len == 0 {
            FineVec3 { x: 0, y: 0, z: 0 }
        } else {
            proof {
                lemma_component_within_length(self@, len as int);
            }
            FineVec3 {
                x: fine_component(x, 0x1_0000_0000, len),
                y: fine_component(y, 0x1_0000_0000, len),
                z: fine_component(z, 0x1_0000_0000, len),
            }
        }
    }

    /// The cross product with a raw vector, in fine units.
    pub fn cross(&self, other: &Vec3) -> (v: FineVec3)
        requires
            fine_within(self@, 0x1_0000_0000),
        ensures
            v@ == cross_scaled(self@, other@, ONE as int),
            fine_within(v@, 0x1_0000_0000_0000),
    {
        FineVec3 {
            x: cross_part(self.y, other.z.raw as i64, self.z, other.y.raw as i64, 65536),
            y: cross_part(self.z, other.x.raw as i64, self.x, other.z.raw as i64, 65536),
            z: cross_part(self.x, other.y.raw as i64, self.y, other.x.raw as i64, 65536),
        }
    }

    /// The cross product with another vector in fine units.
    pub fn cross_fine(&self, other: &FineVec3) -> (v: FineVec3)
        requires
            fine_within(self@, 0x1_0000_0000),
            fine_within(other@, 0x1_0000_0000),
        ensures
            v@ == cross_scaled(self@, other@, 0x1_0000_0000),
            fine_within(v@, 0x1_0000_0000_0000),
    {
        FineVec3 {
            x: cross_part(self.y, other.z, self.z, other.y, 0x1_0000_0000),
            y: cross_part(self.z, other.x, self.x, other.z, 0x1_0000_0000),
            z: cross_part(self.x, other.y, self.y, other.x, 0x1_0000_0000),
        }
    }

    /// The dot product with a raw vector, rounded to the nearest raw
    /// value.
    pub fn dot(&self, other: &Vec3) -> (d: Fixed)
        requires
            fine_within(self@, 0x1_0000_0000_0000),
        ensures
            d@ == dot_fine(self@, other@),
    {
        proof {
            lemma_mul_bounds(self.x as int, other.x@, 0x1_0000_0000_0000, 0x8000_0000);
            lemma_mul_bounds(self.y as int, other.y@, 0x1_0000_0000_0000, 0x8000_0000);
            lemma_mul_bounds(self.z as int, other.z@, 0x1_0000_0000_0000, 0x8000_0000);
        }
        let wide: i128 = self.x as i128 * other.x.raw as i128 + self.y as i128 * other.y.raw as i128
            + self.z as i128 * other.z.raw as i128;
        Fixed { raw: saturate_i128(crate::trig::div_nearest(wide, 0x1_0000_0000)) }
    }

    /// The vector with each component rounded to the nearest raw value.
    pub fn round(&self) -> (v: Vec3)
        requires
            fine_within(self@, 0x1_0000_0000_0000),
        ensures
            v@ == v3_rounded(self@),
    {
        Vec3 {
            x: Fixed { raw: saturate_i128(crate::trig::div_nearest(self.x as i128, 65536)) },
            y: Fixed { raw: saturate_i128(crate::trig::div_nearest(self.y as i128, 65536)) },
            z: Fixed { raw: saturate_i128(crate::trig::div_nearest(self.z as i128, 65536)) },
        }
    }
}

/// One component of a cross product: `(p * q - r * s) / unit`, rounded
/// toward zero.
fn cross_part(p: i64, q: i64, r: i64, s: i64, unit: i128) -> (c: i64)
    requires
        -0x1_0000_0000 <= p <= 0x1_0000_0000,
        -0x1_0000_0000 <= r <= 0x1_0000_0000,
        unit == 65536 && -0x8000_0000 <= q <= 0x8000_0000 && -0x8000_0000 <= s <= 0x8000_0000
            || unit == 0x1_0000_0000 && -0x1_0000_0000 <= q <= 0x1_0000_0000 && -0x1_0000_0000
            <= s <= 0x1_0000_0000,
    ensures
        c == trunc_div(p * q - r * s, unit as int),
        -0x1_0000_0000_0000 <= c <= 0x1_0000_0000_0000,
{
    proof {
        if unit == 65536 {
            lemma_mul_bounds(p as int, q as int, 0x1_0000_0000, 0x8000_0000);
            lemma_mul_bounds(r as int, s as int, 0x1_0000_0000, 0x8000_0000);
            lemma_trunc_div_within(p * q - r * s, 65536, 0x1_0000_0000_0000);
        } else {
            lemma_mul_bounds(p as int, q as int, 0x1_0000_0000, 0x1_0000_0000);
            lemma_mul_bounds(r as int, s as int, 0x1_0000_0000, 0x1_0000_0000);
            lemma_trunc_div_within(p * q - r * s, 0x1_0000_0000, 0x1_0000_0000_0000);
        }
    }
    let wide: i128 = p as i128 * q as i128 - r as i128 * s as i128;
    div_toward_zero(wide, unit) as i64
}

} // verus!
