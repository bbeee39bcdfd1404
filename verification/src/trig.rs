//! Sine, cosine, tangent and arctangent of fixed-point angles in radians.
//!
//! The functions work in fine units of 2^-32 and round once, to the
//! nearest raw value. An [`Angle`] keeps an angle in fine units, so that
//! a body on a wide circle stands where its angle says. An angle is
//! first brought within π of zero by whole turns of `TWO_PI` fine units,
//! so that every function of an angle repeats exactly.
use vstd::prelude::*;
use vstd::arithmetic::div_mod::lemma_mod_multiples_vanish;
use crate::fixed::{Fixed, ONE, clamped, floor_sqrt, isqrt, rem_floor, saturate, saturate_i128};

verus! {

/// Raw value of an eighth of a turn, π/4.
pub const EIGHTH_TURN: i32 = 51472;

/// Raw value of a quarter turn, π/2.
pub const QUARTER_TURN: i32 = 102944;

/// Raw value of half a turn, π.
pub const HALF_TURN: i32 = 205888;

/// Raw value of a full turn, 2π.
pub const FULL_TURN: i32 = 411776;

/// The number one in fine units of 2^-32.
pub const FINE: i64 = 0x1_0000_0000;

/// π/4 in fine units.
pub const QUARTER_PI: i64 = 3373259426;

/// π/2 in fine units.
pub const HALF_PI: i64 = 6746518852;

/// π in fine units.
pub const PI: i64 = 13493037705;

/// 2π in fine units.
pub const TWO_PI: i64 = 26986075410;

/// The tangent of π/8 in fine units.
pub const TAN_EIGHTH_PI: i64 = 1779033704;

/// The product of two fine values, in fine units, rounded down.
pub open spec fn fine_product(a: int, b: int) -> int {
    a * b / (FINE as int)
}

/// The quotient `n / d` rounded to the nearest whole number, halves away
/// from zero; `d` is positive.
pub open spec fn nearest(n: int, d: int) -> int {
    if n >= 0 {
        (2 * n + d) / (2 * d)
    } else {
        -((2 * (-n) + d) / (2 * d))
    }
}

/// The absolute value.
pub open spec fn magnitude(v: int) -> int {
    if v < 0 {
        -v
    } else {
        v
    }
}

/// `t - t³/3! + t⁵/5! - t⁷/7! + t⁹/9!` in fine units, by Horner's rule.
pub open spec fn sine_series(t: int) -> int {
    let z = fine_product(t, t);
    let u4 = FINE - z / 72;
    let u3 = FINE - fine_product(z, u4) / 42;
    let u2 = FINE - fine_product(z, u3) / 20;
    let u1 = FINE - fine_product(z, u2) / 6;
    fine_product(t, u1)
}

/// `1 - t²/2! + t⁴/4! - t⁶/6! + t⁸/8! - t¹⁰/10!` in fine units, by
/// Horner's rule.
pub open spec fn cosine_series(t: int) -> int {
    let z = fine_product(t, t);
    let c5 = FINE - z / 90;
    let c4 = FINE - fine_product(z, c5) / 56;
    let c3 = FINE - fine_product(z, c4) / 30;
    let c2 = FINE - fine_product(z, c3) / 12;
    FINE - fine_product(z, c2) / 2
}

/// The sine series of an angle of either sign.
pub open spec fn odd_sine_series(t: int) -> int {
    if t >= 0 {
        sine_series(t)
    } else {
        -sine_series(-t)
    }
}

/// The sine, in fine units, of an angle `m` in fine units between zero
/// and a little more than π: the series of the angle itself up to π/4, of
/// its distance from π/2 up to 3π/4, and of its distance from π beyond.
pub open spec fn sine_of_fine(m: int) -> int {
    if m <= QUARTER_PI {
        sine_series(m)
    } else if m <= 3 * QUARTER_PI {
        cosine_series(magnitude(HALF_PI - m))
    } else {
        odd_sine_series(PI - m)
    }
}

/// The cosine, in fine units, of an angle `m` in fine units between zero
/// and a little more than π.
pub open spec fn cosine_of_fine(m: int) -> int {
    if m <= QUARTER_PI {
        cosine_series(m)
    } else if m <= 3 * QUARTER_PI {
        odd_sine_series(HALF_PI - m)
    } else {
        -cosine_series(magnitude(PI - m))
    }
}

/// The angle `a`, in fine units, less whole turns: above -π and up to π.
pub open spec fn principal(a: int) -> int {
    let r = a % (TWO_PI as int);
    if r > PI {
        r - TWO_PI
    } else {
        r
    }
}

/// The sine, in fine units, of the angle `a` in fine units.
pub open spec fn sine_fine(a: int) -> int {
    let s = principal(a);
    if s >= 0 {
        sine_of_fine(s)
    } else {
        -sine_of_fine(-s)
    }
}

/// The cosine, in fine units, of the angle `a` in fine units.
pub open spec fn cosine_fine(a: int) -> int {
    cosine_of_fine(magnitude(principal(a)))
}

/// Raw value of the sine of the raw angle `a`.
pub open spec fn sine(a: int) -> int {
    nearest(sine_fine(a * 65536), 65536)
}

/// Raw value of the cosine of the raw angle `a`.
pub open spec fn cosine(a: int) -> int {
    nearest(cosine_fine(a * 65536), 65536)
}

/// Raw value of the ratio `s / c` of two fine values, rounded to the
/// nearest and saturated; where `c` vanishes, the end of the range on
/// the side of the sign of `s`.
pub open spec fn fine_ratio(s: int, c: int) -> int {
    if c > 0 {
        saturate(nearest(s * ONE, c))
    } else if c < 0 {
        saturate(-nearest(s * ONE, -c))
    } else if s > 0 {
        i32::MAX as int
    } else if s < 0 {
        i32::MIN as int
    } else {
        0
    }
}

/// Raw value of the tangent of the raw angle `a`: the sine over the
/// cosine.
pub open spec fn tangent(a: int) -> int {
    fine_ratio(sine_fine(a * 65536), cosine_fine(a * 65536))
}

/// Raw value of the cotangent of the raw angle `a`: the cosine over the
/// sine.
pub open spec fn cotangent(a: int) -> int {
    fine_ratio(cosine_fine(a * 65536), sine_fine(a * 65536))
}

/// A raw value times a fine factor, rounded to the nearest raw value and
/// saturated.
pub open spec fn fine_scaled(v: int, factor: int) -> int {
    saturate(nearest(v * factor, FINE as int))
}

/// The angle `a + d` in fine units, less whole turns where the sum
/// leaves the range of the angles.
pub open spec fn angle_sum(a: int, d: int) -> int {
    let s = a + d;
    if i64::MIN <= s <= i64::MAX {
        s
    } else {
        s % (TWO_PI as int)
    }
}

/// The raw angle `a + d`, less whole turns, each to the nearest raw
/// value, where the sum leaves the range of the numbers.
pub open spec fn turn_sum(a: int, d: int) -> int {
    let s = a + d;
    if i32::MIN <= s <= i32::MAX {
        s
    } else {
        s % (FULL_TURN as int)
    }
}

/// `t - t³/3 + t⁵/5 - ... - t¹⁵/15` in fine units, by Horner's rule.
pub open spec fn arctan_series(t: int) -> int {
    let z = fine_product(t, t);
    let s7 = FINE / 15;
    let s6 = FINE / 13 - fine_product(z, s7);
    let s5 = FINE / 11 - fine_product(z, s6);
    let s4 = FINE / 9 - fine_product(z, s5);
    let s3 = FINE / 7 - fine_product(z, s4);
    let s2 = FINE / 5 - fine_product(z, s3);
    let s1 = FINE / 3 - fine_product(z, s2);
    let s0 = FINE - fine_product(z, s1);
    fine_product(t, s0)
}

/// The arctangent, in fine units, of `small / large`, where `small` is
/// not negative and `large` is positive and not below `small`: the series
/// of the ratio up to the tangent of π/8, and π/4 less the series of
/// `(large - small) / (large + small)` beyond.
pub open spec fn arctan_octant(small: int, large: int) -> int {
    let r = small * FINE / large;
    if r <= TAN_EIGHTH_PI {
        arctan_series(r)
    } else {
        QUARTER_PI - arctan_series((large - small) * FINE / (large + small))
    }
}

/// The angle, in fine units, of the point `(x, y)` seen from the origin,
/// from -π to π; zero for the origin itself.
pub open spec fn arctan2_fine(y: int, x: int) -> int {
    let ax = magnitude(x);
    let ay = magnitude(y);
    let base = if ax == 0 && ay == 0 {
        0
    } else if ay <= ax {
        arctan_octant(ay, ax)
    } else {
        HALF_PI - arctan_octant(ax, ay)
    };
    let half_plane = if x >= 0 {
        base
    } else {
        PI - base
    };
    if y < 0 {
        -half_plane
    } else {
        half_plane
    }
}

/// Raw value of the angle of the point `(x, y)` seen from the origin.
pub open spec fn arctan2(y: int, x: int) -> int {
    nearest(arctan2_fine(y, x), 65536)
}

/// Raw value of the angle whose sine is `x`, with `x` first brought
/// between minus one and one: the angle of the point whose height is `x`
/// and whose distance from the origin is one.
pub open spec fn arcsine(x: int) -> int {
    let s = clamped(x, -(ONE as int), ONE as int);
    arctan2(s * 65536, floor_sqrt((ONE * ONE - s * s) * FINE))
}

/// The angle, in fine units, whose sine is `y` in fine units, with `y`
/// first brought between minus one and one.
pub open spec fn arcsine_fine(y: int) -> int {
    let s = clamped(y, -(FINE as int), FINE as int);
    arctan2_fine(s, floor_sqrt(FINE * FINE - s * s))
}

/// Sine and cosine repeat after every full turn.
pub proof fn lemma_sine_periodic(a: int, turns: int)
    ensures
        sine_fine(a + turns * TWO_PI) == sine_fine(a),
        cosine_fine(a + turns * TWO_PI) == cosine_fine(a),
{
    lemma_mod_multiples_vanish(turns, a, TWO_PI as int);
    assert(turns * TWO_PI == TWO_PI * turns) by (nonlinear_arith);
}

/// Adding angles keeps the sum up to whole turns, so that sine and
/// cosine do not notice where whole turns were taken off.
pub proof fn lemma_angle_sum(a: int, d: int)
    ensures
        angle_sum(a, d) % (TWO_PI as int) == (a + d) % (TWO_PI as int),
        sine_fine(angle_sum(a, d)) == sine_fine(a + d),
        cosine_fine(angle_sum(a, d)) == cosine_fine(a + d),
        i64::MIN <= angle_sum(a, d) <= i64::MAX,
{
    vstd::arithmetic::div_mod::lemma_mod_twice(a + d, TWO_PI as int);
}

/// At the angle zero the sine is zero and the cosine is one; at π/2 the
/// sine is one and the cosine is zero; at π the sine is zero and the
/// cosine is minus one. The same holds of the raw angles zero and a
/// quarter turn.
pub proof fn lemma_sine_at_axes()
    ensures
        sine_fine(0) == 0 && cosine_fine(0) == FINE,
        sine_fine(HALF_PI as int) == FINE && cosine_fine(HALF_PI as int) == 0,
        sine_fine(PI as int) == 0 && cosine_fine(PI as int) == -FINE,
        sine(0) == 0 && cosine(0) == ONE,
        sine(QUARTER_TURN as int) == ONE && cosine(QUARTER_TURN as int) == 0,
{
    lemma_series_at(0, 0, 0x1_0000_0000);
    lemma_series_at(19132, 19132, 0x1_0000_0000);
}

/// The two series of an angle so small that its square vanishes in fine
/// units.
proof fn lemma_series_at(t: int, s: int, c: int)
    requires
        0 <= t < 65536,
        s == t,
        c == FINE,
    ensures
        sine_series(t) == s,
        cosine_series(t) == c,
{
    assert(0 <= t * t < 0x1_0000_0000) by (nonlinear_arith)
        requires
            0 <= t < 65536,
    ;
    assert(fine_product(t, t) == 0);
    assert(fine_product(0, FINE as int) == 0) by (nonlinear_arith);
    assert(fine_product(t, FINE as int) == t) by (nonlinear_arith)
        requires
            0 <= t,
    ;
}

/// The product of a value that is not negative with a fine value
/// between zero and one lies between zero and the value, and grows with
/// the fine value.
pub proof fn lemma_fine_product(a: int, b: int, c: int)
    requires
        0 <= a,
        0 <= b <= c <= FINE,
    ensures
        0 <= fine_product(a, b) <= fine_product(a, c) <= a,
        a <= FINE ==> fine_product(a, b) <= b,
{
    assert(0 <= a * b <= a * c <= a * 0x1_0000_0000) by (nonlinear_arith)
        requires
            0 <= a,
            0 <= b <= c <= 0x1_0000_0000,
    ;
    if a <= FINE {
        assert(a * b <= 0x1_0000_0000 * b) by (nonlinear_arith)
            requires
                0 <= a <= 0x1_0000_0000,
                0 <= b,
        ;
    }
}

/// What ties the three series to their names: for an angle `t` between
/// zero and one, in fine units, the sine series lies between `t - t³/6`
/// and `t`, the cosine series between `1 - t²/2` and one, and the
/// arctangent series between `t - t³/3` and `t`, as the sine, the cosine
/// and the arctangent themselves do.
pub proof fn lemma_series_brackets(t: int)
    requires
        0 <= t <= FINE,
    ensures
        fine_product(t, FINE - fine_product(t, t) / 6) <= sine_series(t) <= t,
        FINE - fine_product(t, t) / 2 <= cosine_series(t) <= FINE,
        fine_product(t, FINE - fine_product(fine_product(t, t), FINE / 3)) <= arctan_series(t) <= t,
{
    let f = FINE as int;
    let z = fine_product(t, t);
    lemma_fine_product(t, t, f);
    let u4 = f - z / 72;
    lemma_fine_product(z, u4, f);
    let u3 = f - fine_product(z, u4) / 42;
    lemma_fine_product(z, u3, f);
    let u2 = f - fine_product(z, u3) / 20;
    lemma_fine_product(z, u2, f);
    let u1 = f - fine_product(z, u2) / 6;
    lemma_fine_product(t, f - z / 6, u1);
    lemma_fine_product(t, u1, f);
    let c5 = f - z / 90;
    lemma_fine_product(z, c5, f);
    let c4 = f - fine_product(z, c5) / 56;
    lemma_fine_product(z, c4, f);
    let c3 = f - fine_product(z, c4) / 30;
    lemma_fine_product(z, c3, f);
    let c2 = f - fine_product(z, c3) / 12;
    lemma_fine_product(z, c2, f);
    let s7 = f / 15;
    lemma_fine_product(z, s7, f);
    let s6 = f / 13 - fine_product(z, s7);
    lemma_fine_product(z, s6, f);
    let s5 = f / 11 - fine_product(z, s6);
    lemma_fine_product(z, s5, f);
    let s4 = f / 9 - fine_product(z, s5);
    lemma_fine_product(z, s4, f);
    let s3 = f / 7 - fine_product(z, s4);
    lemma_fine_product(z, s3, f);
    let s2 = f / 5 - fine_product(z, s3);
    lemma_fine_product(z, s2, f);
    let s1 = f / 3 - fine_product(z, s2);
    lemma_fine_product(z, s1, f / 3);
    lemma_fine_product(z, f / 3, f);
    let s0 = f - fine_product(z, s1);
    lemma_fine_product(t, f - fine_product(z, f / 3), s0);
    lemma_fine_product(t, s0, f);
}

/// The product of two fine values that are not negative, rounded down.
fn mul_down(a: i128, b: i128) -> (r: i128)
    requires
        0 <= a <= 0x100_0000_0000,
        0 <= b <= 0x100_0000_0000,
    ensures
        r == fine_product(a as int, b as int),
        0 <= r,
        a <= FINE ==> r <= b,
        b <= FINE ==> r <= a,
{
    proof {
        assert(0 <= a * b <= 0x100_0000_0000 * 0x100_0000_0000) by (nonlinear_arith)
            requires
                0 <= a <= 0x100_0000_0000,
                0 <= b <= 0x100_0000_0000,
        ;
        if a <= FINE {
            assert(a * b / 0x1_0000_0000 <= b) by (nonlinear_arith)
                requires
                    0 <= a <= 0x1_0000_0000,
                    0 <= b,
            ;
        }
        if b <= FINE {
            assert(a * b / 0x1_0000_0000 <= a) by (nonlinear_arith)
                requires
                    0 <= b <= 0x1_0000_0000,
                    0 <= a,
            ;
        }
    }
    a * b / 0x1_0000_0000
}

/// Divides by a positive number, rounding to the nearest, halves away
/// from zero.
pub fn div_nearest(n: i128, d: i128) -> (q: i128)
    requires
        d > 0,
        -0x1_0000_0000_0000_0000_0000_0000 <= n <= 0x1_0000_0000_0000_0000_0000_0000,
        d <= 0x1_0000_0000_0000_0000_0000_0000,
    ensures
        q == nearest(n as int, d as int),
{
    if n >= 0 {
        (2 * n + d) / (2 * d)
    } else {
        -((2 * (-n) + d) / (2 * d))
    }
}

/// The sine series of an angle up to one.
fn sine_polynomial(t: i128) -> (s: i128)
    requires
        0 <= t <= FINE,
    ensures
        s == sine_series(t as int),
        0 <= s <= t,
{
    let z = mul_down(t, t);
    let u4 = 0x1_0000_0000 - z / 72;
    let u3 = 0x1_0000_0000 - mul_down(z, u4) / 42;
    let u2 = 0x1_0000_0000 - mul_down(z, u3) / 20;
    let u1 = 0x1_0000_0000 - mul_down(z, u2) / 6;
    mul_down(t, u1)
}

/// The cosine series of an angle up to one.
fn cosine_polynomial(t: i128) -> (c: i128)
    requires
        0 <= t <= FINE,
    ensures
        c == cosine_series(t as int),
        0 <= c <= FINE,
{
    let z = mul_down(t, t);
    let c5 = 0x1_0000_0000 - z / 90;
    let c4 = 0x1_0000_0000 - mul_down(z, c5) / 56;
    let c3 = 0x1_0000_0000 - mul_down(z, c4) / 30;
    let c2 = 0x1_0000_0000 - mul_down(z, c3) / 12;
    0x1_0000_0000 - mul_down(z, c2) / 2
}

/// The sine series of an angle of either sign, up to one in magnitude.
fn odd_sine_polynomial(t: i128) -> (s: i128)
    requires
        -FINE <= t <= FINE,
    ensures
        s == odd_sine_series(t as int),
        -FINE <= s <= FINE,
{
    if t >= 0 {
        sine_polynomial(t)
    } else {
        -sine_polynomial(-t)
    }
}

/// The sine of an angle in fine units between zero and half a turn.
fn sine_of(m: i128) -> (s: i128)
    requires
        0 <= m <= PI,
    ensures
        s == sine_of_fine(m as int),
        -FINE <= s <= FINE,
{
    if m <= 3373259426 {
        sine_polynomial(m)
    } else if m <= 3 * 3373259426 {
        let d = 6746518852 - m;
        cosine_polynomial(if d < 0 {
            -d
        } else {
            d
        })
    } else {
        odd_sine_polynomial(13493037705 - m)
    }
}

/// The cosine of an angle in fine units between zero and half a turn.
fn cosine_of(m: i128) -> (c: i128)
    requires
        0 <= m <= PI,
    ensures
        c == cosine_of_fine(m as int),
        -FINE <= c <= FINE,
{
    if m <= 3373259426 {
        cosine_polynomial(m)
    } else if m <= 3 * 3373259426 {
        odd_sine_polynomial(6746518852 - m)
    } else {
        let d = 13493037705 - m;
        -cosine_polynomial(if d < 0 {
            -d
        } else {
            d
        })
    }
}

/// The angle less whole turns, within π of zero.
fn reduce(a: i128) -> (s: i128)
    requires
        -0x1_0000_0000_0000_0000_0000 <= a <= 0x1_0000_0000_0000_0000_0000,
    ensures
        s == principal(a as int),
        -PI < s <= PI,
{
    let r: i128 = if a >= 0 {
        a % 26986075410
    } else {
        let m: i128 = -(a + 1);
        proof {
            crate::fixed::lemma_negative_division(a as int, 26986075410);
        }
        26986075410 - 1 - m % 26986075410
    };
    if r > 13493037705 {
        r - 26986075410
    } else {
        r
    }
}

/// The sine, in fine units, of an angle in fine units.
fn sine_fine_of(a: i128) -> (s: i64)
    requires
        -0x1_0000_0000_0000_0000_0000 <= a <= 0x1_0000_0000_0000_0000_0000,
    ensures
        s == sine_fine(a as int),
        -FINE <= s <= FINE,
{
    let p = reduce(a);
    if p >= 0 {
        sine_of(p) as i64
    } else {
        (-sine_of(-p)) as i64
    }
}

/// The cosine, in fine units, of an angle in fine units.
fn cosine_fine_of(a: i128) -> (c: i64)
    requires
        -0x1_0000_0000_0000_0000_0000 <= a <= 0x1_0000_0000_0000_0000_0000,
    ensures
        c == cosine_fine(a as int),
        -FINE <= c <= FINE,
{
    let p = reduce(a);
    cosine_of(if p >= 0 {
        p
    } else {
        -p
    }) as i64
}

/// An angle in radians, in fine units of 2^-32.
#[derive(Clone, Copy, Debug, PartialEq, Eq, Structural)]
pub struct Angle {
    pub raw: i64,
}

impl View for Angle {
    type V = int;

    /// The angle in fine units, as a mathematical integer.
    open spec fn view(&self) -> int {
        self.raw as int
    }
}

impl Angle {
    /// The angle of the given value in fine units, which must be in
    /// range.
    pub open spec fn of(raw: int) -> Angle {
        Angle { raw: raw as i64 }
    }

    /// The angle zero.
    pub fn zero() -> (a: Angle)
        ensures
            a@ == 0,
    {
        Angle { raw: 0 }
    }

    /// The angle of the given value in fine units.
    pub fn from_raw(raw: i64) -> (a: Angle)
        ensures
            a@ == raw,
    {
        Angle { raw }
    }

    /// The angle of the same value as a fixed-point number.
    pub fn from_fixed(value: Fixed) -> (a: Angle)
        ensures
            a@ == value@ * 65536,
    {
        Angle { raw: value.raw as i64 * 65536 }
    }

    /// The angle as a fixed-point number, rounded to the nearest raw
    /// value and saturated.
    pub fn to_fixed(self) -> (value: Fixed)
        ensures
            value@ == saturate(nearest(self@, 65536)),
    {
        Fixed { raw: saturate_i128(div_nearest(self.raw as i128, 65536)) }
    }

    /// The sine of the angle, in fine units.
    pub fn sin_fine(self) -> (s: i64)
        ensures
            s == sine_fine(self@),
            -FINE <= s <= FINE,
    {
        sine_fine_of(self.raw as i128)
    }

    /// The cosine of the angle, in fine units.
    pub fn cos_fine(self) -> (c: i64)
        ensures
            c == cosine_fine(self@),
            -FINE <= c <= FINE,
    {
        cosine_fine_of(self.raw as i128)
    }

    /// The cotangent of the angle: the cosine over the sine, rounded to
    /// the nearest raw value and saturated.
    pub fn cot(self) -> (t: Fixed)
        ensures
            t@ == fine_ratio(cosine_fine(self@), sine_fine(self@)),
    {
        ratio_of_fine(self.cos_fine(), self.sin_fine())
    }

    /// The sum of two angles; where the sum leaves the range of the
    /// angles, whole turns are taken off it.
    pub fn add(self, d: Angle) -> (r: Angle)
        ensures
            r@ == angle_sum(self@, d@),
    {
        let s: i128 = self.raw as i128 + d.raw as i128;
        if s < -0x8000_0000_0000_0000 || s > 0x7FFF_FFFF_FFFF_FFFF {
            let r: i128 = if s >= 0 {
                s % 26986075410
            } else {
                let m: i128 = -(s + 1);
                proof {
                    crate::fixed::lemma_negative_division(s as int, 26986075410);
                }
                26986075410 - 1 - m % 26986075410
            };
            Angle { raw: r as i64 }
        } else {
            Angle { raw: s as i64 }
        }
    }

    /// The sum of two angles brought between `-limit` and `limit`, where
    /// `limit` is not negative.
    pub fn add_within(self, d: Angle, limit: Angle) -> (r: Angle)
        requires
            0 <= limit@,
        ensures
            r@ == clamped(self@ + d@, -limit@, limit@),
    {
        let s: i128 = self.raw as i128 + d.raw as i128;
        if s < -(limit.raw as i128) {
            Angle { raw: -limit.raw }
        } else if s > limit.raw as i128 {
            Angle { raw: limit.raw }
        } else {
            Angle { raw: s as i64 }
        }
    }

    /// The angle of the point `(x, y)`, given in fine units, seen from
    /// the origin.
    pub fn of_fine_point(y: i64, x: i64) -> (a: Angle)
        requires
            -0x2_0000_0000 <= y <= 0x2_0000_0000,
            -0x2_0000_0000 <= x <= 0x2_0000_0000,
        ensures
            a@ == arctan2_fine(y as int, x as int),
            -PI <= a@ <= PI,
    {
        Angle { raw: arctan2_wide(y, x) as i64 }
    }

    /// The angle whose sine is `y` in fine units, from -π/2 to π/2; `y`
    /// is first brought between minus one and one.
    pub fn of_sine(y: i64) -> (a: Angle)
        ensures
            a@ == arcsine_fine(y as int),
            -HALF_PI <= a@ <= HALF_PI,
    {
        let s: i128 = if y < -0x1_0000_0000 {
            -0x1_0000_0000
        } else if y > 0x1_0000_0000 {
            0x1_0000_0000
        } else {
            y as i128
        };
        proof {
            assert(0 <= s * s <= 0x1_0000_0000 * 0x1_0000_0000) by (nonlinear_arith)
                requires
                    -0x1_0000_0000 <= s <= 0x1_0000_0000,
            ;
        }
        let rest: u128 = (0x1_0000_0000_0000_0000 - s * s) as u128;
        let c: u64 = isqrt(rest);
        proof {
            assert(c <= 0x1_0000_0000) by (nonlinear_arith)
                requires
                    c * c <= rest,
                    rest <= 0x1_0000_0000 * 0x1_0000_0000,
                    c >= 0,
            ;
        }
        Angle { raw: arctan2_wide(s as i64, c as i64) as i64 }
    }

    /// The angle of the point `(x, y)` seen from the origin, from -π to
    /// π; zero for the origin itself.
    pub fn of_point(y: Fixed, x: Fixed) -> (a: Angle)
        ensures
            a@ == arctan2_fine(y@, x@),
            -PI <= a@ <= PI,
    {
        Angle { raw: arctan2_wide(y.raw as i64, x.raw as i64) as i64 }
    }
}

/// A fine value between minus one and one, rounded to the nearest raw
/// value.
fn round_fine(v: i64) -> (r: Fixed)
    requires
        -FINE <= v <= FINE,
    ensures
        r@ == nearest(v as int, 65536),
        -ONE <= r@ <= ONE,
{
    let q = div_nearest(v as i128, 65536);
    Fixed { raw: q as i32 }
}

/// The sine of a raw angle of any size.
pub fn sine_of_raw(a: i64) -> (s: Fixed)
    ensures
        s@ == sine(a as int),
        -ONE <= s@ <= ONE,
{
    round_fine(sine_fine_of(a as i128 * 65536))
}

/// The sine of an angle in radians.
pub fn sin(angle: Fixed) -> (s: Fixed)
    ensures
        s@ == sine(angle@),
        -ONE <= s@ <= ONE,
{
    round_fine(sine_fine_of(angle.raw as i128 * 65536))
}

/// The cosine of an angle in radians.
pub fn cos(angle: Fixed) -> (c: Fixed)
    ensures
        c@ == cosine(angle@),
        -ONE <= c@ <= ONE,
{
    round_fine(cosine_fine_of(angle.raw as i128 * 65536))
}

/// The tangent of an angle in radians.
pub fn tan(angle: Fixed) -> (t: Fixed)
    ensures
        t@ == tangent(angle@),
{
    ratio_of_fine(
        sine_fine_of(angle.raw as i128 * 65536),
        cosine_fine_of(angle.raw as i128 * 65536),
    )
}

/// The cotangent of an angle in radians.
pub fn cot(angle: Fixed) -> (t: Fixed)
    ensures
        t@ == cotangent(angle@),
{
    ratio_of_fine(
        cosine_fine_of(angle.raw as i128 * 65536),
        sine_fine_of(angle.raw as i128 * 65536),
    )
}

/// The ratio of two fine values between minus one and one.
fn ratio_of_fine(n: i64, d: i64) -> (t: Fixed)
    requires
        -FINE <= n <= FINE,
        -FINE <= d <= FINE,
    ensures
        t@ == fine_ratio(n as int, d as int),
{
    let s = n as i128;
    let c = d as i128;
    if c > 0 {
        Fixed { raw: saturate_i128(div_nearest(s * 65536, c)) }
    } else if c < 0 {
        Fixed { raw: saturate_i128(-div_nearest(s * 65536, -c)) }
    } else if s > 0 {
        Fixed { raw: i32::MAX }
    } else if s < 0 {
        Fixed { raw: i32::MIN }
    } else {
        Fixed { raw: 0 }
    }
}

/// The sine and the cosine of an angle in radians.
pub fn sin_cos(angle: Fixed) -> (sc: (Fixed, Fixed))
    ensures
        sc.0@ == sine(angle@),
        sc.1@ == cosine(angle@),
{
    (sin(angle), cos(angle))
}

/// A number times a fine factor, rounded to the nearest raw value and
/// saturated.
pub fn scale_fine(v: Fixed, factor: i64) -> (r: Fixed)
    ensures
        r@ == fine_scaled(v@, factor as int),
{
    proof {
        crate::fixed::lemma_mul_bounds(v@, factor as int, 0x8000_0000, 0x8000_0000_0000_0000);
    }
    let wide: i128 = v.raw as i128 * factor as i128;
    Fixed { raw: saturate_i128(div_nearest(wide, 0x1_0000_0000)) }
}

/// Zero over anything rounds to zero.
pub proof fn lemma_nearest_of_zero(d: int)
    requires
        d > 0,
    ensures
        nearest(0, d) == 0,
{
    assert((2 * 0 + d) / (2 * d) == 0) by (nonlinear_arith)
        requires
            d > 0,
    ;
}

/// A quotient rounded to the nearest is no larger in magnitude than `k`
/// when the dividend is at most `k` times the divisor.
pub proof fn lemma_nearest_within(n: int, d: int, k: int)
    requires
        d > 0,
        k >= 0,
        -(k * d) <= n <= k * d,
    ensures
        -k <= nearest(n, d) <= k,
{
    let m = magnitude(n);
    assert((2 * m + d) / (2 * d) <= k) by (nonlinear_arith)
        requires
            0 <= m <= k * d,
            d > 0,
            k >= 0,
    ;
    assert((2 * m + d) / (2 * d) >= 0) by (nonlinear_arith)
        requires
            0 <= m,
            d > 0,
    ;
}

/// The product of two fine values between minus one and one, rounded to
/// the nearest fine value.
pub open spec fn fine_times(a: int, b: int) -> int {
    nearest(a * b, FINE as int)
}

/// The product of two fine values between minus one and one.
pub fn mul_fine(a: i64, b: i64) -> (r: i64)
    requires
        -FINE <= a <= FINE,
        -FINE <= b <= FINE,
    ensures
        r == fine_times(a as int, b as int),
        -FINE <= r <= FINE,
{
    proof {
        crate::fixed::lemma_mul_bounds(a as int, b as int, 0x1_0000_0000, 0x1_0000_0000);
        lemma_nearest_within(a * b, 0x1_0000_0000, 0x1_0000_0000);
    }
    div_nearest(a as i128 * b as i128, 0x1_0000_0000) as i64
}

/// The sum of two angles in radians; where the sum leaves the range of
/// the numbers, whole turns are taken off it, each to the nearest raw
/// value.
pub fn add_turns(a: Fixed, d: Fixed) -> (r: Fixed)
    ensures
        r@ == turn_sum(a@, d@),
{
    let s: i64 = a.raw as i64 + d.raw as i64;
    if s < -2147483648 || s > 2147483647 {
        Fixed { raw: rem_floor(s, 411776) as i32 }
    } else {
        Fixed { raw: s as i32 }
    }
}

/// The arctangent series of a ratio up to a little more than the tangent
/// of π/8.
fn arctan_polynomial(t: i128) -> (a: i128)
    requires
        0 <= t <= FINE,
    ensures
        a == arctan_series(t as int),
        0 <= a <= t,
{
    let z = mul_down(t, t);
    let s7: i128 = 0x1_0000_0000 / 15;
    let s6: i128 = 0x1_0000_0000 / 13 - mul_down(z, s7);
    let s5: i128 = 0x1_0000_0000 / 11 - mul_down(z, s6);
    let s4: i128 = 0x1_0000_0000 / 9 - mul_down(z, s5);
    let s3: i128 = 0x1_0000_0000 / 7 - mul_down(z, s4);
    let s2: i128 = 0x1_0000_0000 / 5 - mul_down(z, s3);
    let s1: i128 = 0x1_0000_0000 / 3 - mul_down(z, s2);
    let s0: i128 = 0x1_0000_0000 - mul_down(z, s1);
    mul_down(t, s0)
}

/// The arctangent of `small / large`, in fine units.
fn arctan_of_ratio(small: i128, large: i128) -> (a: i128)
    requires
        0 <= small <= large <= 0x2_0000_0000,
        large > 0,
    ensures
        a == arctan_octant(small as int, large as int),
        0 <= a <= QUARTER_PI,
{
    proof {
        let sm = small as int;
        let lg = large as int;
        assert(0 <= sm * 0x1_0000_0000 / lg <= 0x1_0000_0000) by (nonlinear_arith)
            requires
                0 <= sm <= lg,
                lg > 0,
        ;
        assert(0 <= (lg - sm) * 0x1_0000_0000 / (lg + sm) <= 0x1_0000_0000) by (nonlinear_arith)
            requires
                0 <= sm <= lg,
                lg > 0,
        ;
    }
    let r: i128 = small * 0x1_0000_0000 / large;
    if r <= 1779033704 {
        arctan_polynomial(r)
    } else {
        let t: i128 = (large - small) * 0x1_0000_0000 / (large + small);
        proof {
            let sm = small as int;
            let lg = large as int;
            assert(sm * 0x1_0000_0000 >= 1779033705 * lg) by (nonlinear_arith)
                requires
                    sm * 0x1_0000_0000 / lg >= 1779033705,
                    lg > 0,
                    sm >= 0,
            ;
            assert((lg - sm) * 0x1_0000_0000 <= 1800000000 * (lg + sm));
            assert((lg - sm) * 0x1_0000_0000 / (lg + sm) <= 1800000000) by (nonlinear_arith)
                requires
                    (lg - sm) * 0x1_0000_0000 <= 1800000000 * (lg + sm),
                    lg + sm > 0,
            ;
        }
        3373259426 - arctan_polynomial(t)
    }
}

/// The angle, in fine units, of the point `(x, y)`.
fn arctan2_wide(y: i64, x: i64) -> (a: i128)
    requires
        -0x2_0000_0000 <= y <= 0x2_0000_0000,
        -0x2_0000_0000 <= x <= 0x2_0000_0000,
    ensures
        a == arctan2_fine(y as int, x as int),
        -PI <= a <= PI,
        x >= 0 ==> -HALF_PI <= a <= HALF_PI,
{
    let ax: i128 = if x < 0 {
        -(x as i128)
    } else {
        x as i128
    };
    let ay: i128 = if y < 0 {
        -(y as i128)
    } else {
        y as i128
    };
    let base: i128 = if ax == 0 && ay == 0 {
        0
    } else if ay <= ax {
        arctan_of_ratio(ay, ax)
    } else {
        6746518852 - arctan_of_ratio(ax, ay)
    };
    let half_plane: i128 = if x >= 0 {
        base
    } else {
        13493037705 - base
    };
    if y < 0 {
        -half_plane
    } else {
        half_plane
    }
}

/// The angle of the point `(x, y)` seen from the origin, in radians from
/// -π to π; zero for the origin itself.
pub fn atan2(y: Fixed, x: Fixed) -> (angle: Fixed)
    ensures
        angle@ == arctan2(y@, x@),
        -HALF_TURN <= angle@ <= HALF_TURN,
{
    let a = arctan2_wide(y.raw as i64, x.raw as i64);
    proof {
        lemma_nearest_within(a as int, 65536, 205888);
    }
    Fixed { raw: div_nearest(a, 65536) as i32 }
}

/// The angle whose sine is `x`, in radians from -π/2 to π/2; `x` is
/// first brought between minus one and one.
pub fn asin(x: Fixed) -> (angle: Fixed)
    ensures
        angle@ == arcsine(x@),
        -QUARTER_TURN <= angle@ <= QUARTER_TURN,
{
    let s: i64 = if x.raw < -65536 {
        -65536
    } else if x.raw > 65536 {
        65536
    } else {
        x.raw as i64
    };
    proof {
        assert(0 <= s * s <= 65536 * 65536) by (nonlinear_arith)
            requires
                -65536 <= s <= 65536,
        ;
    }
    let rest: u128 = (4294967296 - s * s) as u128 * 0x1_0000_0000;
    let c: u64 = isqrt(rest);
    proof {
        assert(c <= 0x1_0000_0000) by (nonlinear_arith)
            requires
                c * c <= rest,
                rest <= 0x1_0000_0000 * 0x1_0000_0000,
                c >= 0,
        ;
    }
    let a = arctan2_wide(s * 65536, c as i64);
    proof {
        lemma_nearest_within(a as int, 65536, 102944);
    }
    Fixed { raw: div_nearest(a, 65536) as i32 }
}

} // verus!
