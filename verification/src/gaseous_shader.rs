//! Procedural surfaces: a lattice noise, its fractal sum, and the shaders
//! of the gas giant, the rocky planet and the sun.
use vstd::prelude::*;
use vstd::wrapping::i32_specs::{wrapping_add, wrapping_mul};
use crate::color::Color;
use crate::fixed::{
    Fixed, ONE, HALF, saturate, product, clamped, trunc_div, div_floor, rem_floor, lemma_mul_bounds,
};
use crate::fragment::Fragment;
use crate::trig::{sin, sine, sine_of_raw};

verus! {

/// Raw value of the factor that spreads a sine over many units before
/// its fraction is taken, 43758.5453.
pub const SPREAD: i64 = 2867760025;

/// Raw value of 0.02, the scale of the turbulence of the gas giant.
pub const TURBULENCE_SCALE: i32 = 1311;

/// Raw value of 0.03, the frequency of the bands of the gas giant along
/// the rows, and the scale of the craters and of the sun's activity.
/// Like the other factors of this module it is rounded up, so that a
/// product that is a whole number in exact arithmetic is not cut to the
/// number below.
pub const DETAIL_SCALE: i32 = 1967;

/// Raw value of 0.05, the scale of the rock's texture.
pub const ROCK_SCALE: i32 = 3277;

/// Raw value of 0.3, the weight of the turbulence in the gas giant.
pub const TURBULENCE_WEIGHT: i32 = 19661;

/// Raw value of 0.7, the darkest factor of the gas giant.
pub const GAS_FLOOR: i32 = 45876;

/// Raw value of 0.6, the span of the factor of the gas giant and the
/// floor of the rock's texture.
pub const SIX_TENTHS: i32 = 39322;

/// Raw value of 0.4, the weight of the noise in the rock's texture.
pub const ROCK_WEIGHT: i32 = 26215;

/// Raw value of 0.85, the noise above which a crater begins.
pub const CRATER_THRESHOLD: i32 = 55706;

/// Raw value of 0.9, the base intensity of the sun.
pub const SUN_FLOOR: i32 = 58983;

/// Raw value of 0.2, the weight of the sun's activity.
pub const ACTIVITY_WEIGHT: i32 = 13108;

/// Raw value of 1.5, the speed at which the sun's activity drifts along
/// the rows; along the columns it drifts at 2.
pub const DRIFT: i32 = 98304;

/// The hash of a point of the integer lattice: two multiplications that
/// wrap around, their wrapped sum, and an exclusive or with a third.
pub open spec fn lattice_hash(xi: i32, yi: i32) -> i32 {
    wrapping_add(wrapping_mul(xi, 374761393), wrapping_mul(yi, 668265263)) ^ wrapping_mul(
        xi,
        668265263,
    )
}

/// Raw value of the noise at the raw point `(x, y)`: the fraction, from
/// zero up to one, of the spread sine of the hash of the lattice point
/// below `(x, y)`.
pub open spec fn noise_value(x: int, y: int) -> int {
    let h = lattice_hash((x / (ONE as int)) as i32, (y / (ONE as int)) as i32);
    (sine(h * ONE) * SPREAD / (ONE as int)) % (ONE as int)
}

/// Raw value of the spatial frequency of octave `k`: one, doubled `k`
/// times.
pub open spec fn octave_frequency(k: nat) -> int
    decreases k,
{
    if k == 0 {
        ONE as int
    } else {
        product(octave_frequency((k - 1) as nat), 2 * ONE)
    }
}

/// Raw value of the amplitude of octave `k`: one, halved `k` times.
pub open spec fn octave_amplitude(k: nat) -> int
    decreases k,
{
    if k == 0 {
        ONE as int
    } else {
        product(octave_amplitude((k - 1) as nat), HALF as int)
    }
}

/// Raw value of what octave `k` adds to the fractal noise at `(x, y)`.
pub open spec fn octave(x: int, y: int, k: nat) -> int {
    let f = octave_frequency(k);
    product(octave_amplitude(k), noise_value(product(x, f), product(y, f)))
}

/// Raw value of the fractal noise at `(x, y)`: the sum of the first
/// `octaves` octaves, from the coarsest on.
pub open spec fn fractal_noise(x: int, y: int, octaves: int) -> int
    decreases octaves,
{
    if octaves <= 0 {
        0
    } else {
        saturate(fractal_noise(x, y, octaves - 1) + octave(x, y, (octaves - 1) as nat))
    }
}

/// Raw value of the factor of the gas giant at pixel `(px, py)` and raw
/// time `time`: 0.7 plus 0.6 times the pattern, which is a moving band
/// across the rows plus three octaves of turbulence, brought between zero
/// and one.
pub open spec fn gaseous_factor(px: int, py: int, time: int) -> int {
    let x = saturate(px * ONE);
    let y = saturate(py * ONE);
    let phase = saturate(product(y, DETAIL_SCALE as int) + product(time, HALF as int));
    let bands = saturate(product(sine(phase), HALF as int) + HALF);
    let turbulence = fractal_noise(
        saturate(product(x, TURBULENCE_SCALE as int) + time),
        product(y, TURBULENCE_SCALE as int),
        3,
    );
    let pattern = clamped(
        saturate(bands + product(turbulence, TURBULENCE_WEIGHT as int)),
        0,
        ONE as int,
    );
    saturate(GAS_FLOOR + product(pattern, SIX_TENTHS as int))
}

/// Raw value of the factor of the rocky planet at pixel `(px, py)`: four
/// octaves of noise brought to 0.6 and above, halved where the crater
/// noise exceeds 0.85.
pub open spec fn rocky_factor(px: int, py: int) -> int {
    let x = saturate(px * ONE);
    let y = saturate(py * ONE);
    let rock = fractal_noise(product(x, ROCK_SCALE as int), product(y, ROCK_SCALE as int), 4);
    let crater = noise_value(product(x, DETAIL_SCALE as int), product(y, DETAIL_SCALE as int));
    let craters = if crater > CRATER_THRESHOLD {
        HALF as int
    } else {
        ONE as int
    };
    product(saturate(product(rock, ROCK_WEIGHT as int) + SIX_TENTHS), craters)
}

/// Raw value of the factor of the sun at pixel `(px, py)` and raw time
/// `time`: 0.9 plus a fifth of two octaves of noise that drift with time.
pub open spec fn sun_factor(px: int, py: int, time: int) -> int {
    let x = saturate(px * ONE);
    let y = saturate(py * ONE);
    let activity = fractal_noise(
        saturate(product(x, DETAIL_SCALE as int) + product(time, 2 * ONE)),
        saturate(product(y, DETAIL_SCALE as int) + product(time, DRIFT as int)),
        2,
    );
    saturate(SUN_FLOOR + product(activity, ACTIVITY_WEIGHT as int))
}

/// The noise lies from zero up to one.
pub proof fn lemma_noise_range(x: int, y: int)
    ensures
        0 <= noise_value(x, y) < ONE,
{
}

/// The amplitude of every octave lies between zero and one.
pub proof fn lemma_amplitude_range(k: nat)
    ensures
        0 <= octave_amplitude(k) <= ONE,
    decreases k,
{
    if k > 0 {
        lemma_amplitude_range((k - 1) as nat);
        lemma_product_range(octave_amplitude((k - 1) as nat), HALF as int, ONE as int, HALF as int);
    }
}

/// The product of two raw values that are not negative lies between
/// zero and the product of their bounds.
pub proof fn lemma_product_range(a: int, b: int, m: int, n: int)
    requires
        0 <= a <= m,
        0 <= b <= n,
    ensures
        0 <= product(a, b) <= product(m, n),
        product(a, b) <= trunc_div(m * n, ONE as int),
{
    assert(0 <= a * b <= m * n) by (nonlinear_arith)
        requires
            0 <= a <= m,
            0 <= b <= n,
    ;
}

/// Each octave has half the amplitude of the one before, rounded down.
pub proof fn lemma_amplitude_halves(k: nat)
    ensures
        octave_amplitude(k + 1) == octave_amplitude(k) / 2,
        octave_amplitude(0) == ONE,
        octave_amplitude(1) == ONE / 2,
        octave_amplitude(2) == ONE / 4,
        octave_amplitude(3) == ONE / 8,
{
    lemma_amplitude_range(k);
    lemma_amplitude_range(0);
    lemma_amplitude_range(1);
    lemma_amplitude_range(2);
    assert(octave_amplitude(k + 1) == product(octave_amplitude(k), HALF as int));
    assert(octave_amplitude(1) == product(octave_amplitude(0), HALF as int));
    assert(octave_amplitude(2) == product(octave_amplitude(1), HALF as int));
    assert(octave_amplitude(3) == product(octave_amplitude(2), HALF as int));
}

/// Fractal noise is not negative, and it stays below two by at least the
/// amplitude of its last octave: `n` octaves sum to at most
/// `2 - 0.5^(n-1)`.
pub proof fn lemma_fractal_noise_range(x: int, y: int, octaves: int)
    ensures
        0 <= fractal_noise(x, y, octaves),
        octaves >= 1 ==> fractal_noise(x, y, octaves) <= 2 * ONE - octave_amplitude(
            (octaves - 1) as nat,
        ),
        octaves < 1 ==> fractal_noise(x, y, octaves) == 0,
    decreases octaves,
{
    if octaves > 0 {
        let k = (octaves - 1) as nat;
        lemma_fractal_noise_range(x, y, octaves - 1);
        lemma_amplitude_range(k);
        let f = octave_frequency(k);
        lemma_noise_range(product(x, f), product(y, f));
        lemma_product_range(
            octave_amplitude(k),
            noise_value(product(x, f), product(y, f)),
            octave_amplitude(k),
            ONE as int,
        );
        assert(product(octave_amplitude(k), ONE as int) == octave_amplitude(k));
        if k > 0 {
            lemma_amplitude_halves((k - 1) as nat);
        }
    }
}

/// The hash of a point of the integer lattice.
pub fn hash(xi: i32, yi: i32) -> (h: i32)
    ensures
        h == lattice_hash(xi, yi),
{
    xi.wrapping_mul(374761393).wrapping_add(yi.wrapping_mul(668265263)) ^ xi.wrapping_mul(
        668265263,
    )
}

/// The noise at `(x, y)`: a value from zero up to one that depends only
/// on the lattice point below `(x, y)`.
pub fn noise(x: Fixed, y: Fixed) -> (n: Fixed)
    ensures
        n@ == noise_value(x@, y@),
        0 <= n@ < ONE,
{
    let h: i32 = hash(x.floor(), y.floor());
    let s = sine_of_raw(h as i64 * 65536);
    proof {
        lemma_mul_bounds(s@, SPREAD as int, 65536, 2867760025);
    }
    let spread: i64 = div_floor(s.raw as i64 * SPREAD, 65536);
    Fixed { raw: rem_floor(spread, 65536) as i32 }
}

/// The noise at `(x, y)` times `frequency`, times `amplitude`.
fn scaled_noise(x: Fixed, y: Fixed, amplitude: Fixed, frequency: Fixed) -> (t: Fixed)
    ensures
        t@ == product(
            amplitude@,
            noise_value(product(x@, frequency@), product(y@, frequency@)),
        ),
{
    amplitude.mul(noise(x.mul(frequency), y.mul(frequency)))
}

/// Fractal noise: the sum of `octaves` octaves of noise, each at twice
/// the frequency and half the amplitude of the one before.
pub fn fbm(x: Fixed, y: Fixed, octaves: i32) -> (value: Fixed)
    ensures
        value@ == fractal_noise(x@, y@, octaves as int),
{
    let mut value = Fixed::zero();
    let mut amplitude = Fixed::one();
    let mut frequency = Fixed::one();
    let mut i: i32 = 0;
    while i < octaves
        invariant
            0 <= i,
            i <= octaves || (octaves < 0 && i == 0),
            value@ == fractal_noise(x@, y@, i as int),
            amplitude@ == octave_amplitude(i as nat),
            frequency@ == octave_frequency(i as nat),
        decreases octaves - i,
    {
        let term = scaled_noise(x, y, amplitude, frequency);
        assert(term@ == octave(x@, y@, i as nat));
        assert(fractal_noise(x@, y@, i + 1) == saturate(
            fractal_noise(x@, y@, i as int) + octave(x@, y@, i as nat),
        ));
        value = value.add(term);
        frequency = frequency.mul(Fixed::from_int(2));
        amplitude = amplitude.mul(Fixed::from_raw(HALF));
        i = i + 1;
    }
    value
}

/// The surface of a gas giant at a fragment: the base color, brightened
/// or darkened by between 0.7 and 1.3 along bands that move with time.
pub fn gaseous_shader(fragment: &Fragment, base_color: Color, time: Fixed) -> (c: Color)
    ensures
        c == base_color.scaled(gaseous_factor(fragment.x as int, fragment.y as int, time@)),
        GAS_FLOOR <= gaseous_factor(fragment.x as int, fragment.y as int, time@) <= GAS_FLOOR
            + SIX_TENTHS,
{
    let x = Fixed::from_int(fragment.x);
    let y = Fixed::from_int(fragment.y);
    let half = Fixed::from_raw(HALF);
    let phase = y.mul(Fixed::from_raw(DETAIL_SCALE)).add(time.mul(half));
    let bands = sin(phase).mul(half).add(half);
    let turbulence = fbm(
        x.mul(Fixed::from_raw(TURBULENCE_SCALE)).add(time),
        y.mul(Fixed::from_raw(TURBULENCE_SCALE)),
        3,
    );
    let pattern = bands.add(turbulence.mul(Fixed::from_raw(TURBULENCE_WEIGHT))).clamp(
        Fixed::zero(),
        Fixed::one(),
    );
    proof {
        lemma_mul_bounds(pattern@, 39322, 65536, 39322);
        assert(0 <= pattern@ * 39322) by (nonlinear_arith)
            requires
                0 <= pattern@,
        ;
    }
    let color_variation = Fixed::from_raw(GAS_FLOOR).add(pattern.mul(Fixed::from_raw(SIX_TENTHS)));
    base_color.scale(color_variation)
}

/// The surface of a rocky planet at a fragment: the base color, mottled
/// by noise to between 0.6 and 1.35 of itself, and darkened by half in
/// craters.
pub fn rocky_shader(fragment: &Fragment, base_color: Color) -> (c: Color)
    ensures
        c == base_color.scaled(rocky_factor(fragment.x as int, fragment.y as int)),
        SIX_TENTHS / 2 <= rocky_factor(fragment.x as int, fragment.y as int) <= SIX_TENTHS + 15
            * ROCK_WEIGHT / 8,
{
    proof {
        let px = saturate(fragment.x * ONE);
        let py = saturate(fragment.y * ONE);
        let rx = product(px, ROCK_SCALE as int);
        let ry = product(py, ROCK_SCALE as int);
        lemma_fractal_noise_range(rx, ry, 4);
        lemma_amplitude_halves(0);
        lemma_product_range(
            fractal_noise(rx, ry, 4),
            ROCK_WEIGHT as int,
            15 * ONE / 8,
            ROCK_WEIGHT as int,
        );
        let top = SIX_TENTHS + 15 * ROCK_WEIGHT / 8;
        let inner = saturate(product(fractal_noise(rx, ry, 4), ROCK_WEIGHT as int) + SIX_TENTHS);
        lemma_product_range(inner, HALF as int, top, HALF as int);
        lemma_product_range(SIX_TENTHS as int, HALF as int, inner, HALF as int);
        lemma_product_range(inner, ONE as int, top, ONE as int);
        lemma_product_range(SIX_TENTHS as int, ONE as int, inner, ONE as int);
    }
    let x = Fixed::from_int(fragment.x);
    let y = Fixed::from_int(fragment.y);
    let rock_noise = fbm(x.mul(Fixed::from_raw(ROCK_SCALE)), y.mul(Fixed::from_raw(ROCK_SCALE)), 4);
    let crater_noise = noise(x.mul(Fixed::from_raw(DETAIL_SCALE)), y.mul(Fixed::from_raw(DETAIL_SCALE)));
    let craters = if crater_noise.raw > CRATER_THRESHOLD {
        Fixed::from_raw(HALF)
    } else {
        Fixed::one()
    };
    let pattern = rock_noise.mul(Fixed::from_raw(ROCK_WEIGHT)).add(Fixed::from_raw(SIX_TENTHS)).mul(
        craters,
    );
    base_color.scale(pattern)
}

/// The surface of the sun at a fragment: the base color, flickering with
/// time between 0.9 and 1.2 of itself, each channel saturating at its
/// top.
pub fn sun_shader(fragment: &Fragment, base_color: Color, time: Fixed) -> (c: Color)
    ensures
        c == base_color.scaled(sun_factor(fragment.x as int, fragment.y as int, time@)),
        SUN_FLOOR <= sun_factor(fragment.x as int, fragment.y as int, time@) <= SUN_FLOOR + 3
            * ACTIVITY_WEIGHT / 2,
{
    proof {
        let px = saturate(fragment.x * ONE);
        let py = saturate(fragment.y * ONE);
        let ax = saturate(product(px, DETAIL_SCALE as int) + product(time@, 2 * ONE));
        let ay = saturate(product(py, DETAIL_SCALE as int) + product(time@, DRIFT as int));
        lemma_fractal_noise_range(ax, ay, 2);
        lemma_amplitude_halves(0);
        lemma_product_range(
            fractal_noise(ax, ay, 2),
            ACTIVITY_WEIGHT as int,
            3 * ONE / 2,
            ACTIVITY_WEIGHT as int,
        );
    }
    let x = Fixed::from_int(fragment.x);
    let y = Fixed::from_int(fragment.y);
    let activity = fbm(
        x.mul(Fixed::from_raw(DETAIL_SCALE)).add(time.mul(Fixed::from_int(2))),
        y.mul(Fixed::from_raw(DETAIL_SCALE)).add(time.mul(Fixed::from_raw(DRIFT))),
        2,
    );
    let intensity = Fixed::from_raw(SUN_FLOOR).add(activity.mul(Fixed::from_raw(ACTIVITY_WEIGHT)));
    base_color.scale(intensity)
}

} // verus!
