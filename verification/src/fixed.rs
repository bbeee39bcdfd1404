//! Q16.16 fixed-point numbers with saturating, total arithmetic.
use vstd::prelude::*;

verus! {

/// The raw value of the number one.
pub const ONE: i32 = 65536;

/// The raw value of one half.
pub const HALF: i32 = 32768;

/// The nearest raw value inside the representable range.
pub open spec fn saturate(v: int) -> int {
    if v < i32::MIN {
        i32::MIN as int
    } else if v > i32::MAX {
        i32::MAX as int
    } else {
        v
    }
}

/// `v` brought into `[lo, hi]`, the lower end winning where the two cross.
pub open spec fn clamped(v: int, lo: int, hi: int) -> int {
    if v < lo {
        lo
    } else if v > hi {
        hi
    } else {
        v
    }
}

/// The quotient `n / d` rounded toward zero.
pub open spec fn trunc_div(n: int, d: int) -> int
    recommends
        d != 0,
{
    if d > 0 {
        if n >= 0 {
            n / d
        } else {
            -((-n) / d)
        }
    } else {
        if n >= 0 {
            -(n / (-d))
        } else {
            (-n) / (-d)
        }
    }
}

/// Raw value of the fixed-point product of two raw values.
pub open spec fn product(a: int, b: int) -> int {
    saturate(trunc_div(a * b, ONE as int))
}

/// Raw value of the fixed-point quotient of two raw values. A zero divisor
/// gives the end of the range on the side of the dividend's sign, and zero
/// for zero over zero.
pub open spec fn quotient(a: int, b: int) -> int {
    if b == 0 {
        if a > 0 {
            i32::MAX as int
        } else if a < 0 {
            i32::MIN as int
        } else {
            0
        }
    } else {
        saturate(trunc_div(a * ONE, b))
    }
}

/// Whether `r` is the integer part of the square root of `n`.
pub open spec fn is_floor_sqrt(n: int, r: int) -> bool {
    0 <= r && r * r <= n < (r + 1) * (r + 1)
}

/// The integer part of the square root of `n`.
pub open spec fn floor_sqrt(n: int) -> int {
    choose|r: int| is_floor_sqrt(n, r)
}

/// The least integer whose square is at least `n`.
pub open spec fn ceil_sqrt(n: int) -> int {
    let r = floor_sqrt(n);
    if r * r == n {
        r
    } else {
        r + 1
    }
}

/// Squares grow with their non-negative argument.
pub proof fn lemma_square_monotonic(a: int, b: int)
    by (nonlinear_arith)
    requires
        0 <= a <= b,
    ensures
        a * a <= b * b,
{
}

/// At most one integer is the floor of a square root.
pub proof fn lemma_floor_sqrt_unique(n: int, r: int)
    requires
        is_floor_sqrt(n, r),
    ensures
        floor_sqrt(n) == r,
{
    let s = floor_sqrt(n);
    assert(is_floor_sqrt(n, s));
    if s < r {
        lemma_square_monotonic(s + 1, r);
    } else if r < s {
        lemma_square_monotonic(r + 1, s);
    }
}

/// The square root of zero is zero.
pub proof fn lemma_floor_sqrt_of_zero()
    ensures
        floor_sqrt(0) == 0,
{
    let z: int = 0;
    assert(z * z == 0 && (z + 1) * (z + 1) == 1) by (nonlinear_arith)
        requires
            z == 0,
    ;
    assert(is_floor_sqrt(0, z));
    lemma_floor_sqrt_unique(0, 0);
}

/// A product is bounded by the product of the bounds of its factors.
pub proof fn lemma_mul_bounds(a: int, b: int, m: int, n: int)
    by (nonlinear_arith)
    requires
        -m <= a <= m,
        -n <= b <= n,
    ensures
        -(m * n) <= a * b <= m * n,
{
}

/// Rounding toward zero never increases the magnitude of a quotient, and
/// stays within one of the exact value.
pub proof fn lemma_trunc_div_bounds(n: int, d: int)
    by (nonlinear_arith)
    requires
        d > 0,
    ensures
        n >= 0 ==> 0 <= trunc_div(n, d) * d <= n < (trunc_div(n, d) + 1) * d,
        n <= 0 ==> (trunc_div(n, d) - 1) * d < n <= trunc_div(n, d) * d <= 0,
{
    if n >= 0 {
        assert(n == d * (n / d) + n % d && 0 <= n % d < d);
    } else {
        assert(-n == d * ((-n) / d) + (-n) % d && 0 <= (-n) % d < d);
    }
}

/// Clamps a 64-bit value into the raw range.
pub fn saturate_i64(v: i64) -> (r: i32)
    ensures
        r == saturate(v as int),
{
    if v < -2147483648 {
        i32::MIN
    } else if v > 2147483647 {
        i32::MAX
    } else {
        v as i32
    }
}

/// Clamps a 128-bit value into the raw range.
pub fn saturate_i128(v: i128) -> (r: i32)
    ensures
        r == saturate(v as int),
{
    if v < -2147483648 {
        i32::MIN
    } else if v > 2147483647 {
        i32::MAX
    } else {
        v as i32
    }
}

/// Divides rounding toward zero.
pub fn div_toward_zero(n: i128, d: i128) -> (q: i128)
    requires
        d != 0,
        n > i128::MIN,
        d > i128::MIN,
    ensures
        q == trunc_div(n as int, d as int),
{
    if d > 0 {
        if n >= 0 {
            n / d
        } else {
            -((-n) / d)
        }
    } else {
        if n >= 0 {
            -(n / (-d))
        } else {
            (-n) / (-d)
        }
    }
}

/// Divides by a positive number, rounding down.
pub fn div_floor(n: i64, d: i64) -> (q: i64)
    requires
        d > 0,
    ensures
        q == (n as int) / (d as int),
{
    if n >= 0 {
        n / d
    } else {
        let m: i64 = -(n + 1);
        proof {
            lemma_negative_division(n as int, d as int);
        }
        -(m / d) - 1
    }
}

/// The remainder, from zero up to the divisor, of a division by a
/// positive number.
pub fn rem_floor(n: i64, d: i64) -> (r: i64)
    requires
        d > 0,
    ensures
        r == (n as int) % (d as int),
        0 <= r < d,
{
    if n >= 0 {
        n % d
    } else {
        let m: i64 = -(n + 1);
        proof {
            lemma_negative_division(n as int, d as int);
        }
        d - 1 - m % d
    }
}

/// Quotient and remainder of a negative dividend, by those of the
/// non-negative number `-(n + 1)`.
pub proof fn lemma_negative_division(n: int, d: int)
    requires
        n < 0,
        d > 0,
    ensures
        n / d == -((-(n + 1)) / d) - 1,
        n % d == d - 1 - (-(n + 1)) % d,
{
    let m = -(n + 1);
    let q = m / d;
    let r = m % d;
    vstd::arithmetic::div_mod::lemma_fundamental_div_mod(m, d);
    assert(n == (-q - 1) * d + (d - 1 - r)) by (nonlinear_arith)
        requires
            m == d * q + r,
            m == -(n + 1),
    ;
    vstd::arithmetic::div_mod::lemma_fundamental_div_mod_converse(n, d, -q - 1, d - 1 - r);
}

/// The integer part of the square root of `n`.
pub fn isqrt(n: u128) -> (r: u64)
    ensures
        r == floor_sqrt(n as int),
        is_floor_sqrt(n as int, r as int),
{
    let mut lo: u128 = 0;
    let mut hi: u128 = 0x1_0000_0000_0000_0000;
    assert(0x1_0000_0000_0000_0000 * 0x1_0000_0000_0000_0000 > n) by (nonlinear_arith)
        requires
            n <= 0xFFFF_FFFF_FFFF_FFFF_FFFF_FFFF_FFFF_FFFF,
    ;
    while hi - lo > 1
        invariant
            lo < hi <= 0x1_0000_0000_0000_0000,
            lo * lo <= n,
            n < hi * hi,
        decreases hi - lo,
    {
        let mid: u128 = lo + (hi - lo) / 2;
        assert(mid * mid <= 0xFFFF_FFFF_FFFF_FFFF * 0xFFFF_FFFF_FFFF_FFFF) by (nonlinear_arith)
            requires
                0 <= mid <= 0xFFFF_FFFF_FFFF_FFFF,
        ;
        let sq: u128 = mid * mid;
        if sq <= n {
            lo = mid;
        } else {
            hi = mid;
        }
    }
    proof {
        assert(hi == lo + 1);
        lemma_floor_sqrt_unique(n as int, lo as int);
    }
    lo as u64
}

/// The least integer whose square is at least `n`.
pub fn isqrt_ceil(n: u128) -> (r: u128)
    ensures
        r == ceil_sqrt(n as int),
        r * r >= n,
        r <= 0x1_0000_0000_0000_0000,
{
    let f: u64 = isqrt(n);
    let fw: u128 = f as u128;
    assert(fw * fw <= 0xFFFF_FFFF_FFFF_FFFF * 0xFFFF_FFFF_FFFF_FFFF) by (nonlinear_arith)
        requires
            fw <= 0xFFFF_FFFF_FFFF_FFFF,
    ;
    if fw * fw == n {
        fw
    } else {
        fw + 1
    }
}

/// A number in fine units: `raw` counts units of 2^-32. It serves where
/// a fraction multiplies a long way and the raw grid would show.
#[derive(Clone, Copy, Debug, PartialEq, Eq, Structural)]
pub struct Fine {
    pub raw: i64,
}

impl View for Fine {
    type V = int;

    /// The value in fine units, as a mathematical integer.
    open spec fn view(&self) -> int {
        self.raw as int
    }
}

impl Fine {
    /// The number of the given value in fine units, which must be in
    /// range.
    pub open spec fn of(raw: int) -> Fine {
        Fine { raw: raw as i64 }
    }

    /// The number of the given value in fine units.
    pub fn from_raw(raw: i64) -> (f: Fine)
        ensures
            f@ == raw,
    {
        Fine { raw }
    }

    /// The same value as a fixed-point number.
    pub fn from_fixed(value: Fixed) -> (f: Fine)
        ensures
            f@ == value@ * 65536,
    {
        Fine { raw: value.raw as i64 * 65536 }
    }
}

/// A Q16.16 fixed-point number: `raw` counts units of 1/65536.
#[derive(Clone, Copy, Debug, PartialEq, Eq, Structural)]
pub struct Fixed {
    pub raw: i32,
}

impl View for Fixed {
    type V = int;

    /// The raw value as a mathematical integer.
    open spec fn view(&self) -> int {
        self.raw as int
    }
}

impl Fixed {
    /// The number with the given raw value, which must be in range.
    pub open spec fn of(raw: int) -> Fixed
        recommends
            i32::MIN <= raw <= i32::MAX,
    {
        Fixed { raw: raw as i32 }
    }

    /// The number zero.
    pub fn zero() -> (r: Fixed)
        ensures
            r@ == 0,
    {
        Fixed { raw: 0 }
    }

    /// The number one.
    pub fn one() -> (r: Fixed)
        ensures
            r@ == ONE,
    {
        Fixed { raw: ONE }
    }

    /// The number with the given raw value.
    pub fn from_raw(raw: i32) -> (r: Fixed)
        ensures
            r@ == raw,
    {
        Fixed { raw }
    }

    /// The whole number `n`, saturated.
    pub fn from_int(n: i32) -> (r: Fixed)
        ensures
            r@ == saturate(n * ONE),
    {
        let wide: i64 = n as i64 * 65536;
        Fixed { raw: saturate_i64(wide) }
    }

    /// The whole number `n`, saturated.
    pub fn from_index(n: usize) -> (r: Fixed)
        ensures
            r@ == saturate(n * ONE),
    {
        if n > 32767 {
            Fixed { raw: i32::MAX }
        } else {
            Fixed { raw: (n as i32) * 65536 }
        }
    }

    /// The fraction `num / den`, rounded toward zero and saturated.
    pub fn from_ratio(num: i32, den: i32) -> (r: Fixed)
        ensures
            r@ == quotient(num as int, den as int),
    {
        Fixed { raw: num }.div(Fixed { raw: den })
    }

    /// The greatest whole number not above `self`.
    pub fn floor(self) -> (r: i32)
        ensures
            r == self@ / (ONE as int),
            r * ONE <= self@ < (r + 1) * ONE,
    {
        let v: i64 = self.raw as i64;
        if v >= 0 {
            (v / 65536) as i32
        } else {
            let up: i64 = (-v + 65535) / 65536;
            (-up) as i32
        }
    }

    /// The least whole number not below `self`.
    pub fn ceil(self) -> (r: i32)
        ensures
            r == -((-self@) / (ONE as int)),
            (r - 1) * ONE < self@ <= r * ONE,
    {
        let v: i64 = self.raw as i64;
        if v <= 0 {
            (-((-v) / 65536)) as i32
        } else {
            ((v + 65535) / 65536) as i32
        }
    }

    /// The saturated sum.
    pub fn add(self, other: Fixed) -> (r: Fixed)
        ensures
            r@ == saturate(self@ + other@),
    {
        Fixed { raw: saturate_i64(self.raw as i64 + other.raw as i64) }
    }

    /// The saturated difference.
    pub fn sub(self, other: Fixed) -> (r: Fixed)
        ensures
            r@ == saturate(self@ - other@),
    {
        Fixed { raw: saturate_i64(self.raw as i64 - other.raw as i64) }
    }

    /// The saturated negation.
    pub fn neg(self) -> (r: Fixed)
        ensures
            r@ == saturate(-self@),
    {
        Fixed { raw: saturate_i64(-(self.raw as i64)) }
    }

    /// The saturated absolute value.
    pub fn abs(self) -> (r: Fixed)
        ensures
            r@ == saturate(if self@ < 0 { -self@ } else { self@ }),
    {
        if self.raw < 0 {
            self.neg()
        } else {
            self
        }
    }

    /// The product, rounded toward zero and saturated.
    pub fn mul(self, other: Fixed) -> (r: Fixed)
        ensures
            r@ == product(self@, other@),
    {
        let a: i64 = self.raw as i64;
        let b: i64 = other.raw as i64;
        proof {
            lemma_mul_bounds(a as int, b as int, 2147483648, 2147483648);
        }
        let wide: i64 = a * b;
        let q: i128 = div_toward_zero(wide as i128, 65536);
        Fixed { raw: saturate_i128(q) }
    }

    /// The quotient, rounded toward zero and saturated; a zero divisor
    /// gives the end of the range on the side of the dividend's sign.
    pub fn div(self, other: Fixed) -> (r: Fixed)
        ensures
            r@ == quotient(self@, other@),
    {
        if other.raw == 0 {
            if self.raw > 0 {
                Fixed { raw: i32::MAX }
            } else if self.raw < 0 {
                Fixed { raw: i32::MIN }
            } else {
                Fixed { raw: 0 }
            }
        } else {
            let wide: i64 = self.raw as i64 * 65536;
            let q: i128 = div_toward_zero(wide as i128, other.raw as i128);
            Fixed { raw: saturate_i128(q) }
        }
    }

    /// The smaller of the two.
    pub fn min(self, other: Fixed) -> (r: Fixed)
        ensures
            r@ == if self@ <= other@ { self@ } else { other@ },
    {
        if self.raw <= other.raw {
            self
        } else {
            other
        }
    }

    /// The larger of the two.
    pub fn max(self, other: Fixed) -> (r: Fixed)
        ensures
            r@ == if self@ >= other@ { self@ } else { other@ },
    {
        if self.raw >= other.raw {
            self
        } else {
            other
        }
    }

    /// `self` brought into `[lo, hi]`: `lo` where `self` is below it,
    /// else `hi` where `self` is above it.
    pub fn clamp(self, lo: Fixed, hi: Fixed) -> (r: Fixed)
        ensures
            r@ == clamped(self@, lo@, hi@),
    {
        if self.raw < lo.raw {
            lo
        } else if self.raw > hi.raw {
            hi
        } else {
            self
        }
    }
}

} // verus!
