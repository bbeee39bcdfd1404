//! Colors with 8-bit channels and saturating channel arithmetic.
use vstd::prelude::*;
use crate::fixed::{Fixed, ONE, trunc_div, lemma_mul_bounds, lemma_trunc_div_bounds, div_toward_zero};

verus! {

/// A color of four 8-bit channels.
#[derive(Clone, Copy, Debug, PartialEq, Eq, Structural)]
pub struct Color {
    pub r: u8,
    pub g: u8,
    pub b: u8,
    pub a: u8,
}

/// `v` brought into the range of a channel.
pub open spec fn channel_clamp(v: int) -> int {
    if v < 0 {
        0
    } else if v > 255 {
        255
    } else {
        v
    }
}

/// A channel value times a raw fixed-point factor, rounded toward zero and
/// brought into the range of a channel.
pub open spec fn scaled_channel(c: int, factor: int) -> int {
    channel_clamp(trunc_div(c * factor, ONE as int))
}

/// Brings a wide value into the range of a channel.
pub fn clamp_channel(v: i128) -> (r: u8)
    ensures
        r == channel_clamp(v as int),
{
    if v < 0 {
        0
    } else if v > 255 {
        255
    } else {
        v as u8
    }
}

/// Scales one channel by a fixed-point factor, saturating.
pub fn scale_channel(c: u8, factor: Fixed) -> (r: u8)
    ensures
        r == scaled_channel(c as int, factor@),
{
    proof {
        lemma_mul_bounds(c as int, factor@, 255, 2147483648);
    }
    let wide: i64 = c as i64 * factor.raw as i64;
    clamp_channel(div_toward_zero(wide as i128, 65536))
}

impl Color {
    /// An opaque color of the given red, green and blue.
    pub fn new(r: u8, g: u8, b: u8) -> (c: Color)
        ensures
            c == (Color { r, g, b, a: 255 }),
    {
        Color { r, g, b, a: 255 }
    }

    /// An opaque black.
    pub fn black() -> (c: Color)
        ensures
            c == (Color { r: 0, g: 0, b: 0, a: 255 }),
    {
        Color { r: 0, g: 0, b: 0, a: 255 }
    }

    /// The opaque color packed in `hex` as `0xRRGGBB`.
    pub open spec fn unpacked(hex: int) -> Color {
        Color {
            r: ((hex / 65536) % 256) as u8,
            g: ((hex / 256) % 256) as u8,
            b: (hex % 256) as u8,
            a: 255,
        }
    }

    /// Red, green and blue packed as `0xRRGGBB`.
    pub open spec fn packed(self) -> int {
        self.r * 65536 + self.g * 256 + self.b
    }

    /// The opaque color packed as `0xRRGGBB`; higher bits are ignored.
    pub fn from_hex(hex: u32) -> (c: Color)
        ensures
            c == Color::unpacked(hex as int),
            c.r == (hex / 65536) % 256,
            c.g == (hex / 256) % 256,
            c.b == hex % 256,
            c.a == 255,
    {
        Color {
            r: ((hex / 65536) % 256) as u8,
            g: ((hex / 256) % 256) as u8,
            b: (hex % 256) as u8,
            a: 255,
        }
    }

    /// The color packed as `0xRRGGBB`.
    pub fn to_hex(&self) -> (hex: u32)
        ensures
            hex == self.packed(),
            hex <= 0xFFFFFF,
    {
        self.r as u32 * 65536 + self.g as u32 * 256 + self.b as u32
    }

    /// The color with each of red, green and blue scaled by the raw
    /// factor, saturating at 0 and 255; alpha is kept.
    pub open spec fn scaled(self, factor: int) -> Color {
        Color {
            r: scaled_channel(self.r as int, factor) as u8,
            g: scaled_channel(self.g as int, factor) as u8,
            b: scaled_channel(self.b as int, factor) as u8,
            a: self.a,
        }
    }

    /// The color with each of red, green and blue scaled by `factor`,
    /// saturating at 0 and 255; alpha is kept.
    pub fn scale(&self, factor: Fixed) -> (c: Color)
        ensures
            c == self.scaled(factor@),
            c.r == scaled_channel(self.r as int, factor@),
            c.g == scaled_channel(self.g as int, factor@),
            c.b == scaled_channel(self.b as int, factor@),
            c.a == self.a,
    {
        Color {
            r: scale_channel(self.r, factor),
            g: scale_channel(self.g, factor),
            b: scale_channel(self.b, factor),
            a: self.a,
        }
    }
}

/// A factor between zero and one never brightens a channel, and the
/// factor one keeps it.
pub proof fn lemma_scaled_channel_bounds(c: int, factor: int)
    requires
        0 <= c <= 255,
        0 <= factor <= ONE,
    ensures
        0 <= scaled_channel(c, factor) <= c,
        scaled_channel(c, ONE as int) == c,
{
    assert(0 <= c * factor <= c * 65536) by (nonlinear_arith)
        requires
            0 <= c,
            0 <= factor <= 65536,
    ;
    lemma_trunc_div_bounds(c * factor, 65536);
    assert(c * 65536 / 65536 == c);
}

} // verus!
