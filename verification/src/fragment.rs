//! Shaded pixels on their way to the frame buffer, and their depth.
use vstd::prelude::*;
use crate::color::Color;
use crate::fixed::{Fixed, clamped};

verus! {

/// The greatest depth, 32768, in fine units of 2^-32.
pub const DEPTH_LIMIT: i64 = 0x8000_0000_0000;

/// `v` brought between minus and plus the greatest depth.
pub open spec fn depth_clamp(v: int) -> int {
    clamped(v, -(DEPTH_LIMIT as int), DEPTH_LIMIT as int)
}

/// A depth on the screen, where smaller is nearer. `raw` counts fine
/// units of 2^-32: after the perspective divide the depths of a whole
/// scene lie close together, and the raw grid of the other numbers would
/// not tell them apart.
#[derive(Clone, Copy, Debug, PartialEq, Eq, Structural)]
pub struct Depth {
    pub raw: i64,
}

impl View for Depth {
    type V = int;

    /// The depth in fine units, as a mathematical integer.
    open spec fn view(&self) -> int {
        self.raw as int
    }
}

impl Depth {
    /// The depth of the given value in fine units, which must be in
    /// range.
    pub open spec fn of(raw: int) -> Depth {
        Depth { raw: raw as i64 }
    }

    /// The depth of the given value in fine units.
    pub fn from_raw(raw: i64) -> (d: Depth)
        ensures
            d@ == raw,
    {
        Depth { raw }
    }

    /// The depth of the same value as a fixed-point number.
    pub fn from_fixed(value: Fixed) -> (d: Depth)
        ensures
            d@ == value@ * 65536,
    {
        Depth { raw: value.raw as i64 * 65536 }
    }

    /// Brings a wide value between minus and plus the greatest depth.
    pub fn clamp(v: i128) -> (d: Depth)
        ensures
            d@ == depth_clamp(v as int),
    {
        if v < -0x8000_0000_0000 {
            Depth { raw: -0x8000_0000_0000 }
        } else if v > 0x8000_0000_0000 {
            Depth { raw: 0x8000_0000_0000 }
        } else {
            Depth { raw: v as i64 }
        }
    }
}

/// One shaded pixel: its column and row on the screen, its color, and its
/// depth.
#[derive(Clone, Copy, Debug, PartialEq, Eq, Structural)]
pub struct Fragment {
    pub x: i32,
    pub y: i32,
    pub color: Color,
    pub depth: Depth,
}

impl Fragment {
    /// The fragment at column `x` and row `y`.
    pub fn new(x: i32, y: i32, color: Color, depth: Depth) -> (f: Fragment)
        ensures
            f == (Fragment { x, y, color, depth }),
    {
        Fragment { x, y, color, depth }
    }
}

} // verus!
