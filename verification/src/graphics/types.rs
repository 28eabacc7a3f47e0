//! Colours, rectangles and texel formats.

use vstd::prelude::*;

verus! {

/// An RGBA colour with 8 bits per channel.
#[derive(Debug, Clone, Copy, PartialEq, Eq, Structural)]
pub struct Color {
    r: u8,
    g: u8,
    b: u8,
    a: u8,
}

impl Color {
    /// The red, green, blue and alpha channels.
    pub closed spec fn channels(self) -> (u8, u8, u8, u8) {
        (self.r, self.g, self.b, self.a)
    }

    /// An opaque colour from its red, green and blue channels.
    pub fn from_rgb(value: (u8, u8, u8)) -> (c: Self)
        ensures
            c.channels() == (value.0, value.1, value.2, 255u8),
    {
        Color { r: value.0, g: value.1, b: value.2, a: 255 }
    }

    /// The red, green, blue and alpha channels.
    pub fn rgba(&self) -> (r: (u8, u8, u8, u8))
        ensures
            r == self.channels(),
    {
        (self.r, self.g, self.b, self.a)
    }
}

/// An axis-aligned rectangle on a pixel grid.
#[derive(Debug, Clone, Copy, PartialEq, Eq, Structural)]
pub struct Rect {
    /// Row
    pub y: usize,
    /// Column
    pub x: usize,
    /// Height
    pub h: usize,
    /// Width
    pub w: usize,
}

/// Whether `[a, a + la)` and `[b, b + lb)` meet, in the strict sense that
/// [`Rect::overlap`] uses on each axis.
pub open spec fn spans_meet(a: int, la: int, b: int, lb: int) -> bool {
    a < b + lb && a + la > b
}

impl Rect {
    /// The far edges of the rectangle fit in `usize`.
    pub open spec fn fits(self) -> bool {
        self.x + self.w <= usize::MAX && self.y + self.h <= usize::MAX
    }

    /// Whether the two rectangles share at least one pixel.
    pub open spec fn meets(self, other: Rect) -> bool {
        spans_meet(self.x as int, self.w as int, other.x as int, other.w as int) && spans_meet(
            self.y as int,
            self.h as int,
            other.y as int,
            other.h as int,
        )
    }

    /// The empty rectangle at the origin.
    pub fn zero() -> (r: Self)
        ensures
            r == (Rect { y: 0, x: 0, h: 0, w: 0 }),
    {
        Self { y: 0, x: 0, h: 0, w: 0 }
    }

    /// A square of side `s` whose top-left corner is row `y`, column `x`.
    pub fn quad(y: usize, x: usize, s: usize) -> (r: Self)
        ensures
            r == (Rect { y, x, h: s, w: s }),
    {
        Self { y, x, h: s, w: s }
    }

    /// Whether the two rectangles share at least one pixel.
    pub fn overlap(&self, other: Self) -> (b: bool)
        requires
            self.fits(),
            other.fits(),
        ensures
            b == self.meets(other),
    {
        self.x < other.x + other.w && self.y < other.y + other.h && self.x + self.w > other.x
            && self.y + self.h > other.y
    }
}

/// Overlap does not depend on which of the two rectangles asks.
pub proof fn lemma_overlap_symmetric(a: Rect, b: Rect)
    ensures
        a.meets(b) == b.meets(a),
{
}

/// The zero rectangle overlaps nothing.
pub proof fn lemma_zero_overlaps_nothing(b: Rect)
    ensures
        !(Rect { y: 0, x: 0, h: 0, w: 0 }).meets(b),
        !b.meets(Rect { y: 0, x: 0, h: 0, w: 0 }),
{
}

/// A non-empty rectangle overlaps itself.
pub proof fn lemma_overlap_reflexive(a: Rect)
    ensures
        a.w > 0 && a.h > 0 ==> a.meets(a),
{
}

/// Texels with one 8-bit unsigned normalised channel.
pub struct UnormR8;

/// Texels with four 8-bit unsigned normalised channels.
pub struct UnormR8G8B8A8;

/// Texels with one 32-bit float channel.
pub struct FloatR32;

} // verus!
