//! Lengths, points and axis-aligned rectangles on the sub-pixel grid.
use vstd::prelude::*;

verus! {

/// Number of grid units in one screen pixel. Chosen so that every speed of
/// the game (a quarter pixel, 9.1 / 30 pixels) is a whole number of units.
pub const UNITS_PER_PIXEL: i64 = 300;

/// Largest screen or texture extent the scenes accept.
pub const MAX_EXTENT: i64 = 0x100_0000_0000;

/// The length of `pixels` whole pixels.
pub fn px(pixels: i32) -> (units: i64)
    ensures
        units == pixels * UNITS_PER_PIXEL,
{
    let wide: i64 = pixels as i64;
    wide * UNITS_PER_PIXEL
}

/// Quotient of `a` by a positive `b`, rounded toward zero.
pub open spec fn trunc_div(a: int, b: int) -> int {
    if a >= 0 {
        a / b
    } else {
        -((-a) / b)
    }
}

/// Remainder of `a` by a positive `b` that goes with [`trunc_div`]: it has
/// the sign of `a` and a magnitude below `b`.
pub open spec fn trunc_rem(a: int, b: int) -> int {
    if a >= 0 {
        a % b
    } else {
        -((-a) % b)
    }
}

/// `v` held to the range of `i64`.
pub open spec fn saturate(v: int) -> i64 {
    if v > i64::MAX {
        i64::MAX
    } else if v < i64::MIN {
        i64::MIN
    } else {
        v as i64
    }
}

/// `v` held to `[lo, hi]`.
pub open spec fn clamp(v: int, lo: int, hi: int) -> int {
    if v < lo {
        lo
    } else if v > hi {
        hi
    } else {
        v
    }
}

/// Sum of two lengths, held to the range of `i64`.
pub fn saturating_sum(a: i64, b: i64) -> (sum: i64)
    ensures
        sum == saturate(a + b),
{
    match a.checked_add(b) {
        Some(v) => v,
        None => if b > 0 {
            i64::MAX
        } else {
            i64::MIN
        },
    }
}

/// A point or a displacement.
#[derive(Clone, Copy, Debug, PartialEq, Eq, Structural)]
pub struct Vec2 {
    pub x: i64,
    pub y: i64,
}

impl Vec2 {
    pub fn new(x: i64, y: i64) -> (v: Vec2)
        ensures
            v == (Vec2 { x, y }),
    {
        Vec2 { x, y }
    }

    /// The origin.
    pub fn zero() -> (v: Vec2)
        ensures
            v == (Vec2 { x: 0, y: 0 }),
    {
        Vec2 { x: 0, y: 0 }
    }
}

/// A rectangle of the plane over the unbounded integers: what a [`Rect`]
/// stands for, and what it becomes when moved beyond the range of `i64`.
pub struct Region {
    pub x: int,
    pub y: int,
    pub w: int,
    pub h: int,
}

impl Region {
    /// The region moved by `(dx, dy)`.
    pub open spec fn shifted(self, dx: int, dy: int) -> Region {
        Region { x: self.x + dx, y: self.y + dy, w: self.w, h: self.h }
    }

    /// Whether the interiors of the two regions meet. Regions that share
    /// only an edge do not overlap.
    pub open spec fn overlaps(self, other: Region) -> bool {
        &&& self.x < other.x + other.w
        &&& self.x + self.w > other.x
        &&& self.y < other.y + other.h
        &&& self.y + self.h > other.y
    }

    /// Whether the point lies in the region, its left and top edges
    /// included, its right and bottom edges not.
    pub open spec fn contains(self, px: int, py: int) -> bool {
        &&& px >= self.x
        &&& px < self.x + self.w
        &&& py < self.y + self.h
        &&& py >= self.y
    }
}

/// An axis-aligned rectangle: top-left corner, width and height.
#[derive(Clone, Copy, Debug, PartialEq, Eq, Structural)]
pub struct Rect {
    pub x: i64,
    pub y: i64,
    pub w: i64,
    pub h: i64,
}

impl View for Rect {
    type V = Region;

    open spec fn view(&self) -> Region {
        Region { x: self.x as int, y: self.y as int, w: self.w as int, h: self.h as int }
    }
}

impl Rect {
    pub fn new(x: i64, y: i64, w: i64, h: i64) -> (r: Rect)
        ensures
            r == (Rect { x, y, w, h }),
    {
        Rect { x, y, w, h }
    }

    /// Whether `point` lies in the rectangle; the right and bottom edges
    /// are outside.
    pub fn contains(&self, point: Vec2) -> (inside: bool)
        ensures
            inside == self@.contains(point.x as int, point.y as int),
    {
        let x: i128 = point.x as i128;
        let y: i128 = point.y as i128;
        let left: i128 = self.x as i128;
        let top: i128 = self.y as i128;
        x >= left && x < left + self.w as i128 && y < top + self.h as i128 && y >= top
    }
}

/// Width and height of a texture.
#[derive(Clone, Copy, Debug, PartialEq, Eq, Structural)]
pub struct Size {
    pub width: i64,
    pub height: i64,
}

impl Size {
    pub fn new(width: i64, height: i64) -> (size: Size)
        ensures
            size == (Size { width, height }),
    {
        Size { width, height }
    }

    /// The size of a texture that can be drawn: neither side is negative
    /// or beyond the largest extent.
    pub open spec fn drawable(self) -> bool {
        &&& 0 <= self.width <= MAX_EXTENT
        &&& 0 <= self.height <= MAX_EXTENT
    }

    /// The size of a texture that can be drawn side by side with itself:
    /// it can be drawn and has a width.
    pub open spec fn tileable(self) -> bool {
        self.drawable() && self.width > 0
    }

    /// Tests [`Size::drawable`].
    pub fn is_drawable(&self) -> (ok: bool)
        ensures
            ok == self.drawable(),
    {
        0 <= self.width && self.width <= MAX_EXTENT && 0 <= self.height && self.height
            <= MAX_EXTENT
    }

    /// Tests [`Size::tileable`].
    pub fn is_tileable(&self) -> (ok: bool)
        ensures
            ok == self.tileable(),
    {
        self.is_drawable() && self.width > 0
    }
}

/// Whether two spans of a line, each given by its start and its length
/// and taken without their end points, meet.
pub open spec fn spans_meet(a: int, a_len: int, b: int, b_len: int) -> bool {
    a < b + b_len && a + a_len > b
}

/// Decides [`spans_meet`] for spans whose ends stay far inside `i128`.
pub(crate) fn spans_overlap(a: i128, a_len: i128, b: i128, b_len: i128) -> (meet: bool)
    requires
        -0x4_0000_0000_0000_0000 <= a <= 0x4_0000_0000_0000_0000,
        -0x4_0000_0000_0000_0000 <= a_len <= 0x4_0000_0000_0000_0000,
        -0x4_0000_0000_0000_0000 <= b <= 0x4_0000_0000_0000_0000,
        -0x4_0000_0000_0000_0000 <= b_len <= 0x4_0000_0000_0000_0000,
    ensures
        meet == spans_meet(a as int, a_len as int, b as int, b_len as int),
{
    a < b + b_len && a + a_len > b
}

} // verus!
