//! Integer geometry in app units (1/60 of a CSS pixel), with the rectangle
//! operations the layout pass needs: translation and intersection tests.

use vstd::prelude::*;

verus! {

/// Number of app units per CSS pixel.
pub const AU_PER_PX: i64 = 60;

/// Bound on every coordinate and extent handled by the layout pass, in app
/// units. Keeping all lengths within this bound lets sums of a handful of
/// them stay well inside `i64`.
pub const MAX_AU: i64 = 0x10_0000_0000;

/// Bound on a length expressed in whole CSS pixels: `MAX_AU / AU_PER_PX`.
pub const MAX_PX: i64 = 1145324612;

/// A point relative to the owning flow, in app units.
#[derive(Clone, Copy, Debug, PartialEq, Eq, Structural)]
pub struct Point {
    pub x: i64,
    pub y: i64,
}

/// A size in app units.
#[derive(Clone, Copy, Debug, PartialEq, Eq, Structural)]
pub struct Size {
    pub width: i64,
    pub height: i64,
}

/// An axis-aligned rectangle in app units.
#[derive(Clone, Copy, Debug, PartialEq, Eq, Structural)]
pub struct Rect {
    pub origin: Point,
    pub size: Size,
}

/// Per-side widths (margin, border or padding), in app units.
#[derive(Clone, Copy, Debug, PartialEq, Eq, Structural)]
pub struct SideOffsets {
    pub top: i64,
    pub right: i64,
    pub bottom: i64,
    pub left: i64,
}

pub open spec fn point_wf(p: Point) -> bool {
    &&& -MAX_AU <= p.x <= MAX_AU
    &&& -MAX_AU <= p.y <= MAX_AU
}

pub open spec fn size_wf(s: Size) -> bool {
    &&& -MAX_AU <= s.width <= MAX_AU
    &&& -MAX_AU <= s.height <= MAX_AU
}

pub open spec fn rect_wf(r: Rect) -> bool {
    &&& point_wf(r.origin)
    &&& size_wf(r.size)
}

/// The looser bound a rectangle satisfies after one translation: wide
/// enough for intersection tests to stay clear of overflow.
pub open spec fn rect_loosely_wf(r: Rect) -> bool {
    &&& -2 * MAX_AU <= r.origin.x <= 2 * MAX_AU
    &&& -2 * MAX_AU <= r.origin.y <= 2 * MAX_AU
    &&& size_wf(r.size)
}

pub open spec fn side_offsets_wf(s: SideOffsets) -> bool {
    &&& 0 <= s.top <= MAX_AU
    &&& 0 <= s.right <= MAX_AU
    &&& 0 <= s.bottom <= MAX_AU
    &&& 0 <= s.left <= MAX_AU
}

/// Whether two rectangles overlap: on both axes, each one's origin lies
/// strictly before the other's far edge.
pub open spec fn spec_intersects(a: Rect, b: Rect) -> bool {
    &&& a.origin.x < b.origin.x + b.size.width
    &&& b.origin.x < a.origin.x + a.size.width
    &&& a.origin.y < b.origin.y + b.size.height
    &&& b.origin.y < a.origin.y + a.size.height
}

/// The rectangle moved by the given offset.
pub open spec fn spec_translate(r: Rect, offset: Point) -> Rect {
    Rect {
        origin: Point { x: (r.origin.x + offset.x) as i64, y: (r.origin.y + offset.y) as i64 },
        size: r.size,
    }
}

impl Point {
    pub fn new(x: i64, y: i64) -> (r: Point)
        ensures
            r == (Point { x, y }),
    {
        Point { x, y }
    }
}

impl Size {
    pub fn new(width: i64, height: i64) -> (r: Size)
        ensures
            r == (Size { width, height }),
    {
        Size { width, height }
    }
}

impl Rect {
    pub fn new(x: i64, y: i64, width: i64, height: i64) -> (r: Rect)
        ensures
            r == (Rect { origin: Point { x, y }, size: Size { width, height } }),
    {
        Rect { origin: Point { x, y }, size: Size { width, height } }
    }

    /// The rectangle at the origin with zero size.
    pub fn zero() -> (r: Rect)
        ensures
            r == (Rect { origin: Point { x: 0, y: 0 }, size: Size { width: 0, height: 0 } }),
            rect_wf(r),
    {
        Rect { origin: Point { x: 0, y: 0 }, size: Size { width: 0, height: 0 } }
    }

    pub fn translate(&self, offset: &Point) -> (r: Rect)
        requires
            rect_wf(*self),
            point_wf(*offset),
        ensures
            r == spec_translate(*self, *offset),
            rect_loosely_wf(r),
    {
        Rect {
            origin: Point { x: self.origin.x + offset.x, y: self.origin.y + offset.y },
            size: self.size,
        }
    }

    pub fn intersects(&self, other: &Rect) -> (r: bool)
        requires
            rect_loosely_wf(*self),
            rect_loosely_wf(*other),
        ensures
            r == spec_intersects(*self, *other),
    {
        self.origin.x < other.origin.x + other.size.width
            && other.origin.x < self.origin.x + self.size.width
            && self.origin.y < other.origin.y + other.size.height
            && other.origin.y < self.origin.y + self.size.height
    }
}

impl SideOffsets {
    pub fn new(top: i64, right: i64, bottom: i64, left: i64) -> (r: SideOffsets)
        ensures
            r == (SideOffsets { top, right, bottom, left }),
    {
        SideOffsets { top, right, bottom, left }
    }

    pub fn zero() -> (r: SideOffsets)
        ensures
            r == (SideOffsets { top: 0, right: 0, bottom: 0, left: 0 }),
            side_offsets_wf(r),
    {
        SideOffsets { top: 0, right: 0, bottom: 0, left: 0 }
    }

    /// True when all four sides are zero.
    pub fn is_zero(&self) -> (r: bool)
        ensures
            r == (self.top == 0 && self.right == 0 && self.bottom == 0 && self.left == 0),
    {
        self.top == 0 && self.right == 0 && self.bottom == 0 && self.left == 0
    }
}

/// Converts whole CSS pixels to app units.
pub fn au_from_px(px: i64) -> (r: i64)
    requires
        -((MAX_AU as int) / (AU_PER_PX as int)) <= px <= (MAX_AU as int) / (AU_PER_PX as int),
    ensures
        r == px * AU_PER_PX,
{
    px * AU_PER_PX
}

/// Scales an app-unit length by a ratio given in hundredths, truncating
/// toward zero as integer division does.
pub fn scale_by_hundredths(au: i64, hundredths: i64) -> (r: i64)
    requires
        0 <= au <= MAX_AU,
        0 <= hundredths <= 10000,
    ensures
        r == au * hundredths / 100,
{
    proof {
        assert(0 <= au * hundredths <= MAX_AU * 10000) by (nonlinear_arith)
            requires
                0 <= au <= MAX_AU,
                0 <= hundredths <= 10000,
        ;
    }
    au * hundredths / 100
}

} // verus!
