//! Geometry primitives for layout negotiation: points, sizes, rectangles and
//! box constraints, together with the clamped integer arithmetic they rely on.
//!
//! All coordinates are `i64`. Sizes are non-negative once finalized; interim
//! constraint arithmetic that would go negative is clamped at zero before a
//! child ever sees it. Additions and subtractions saturate at the `i64` range
//! so that every operation is total and exactly specified.

use vstd::prelude::*;

verus! {

/// The `i64` nearest to the mathematical integer `v`.
pub open spec fn clamp_to_i64(v: int) -> i64 {
    if v > i64::MAX {
        i64::MAX
    } else if v < i64::MIN {
        i64::MIN
    } else {
        v as i64
    }
}

/// `a + b`, saturating at the `i64` range.
pub open spec fn spec_add_saturating(a: i64, b: i64) -> i64 {
    clamp_to_i64(a + b)
}

/// `a - b`, saturating at the `i64` range.
pub open spec fn spec_sub_saturating(a: i64, b: i64) -> i64 {
    clamp_to_i64(a - b)
}

/// `a - b`, clamped at zero: the shrink-then-clamp rule for constraint insets.
pub open spec fn shrunk_coord(a: i64, b: i64) -> i64 {
    if a > b {
        clamp_to_i64(a - b)
    } else {
        0
    }
}

/// `v` clamped into the interval `[lo, hi]`.
pub open spec fn clamp_coord(v: i64, lo: i64, hi: i64) -> i64 {
    if v < lo {
        lo
    } else if v > hi {
        hi
    } else {
        v
    }
}

/// Saturating addition on `i64`.
pub fn add_saturating(a: i64, b: i64) -> (r: i64)
    ensures
        r == spec_add_saturating(a, b),
{
    if b >= 0 {
        if a <= i64::MAX - b {
            a + b
        } else {
            i64::MAX
        }
    } else {
        if a >= i64::MIN - b {
            a + b
        } else {
            i64::MIN
        }
    }
}

/// Saturating subtraction on `i64`.
pub fn sub_saturating(a: i64, b: i64) -> (r: i64)
    ensures
        r == spec_sub_saturating(a, b),
{
    if b >= 0 {
        if a >= i64::MIN + b {
            a - b
        } else {
            i64::MIN
        }
    } else {
        if a <= i64::MAX + b {
            a - b
        } else {
            i64::MAX
        }
    }
}

/// Subtraction of non-negative coordinates, clamped at zero.
pub fn sub_to_zero(a: i64, b: i64) -> (r: i64)
    requires
        0 <= a,
        0 <= b,
    ensures
        r == shrunk_coord(a, b),
{
    if a > b {
        a - b
    } else {
        0
    }
}

/// A position, used both as an origin in a parent's coordinate space and as a
/// relative translation.
#[derive(Clone, Copy, PartialEq, Eq, Structural, Debug)]
pub struct Point {
    pub x: i64,
    pub y: i64,
}

impl Point {
    pub open spec fn spec_zero() -> Point {
        Point { x: 0, y: 0 }
    }

    /// This point translated forward by `d` (both axes, saturating).
    pub open spec fn spec_offset(self, d: Point) -> Point {
        Point { x: spec_add_saturating(self.x, d.x), y: spec_add_saturating(self.y, d.y) }
    }

    /// This point expressed relative to `origin` (both axes, saturating).
    pub open spec fn spec_relative_to(self, origin: Point) -> Point {
        Point { x: spec_sub_saturating(self.x, origin.x), y: spec_sub_saturating(self.y, origin.y) }
    }

    pub fn new(x: i64, y: i64) -> (r: Point)
        ensures
            r == (Point { x, y }),
    {
        Point { x, y }
    }

    pub fn zero() -> (r: Point)
        ensures
            r == Point::spec_zero(),
    {
        Point { x: 0, y: 0 }
    }

    pub fn offset(self, d: Point) -> (r: Point)
        ensures
            r == self.spec_offset(d),
    {
        Point { x: add_saturating(self.x, d.x), y: add_saturating(self.y, d.y) }
    }

    pub fn relative_to(self, origin: Point) -> (r: Point)
        ensures
            r == self.spec_relative_to(origin),
    {
        Point { x: sub_saturating(self.x, origin.x), y: sub_saturating(self.y, origin.y) }
    }
}

/// A width/height pair. A size is well formed once both components are
/// non-negative; constraint arithmetic clamps before constructing one for a
/// child, so no negative size ever crosses a widget boundary.
#[derive(Clone, Copy, PartialEq, Eq, Structural, Debug)]
pub struct Size {
    pub width: i64,
    pub height: i64,
}

impl Size {
    pub open spec fn wf(self) -> bool {
        self.width >= 0 && self.height >= 0
    }

    pub open spec fn spec_zero() -> Size {
        Size { width: 0, height: 0 }
    }

    pub fn new(width: i64, height: i64) -> (r: Size)
        ensures
            r == (Size { width, height }),
    {
        Size { width, height }
    }

}

/// The rectangle a node occupies in its parent's coordinate space: an origin
/// plus a size. Exactly one rectangle is cached per node, assigned once per
/// layout pass.
#[derive(Clone, Copy, PartialEq, Eq, Structural, Debug)]
pub struct Rect {
    pub origin: Point,
    pub size: Size,
}

impl Rect {
    pub open spec fn spec_zero() -> Rect {
        Rect { origin: Point::spec_zero(), size: Size::spec_zero() }
    }

    /// This rectangle translated forward by `d`, keeping its size.
    pub open spec fn spec_offset(self, d: Point) -> Rect {
        Rect { origin: self.origin.spec_offset(d), size: self.size }
    }

    pub fn from_origin_size(origin: Point, size: Size) -> (r: Rect)
        ensures
            r == (Rect { origin, size }),
    {
        Rect { origin, size }
    }

    pub fn zero() -> (r: Rect)
        ensures
            r == Rect::spec_zero(),
    {
        Rect { origin: Point { x: 0, y: 0 }, size: Size { width: 0, height: 0 } }
    }

    pub fn offset(self, d: Point) -> (r: Rect)
        ensures
            r == self.spec_offset(d),
    {
        Rect { origin: self.origin.offset(d), size: self.size }
    }
}

/// The range of sizes a parent will accept from a child: a minimum and a
/// maximum size, with `min <= max` on each axis. A degenerate range with
/// `min == max` is "tight" and forces an exact size.
#[derive(Clone, Copy, PartialEq, Eq, Structural, Debug)]
pub struct BoxConstraints {
    pub min: Size,
    pub max: Size,
}

impl BoxConstraints {
    pub open spec fn wf(self) -> bool {
        &&& self.min.wf()
        &&& self.max.wf()
        &&& self.min.width <= self.max.width
        &&& self.min.height <= self.max.height
    }

    /// Whether `s` lies within this range on both axes.
    pub open spec fn contains_size(self, s: Size) -> bool {
        &&& self.min.width <= s.width
        &&& s.width <= self.max.width
        &&& self.min.height <= s.height
        &&& s.height <= self.max.height
    }

    /// Both bounds reduced by `dw` horizontally and `dh` vertically, clamped
    /// at zero so a negative bound never reaches a child.
    pub open spec fn shrunk(self, dw: i64, dh: i64) -> BoxConstraints {
        BoxConstraints {
            min: Size {
                width: shrunk_coord(self.min.width, dw),
                height: shrunk_coord(self.min.height, dh),
            },
            max: Size {
                width: shrunk_coord(self.max.width, dw),
                height: shrunk_coord(self.max.height, dh),
            },
        }
    }

    /// `s` clamped into this range on both axes.
    pub open spec fn spec_constrain(self, s: Size) -> Size {
        Size {
            width: clamp_coord(s.width, self.min.width, self.max.width),
            height: clamp_coord(s.height, self.min.height, self.max.height),
        }
    }

    /// Construct a constraint range. Violating `min <= max` is a programming
    /// error, excluded by precondition rather than reported at run time.
    pub fn new(min: Size, max: Size) -> (r: BoxConstraints)
        requires
            min.wf(),
            max.wf(),
            min.width <= max.width,
            min.height <= max.height,
        ensures
            r == (BoxConstraints { min, max }),
            r.wf(),
    {
        BoxConstraints { min, max }
    }

    /// A tight range: the child's size is forced to exactly `size`.
    pub fn tight(size: Size) -> (r: BoxConstraints)
        requires
            size.wf(),
        ensures
            r == (BoxConstraints { min: size, max: size }),
            r.wf(),
    {
        BoxConstraints { min: size, max: size }
    }

    /// Subtract a fixed inset from both bounds on each axis, clamping at zero.
    pub fn shrink(&self, dw: i64, dh: i64) -> (r: BoxConstraints)
        requires
            self.wf(),
            0 <= dw,
            0 <= dh,
        ensures
            r == self.shrunk(dw, dh),
            r.wf(),
    {
        BoxConstraints {
            min: Size {
                width: sub_to_zero(self.min.width, dw),
                height: sub_to_zero(self.min.height, dh),
            },
            max: Size {
                width: sub_to_zero(self.max.width, dw),
                height: sub_to_zero(self.max.height, dh),
            },
        }
    }

    /// Clamp `s` into this range on both axes.
    pub fn constrain(&self, s: Size) -> (r: Size)
        requires
            self.wf(),
        ensures
            r == self.spec_constrain(s),
            r.wf(),
            self.contains_size(r),
    {
        let width: i64 = if s.width < self.min.width {
            self.min.width
        } else if s.width > self.max.width {
            self.max.width
        } else {
            s.width
        };
        let height: i64 = if s.height < self.min.height {
            self.min.height
        } else if s.height > self.max.height {
            self.max.height
        } else {
            s.height
        };
        Size { width, height }
    }
}

} // verus!
