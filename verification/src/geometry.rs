//! Integer geometry: points, colors and axis-aligned regions.
//!
//! A `Region` is used both for hit-testing (is the pointer inside a
//! widget?) and for clipping (suppress drawing outside a rectangle).
//! All coordinates are whole pixels.

use vstd::prelude::*;

verus! {

/// A position in some coordinate frame, in whole pixels.
#[derive(Clone, Copy, Debug, PartialEq, Eq, Structural)]
pub struct Point {
    pub x: i32,
    pub y: i32,
}

impl Point {
    pub fn new(x: i32, y: i32) -> (r: Point)
        ensures
            r.x == x,
            r.y == y,
    {
        Point { x, y }
    }
}

/// An RGBA color, one byte per channel.
#[derive(Clone, Copy, Debug, PartialEq, Eq, Structural)]
pub struct Color {
    pub r: u8,
    pub g: u8,
    pub b: u8,
    pub a: u8,
}

impl Color {
    pub fn new(r: u8, g: u8, b: u8, a: u8) -> (c: Color)
        ensures
            c.r == r,
            c.g == g,
            c.b == b,
            c.a == a,
    {
        Color { r, g, b, a }
    }
}

/// True when `v` can be stored in an `i32`.
pub open spec fn fits_i32(v: int) -> bool {
    i32::MIN <= v <= i32::MAX
}

/// An axis-aligned rectangle `{x, y, width, height}`, well formed when
/// both extents are non-negative.
#[derive(Clone, Copy, Debug, PartialEq, Eq, Structural)]
pub struct Region {
    pub x: i32,
    pub y: i32,
    pub width: i32,
    pub height: i32,
}

impl Region {
    /// Well-formedness: extents are never negative.
    pub open spec fn wf(self) -> bool {
        self.width >= 0 && self.height >= 0
    }

    /// Whether the point `(px, py)` lies inside the region.
    pub open spec fn spec_contains(self, px: int, py: int) -> bool {
        self.x <= px < self.x + self.width && self.y <= py < self.y + self.height
    }

    /// Whether every point of `self` is also a point of `outer`.
    pub open spec fn spec_subset_of(self, outer: Region) -> bool {
        forall|px: int, py: int| self.spec_contains(px, py) ==> outer.spec_contains(px, py)
    }

    /// The largest region contained in both `a` and `b`; empty (zero
    /// extents) when they do not overlap.
    pub open spec fn spec_intersect(a: Region, b: Region) -> Region {
        let x = if a.x >= b.x {
            a.x as int
        } else {
            b.x as int
        };
        let y = if a.y >= b.y {
            a.y as int
        } else {
            b.y as int
        };
        let right = if a.x + a.width <= b.x + b.width {
            a.x + a.width
        } else {
            b.x + b.width
        };
        let bottom = if a.y + a.height <= b.y + b.height {
            a.y + a.height
        } else {
            b.y + b.height
        };
        let w = if right - x >= 0 {
            right - x
        } else {
            0
        };
        let h = if bottom - y >= 0 {
            bottom - y
        } else {
            0
        };
        Region { x: x as i32, y: y as i32, width: w as i32, height: h as i32 }
    }

    pub fn new(x: i32, y: i32, width: i32, height: i32) -> (r: Region)
        requires
            width >= 0,
            height >= 0,
        ensures
            r == (Region { x, y, width, height }),
            r.wf(),
    {
        Region { x, y, width, height }
    }

    /// Hit test: true exactly when `p` lies inside the region.
    pub fn contains_point(&self, p: Point) -> (r: bool)
        ensures
            r == self.spec_contains(p.x as int, p.y as int),
    {
        let x = self.x as i64;
        let y = self.y as i64;
        let px = p.x as i64;
        let py = p.y as i64;
        x <= px && px < x + self.width as i64 && y <= py && py < y + self.height as i64
    }

    /// The intersection of two well-formed regions.
    pub fn intersect(&self, other: &Region) -> (r: Region)
        requires
            self.wf(),
            other.wf(),
        ensures
            r == Region::spec_intersect(*self, *other),
            r.wf(),
    {
        let x: i64 = if self.x >= other.x {
            self.x as i64
        } else {
            other.x as i64
        };
        let y: i64 = if self.y >= other.y {
            self.y as i64
        } else {
            other.y as i64
        };
        let sr: i64 = self.x as i64 + self.width as i64;
        let orr: i64 = other.x as i64 + other.width as i64;
        let sb: i64 = self.y as i64 + self.height as i64;
        let ob: i64 = other.y as i64 + other.height as i64;
        let right: i64 = if sr <= orr {
            sr
        } else {
            orr
        };
        let bottom: i64 = if sb <= ob {
            sb
        } else {
            ob
        };
        let w: i64 = if right - x >= 0 {
            right - x
        } else {
            0
        };
        let h: i64 = if bottom - y >= 0 {
            bottom - y
        } else {
            0
        };
        Region { x: x as i32, y: y as i32, width: w as i32, height: h as i32 }
    }
}

/// The intersection lies inside both of its arguments: narrowing a clip
/// region can only ever shrink it.
pub proof fn lemma_intersect_subset(a: Region, b: Region)
    requires
        a.wf(),
        b.wf(),
    ensures
        Region::spec_intersect(a, b).spec_subset_of(a),
        Region::spec_intersect(a, b).spec_subset_of(b),
        Region::spec_intersect(a, b).wf(),
{
}

impl Region {
    /// Grows the rectangle outward on all four sides: moves the origin
    /// out by `by` and widens both extents by `2 * by`.
    pub fn pad(self, by: i32) -> (r: Region)
        requires
            self.wf(),
            by >= 0,
            fits_i32(self.x - by),
            fits_i32(self.y - by),
            fits_i32(self.width + 2 * by),
            fits_i32(self.height + 2 * by),
        ensures
            r.x == self.x - by,
            r.y == self.y - by,
            r.width == self.width + 2 * by,
            r.height == self.height + 2 * by,
            r.wf(),
    {
        Region {
            x: self.x - by,
            y: self.y - by,
            width: self.width + 2 * by,
            height: self.height + 2 * by,
        }
    }
}

} // verus!
