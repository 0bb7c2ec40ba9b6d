//! Axis-aligned geometry on fixed-point coordinates.
//!
//! All lengths are integers counted in sub-units: one world unit (the side of
//! one level tile) is `SUBUNITS_PER_UNIT` sub-units.
use vstd::prelude::*;
use vstd::arithmetic::div_mod::lemma_fundamental_div_mod_converse;

verus! {

/// Number of sub-units in one world unit (the side of one level tile).
pub const SUBUNITS_PER_UNIT: i64 = 16000;

/// Largest magnitude a coordinate of a simulated body may take.
pub const COORD_LIMIT: i64 = 4_000_000_000_000;

/// Whether an integer lies in the coordinate range that the simulation supports.
pub open spec fn in_coord_range(v: int) -> bool {
    -COORD_LIMIT <= v <= COORD_LIMIT
}

/// Floor of `a / d` for a positive divisor.
pub(crate) fn floor_div(a: i128, d: i128) -> (r: i128)
    requires
        d > 0,
        a > i128::MIN + d,
    ensures
        r == a as int / d as int,
{
    if a >= 0 {
        a / d
    } else {
        let q = (-a + d - 1) / d;
        proof {
            let qq = a as int / d as int;
            let rr = a as int % d as int;
            vstd::arithmetic::div_mod::lemma_fundamental_div_mod(a as int, d as int);
            assert(0 <= rr < d);
            assert(-a + d - 1 == (-qq) * d + (d - 1 - rr)) by (nonlinear_arith)
                requires
                    a as int == d * qq + rr,
            ;
            lemma_fundamental_div_mod_converse(-a + d - 1, d as int, -qq, d - 1 - rr);
        }
        -q
    }
}

/// A point or displacement in the plane, in sub-units. The y axis points up.
#[derive(Clone, Copy, Debug, PartialEq, Eq, Structural)]
pub struct Vec2 {
    pub x: i64,
    pub y: i64,
}

impl Vec2 {
    pub fn new(x: i64, y: i64) -> (r: Vec2)
        ensures
            r.x == x,
            r.y == y,
    {
        Vec2 { x, y }
    }

    pub fn zero() -> (r: Vec2)
        ensures
            r.x == 0,
            r.y == 0,
    {
        Vec2 { x: 0, y: 0 }
    }

    pub open spec fn is_zero(self) -> bool {
        self.x == 0 && self.y == 0
    }

    pub open spec fn in_range(self) -> bool {
        in_coord_range(self.x as int) && in_coord_range(self.y as int)
    }
}

/// An axis-aligned rectangle given by its lowest and highest corners.
#[derive(Clone, Copy, Debug, PartialEq, Eq, Structural)]
pub struct Rect {
    pub min: Vec2,
    pub max: Vec2,
}

impl Rect {
    /// The corners are ordered on both axes.
    pub open spec fn wf(self) -> bool {
        self.min.x <= self.max.x && self.min.y <= self.max.y
    }

    pub open spec fn spec_width(self) -> int {
        self.max.x - self.min.x
    }

    pub open spec fn spec_height(self) -> int {
        self.max.y - self.min.y
    }

    /// Closed-interval overlap on both axes: rectangles that only touch intersect.
    pub open spec fn spec_intersects(self, other: Rect) -> bool {
        self.min.x <= other.max.x && other.min.x <= self.max.x && self.min.y <= other.max.y
            && other.min.y <= self.max.y
    }

    pub open spec fn spec_contains(self, p: Vec2) -> bool {
        self.min.x <= p.x <= self.max.x && self.min.y <= p.y <= self.max.y
    }

    /// The rectangle moved by `amnt`, as integers.
    pub open spec fn translated_min(self, amnt: Vec2) -> (int, int) {
        (self.min.x + amnt.x, self.min.y + amnt.y)
    }

    /// A rectangle from its lowest corner and a size stretching toward positive x and y.
    pub fn from_min_size(min: Vec2, size: Vec2) -> (r: Rect)
        requires
            i64::MIN <= min.x + size.x <= i64::MAX,
            i64::MIN <= min.y + size.y <= i64::MAX,
        ensures
            r.min == min,
            r.max.x == min.x + size.x,
            r.max.y == min.y + size.y,
    {
        Rect { min, max: Vec2 { x: min.x + size.x, y: min.y + size.y } }
    }

    pub fn width(&self) -> (r: i64)
        requires
            self.wf(),
            self.max.x - self.min.x <= i64::MAX,
        ensures
            r == self.spec_width(),
    {
        self.max.x - self.min.x
    }

    pub fn height(&self) -> (r: i64)
        requires
            self.wf(),
            self.max.y - self.min.y <= i64::MAX,
        ensures
            r == self.spec_height(),
    {
        self.max.y - self.min.y
    }

    /// The same rectangle with both corners moved by `amnt`.
    pub fn translate(self, amnt: Vec2) -> (r: Rect)
        requires
            i64::MIN <= self.min.x + amnt.x <= i64::MAX,
            i64::MIN <= self.min.y + amnt.y <= i64::MAX,
            i64::MIN <= self.max.x + amnt.x <= i64::MAX,
            i64::MIN <= self.max.y + amnt.y <= i64::MAX,
        ensures
            r.min.x == self.min.x + amnt.x,
            r.min.y == self.min.y + amnt.y,
            r.max.x == self.max.x + amnt.x,
            r.max.y == self.max.y + amnt.y,
    {
        Rect {
            min: Vec2 { x: self.min.x + amnt.x, y: self.min.y + amnt.y },
            max: Vec2 { x: self.max.x + amnt.x, y: self.max.y + amnt.y },
        }
    }

    pub fn intersects(self, other: Rect) -> (r: bool)
        ensures
            r == self.spec_intersects(other),
    {
        self.min.x <= other.max.x && other.min.x <= self.max.x && self.min.y <= other.max.y
            && other.min.y <= self.max.y
    }

    pub fn contains(&self, p: Vec2) -> (r: bool)
        ensures
            r == self.spec_contains(p),
    {
        self.min.x <= p.x && p.x <= self.max.x && self.min.y <= p.y && p.y <= self.max.y
    }

    /// The middle of the rectangle, rounded down on each axis.
    pub fn center(&self) -> (r: Vec2)
        ensures
            r.x == (self.min.x + self.max.x) / 2,
            r.y == (self.min.y + self.max.y) / 2,
    {
        Vec2 {
            x: floor_div(self.min.x as i128 + self.max.x as i128, 2) as i64,
            y: floor_div(self.min.y as i128 + self.max.y as i128, 2) as i64,
        }
    }
}

} // verus!
