//! A camera that follows a target while keeping its view inside optional bounds.
use vstd::prelude::*;
use crate::geometry::{floor_div, Rect, Vec2, in_coord_range};

verus! {

/// The extent of the camera's view around its position.
#[derive(Clone, Copy, Debug, PartialEq, Eq, Structural)]
pub struct Projection {
    pub left: i64,
    pub right: i64,
    pub bottom: i64,
    pub top: i64,
}

/// Which entity the camera follows, and the area its view must stay in (unbounded when
/// absent).
#[derive(Clone, Copy, Debug, PartialEq, Eq, Structural)]
pub struct CameraFollow {
    pub target: Option<u64>,
    pub bounds: Option<Rect>,
}

/// The camera coordinate on one axis: the target's, kept where the view stays within
/// `[lo, hi]`; the middle of the bounds when the view is wider than them.
pub open spec fn follow_axis(lo: int, hi: int, low_edge: int, high_edge: int, target: int) -> int {
    let min = lo - low_edge;
    let max = hi - high_edge;
    if max <= min {
        (lo + hi) / 2
    } else if target < min {
        min
    } else if target > max {
        max
    } else {
        target
    }
}

pub open spec fn follow_position(c: CameraFollow, p: Projection, target: Vec2) -> (int, int) {
    match c.bounds {
        None => (target.x as int, target.y as int),
        Some(b) => (
            follow_axis(b.min.x as int, b.max.x as int, p.left as int, p.right as int, target.x as int),
            follow_axis(b.min.y as int, b.max.y as int, p.bottom as int, p.top as int, target.y as int),
        ),
    }
}

pub open spec fn projection_in_range(p: Projection) -> bool {
    in_coord_range(p.left as int) && in_coord_range(p.right as int) && in_coord_range(p.bottom as int)
        && in_coord_range(p.top as int)
}

fn follow_axis_of(lo: i64, hi: i64, low_edge: i64, high_edge: i64, target: i64) -> (r: i64)
    requires
        in_coord_range(lo as int),
        in_coord_range(hi as int),
        in_coord_range(low_edge as int),
        in_coord_range(high_edge as int),
    ensures
        r == follow_axis(lo as int, hi as int, low_edge as int, high_edge as int, target as int),
{
    let min = lo - low_edge;
    let max = hi - high_edge;
    if max <= min {
        floor_div((lo as i128) + (hi as i128), 2) as i64
    } else if target < min {
        min
    } else if target > max {
        max
    } else {
        target
    }
}

impl CameraFollow {
    /// Follows nothing, with no bounds.
    pub fn default() -> (r: CameraFollow)
        ensures
            r.target is None,
            r.bounds is None,
    {
        CameraFollow { target: None, bounds: None }
    }

    /// Where the camera goes to follow a target at `target`.
    pub fn follow(&self, projection: &Projection, target: Vec2) -> (r: Vec2)
        requires
            projection_in_range(*projection),
            self.bounds matches Some(b) ==> in_coord_range(b.min.x as int) && in_coord_range(
                b.max.x as int,
            ) && in_coord_range(b.min.y as int) && in_coord_range(b.max.y as int),
        ensures
            (r.x as int, r.y as int) == follow_position(*self, *projection, target),
    {
        match self.bounds {
            None => target,
            Some(b) => Vec2 {
                x: follow_axis_of(b.min.x, b.max.x, projection.left, projection.right, target.x),
                y: follow_axis_of(b.min.y, b.max.y, projection.bottom, projection.top, target.y),
            },
        }
    }
}

} // verus!
