//! The attractor: a single point driven across a fixed bounding box by two
//! independent sinusoids of elapsed time.
//!
//! The host evaluates sin(t / 1.4) and sin(t / 2.0) and hands them in scaled
//! to [-SCALE, SCALE]; the update itself is exact integer range-mapping.

use vstd::prelude::*;

use crate::math::{spec_map_range, map_range, COORD_LIMIT};
use crate::rect::Rect;

verus! {

/// The attractor point together with the bounding box captured at
/// construction. The position never leaves the box.
#[derive(Clone, Copy, PartialEq, Eq, Structural, Debug)]
pub struct Point {
    pub x: i64,
    pub y: i64,
    pub min_x: i64,
    pub max_x: i64,
    pub min_y: i64,
    pub max_y: i64,
}

impl Point {
    /// Box bounds are ordered and small enough for the simulation
    /// arithmetic, and the position lies inside the box.
    pub open spec fn wf(self) -> bool {
        &&& self.min_x <= self.x <= self.max_x
        &&& self.min_y <= self.y <= self.max_y
        &&& -COORD_LIMIT <= self.min_x
        &&& self.max_x <= COORD_LIMIT
        &&& -COORD_LIMIT <= self.min_y
        &&& self.max_y <= COORD_LIMIT
    }

    /// The point after an update with scaled sine samples `s1` and `s2`:
    /// each axis is the sine range-mapped from [-1, 1] into the box.
    pub open spec fn spec_updated(self, s1: int, s2: int) -> Point {
        Point {
            x: spec_map_range(s1, self.min_x as int, self.max_x as int) as i64,
            y: spec_map_range(s2, self.min_y as int, self.max_y as int) as i64,
            ..self
        }
    }

    /// Creates the attractor at (x, y), bounded by `boundary` for the rest
    /// of its life.
    pub fn new(x: i64, y: i64, boundary: Rect) -> (r: Point)
        requires
            boundary.wf(),
            boundary.left <= x <= boundary.right,
            boundary.bottom <= y <= boundary.top,
        ensures
            r == (Point {
                x,
                y,
                min_x: boundary.left,
                max_x: boundary.right,
                min_y: boundary.bottom,
                max_y: boundary.top,
            }),
            r.wf(),
    {
        Point {
            x,
            y,
            min_x: boundary.left,
            max_x: boundary.right,
            min_y: boundary.bottom,
            max_y: boundary.top,
        }
    }

    /// Advances the attractor for one frame. `s1` and `s2` are
    /// sin(t / 1.4) and sin(t / 2.0) scaled to [-SCALE, SCALE]; each axis is
    /// mapped onto the box, so the new position is inside the box, exactly
    /// on an edge where the sine sample is exactly -SCALE or SCALE.
    pub fn update(&mut self, s1: i64, s2: i64)
        requires
            old(self).wf(),
            -1000 <= s1 <= 1000,
            -1000 <= s2 <= 1000,
        ensures
            *final(self) == old(self).spec_updated(s1 as int, s2 as int),
            final(self).wf(),
            final(self).min_x == old(self).min_x,
            final(self).max_x == old(self).max_x,
            final(self).min_y == old(self).min_y,
            final(self).max_y == old(self).max_y,
            s1 == -1000 ==> final(self).x == old(self).min_x,
            s1 == 1000 ==> final(self).x == old(self).max_x,
            s2 == -1000 ==> final(self).y == old(self).min_y,
            s2 == 1000 ==> final(self).y == old(self).max_y,
    {
        self.x = map_range(s1, self.min_x, self.max_x);
        self.y = map_range(s2, self.min_y, self.max_y);
    }
}

/// The update is a pure function of the sine samples and the box: two
/// attractors with the same bounding box end a frame at the same position,
/// whatever positions they held before.
pub proof fn lemma_update_deterministic(a: Point, b: Point, s1: int, s2: int)
    requires
        a.min_x == b.min_x,
        a.max_x == b.max_x,
        a.min_y == b.min_y,
        a.max_y == b.max_y,
    ensures
        a.spec_updated(s1, s2).x == b.spec_updated(s1, s2).x,
        a.spec_updated(s1, s2).y == b.spec_updated(s1, s2).y,
{
}

} // verus!
