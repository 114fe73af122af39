//! Axis-aligned rectangles in fixed-point milli-units: the window geometry
//! handed in by the host, and the padded regions derived from it.

use vstd::prelude::*;

use crate::math::COORD_LIMIT;

verus! {

/// An axis-aligned rectangle, in milli-units.
#[derive(Clone, Copy, PartialEq, Eq, Structural, Debug)]
pub struct Rect {
    pub left: i64,
    pub right: i64,
    pub bottom: i64,
    pub top: i64,
}

impl Rect {
    /// Non-degenerate and small enough for the simulation arithmetic.
    pub open spec fn wf(self) -> bool {
        &&& self.left <= self.right
        &&& self.bottom <= self.top
        &&& -COORD_LIMIT <= self.left
        &&& self.right <= COORD_LIMIT
        &&& -COORD_LIMIT <= self.bottom
        &&& self.top <= COORD_LIMIT
    }

    pub fn new(left: i64, right: i64, bottom: i64, top: i64) -> (r: Rect)
        requires
            left <= right,
            bottom <= top,
            -COORD_LIMIT <= left,
            right <= COORD_LIMIT,
            -COORD_LIMIT <= bottom,
            top <= COORD_LIMIT,
        ensures
            r == (Rect { left, right, bottom, top }),
            r.wf(),
    {
        Rect { left, right, bottom, top }
    }

    /// Shrinks the rectangle inward by `pad` milli-units on every side.
    pub fn pad(self, pad: i64) -> (r: Rect)
        requires
            self.wf(),
            0 <= pad,
            self.left + pad <= self.right - pad,
            self.bottom + pad <= self.top - pad,
        ensures
            r.left == self.left + pad,
            r.right == self.right - pad,
            r.bottom == self.bottom + pad,
            r.top == self.top - pad,
            r.wf(),
    {
        Rect {
            left: self.left + pad,
            right: self.right - pad,
            bottom: self.bottom + pad,
            top: self.top - pad,
        }
    }
}

} // verus!
