//! Plane geometry on fixed-point coordinates: points and axis-aligned
//! rectangles, with the overlap and hit tests the label engine needs.

use vstd::prelude::*;

verus! {

use crate::fixed::{abs_val, fp_in_range};

/// A position in render space.
#[derive(Clone, Copy, Debug, PartialEq, Eq, Structural)]
pub struct Point {
    pub x: i64,
    pub y: i64,
}

impl Point {
    pub open spec fn wf(self) -> bool {
        fp_in_range(self.x as int) && fp_in_range(self.y as int)
    }
}

/// An axis-aligned rectangle: a center and two half-extents.
#[derive(Clone, Copy, Debug, PartialEq, Eq, Structural)]
pub struct Rect {
    pub cx: i64,
    pub cy: i64,
    pub hw: i64,
    pub hh: i64,
}

impl Rect {
    pub open spec fn wf(self) -> bool {
        &&& fp_in_range(self.cx as int)
        &&& fp_in_range(self.cy as int)
        &&& 0 <= self.hw <= i64::MAX / 2
        &&& 0 <= self.hh <= i64::MAX / 2
    }

    /// Two rectangles overlap when both extents intersect with positive
    /// area; rectangles that merely touch along an edge do not overlap.
    pub open spec fn overlaps_spec(self, o: Rect) -> bool {
        &&& abs_val(self.cx - o.cx) < self.hw + o.hw
        &&& abs_val(self.cy - o.cy) < self.hh + o.hh
    }

    /// A point on the boundary still counts as contained.
    pub open spec fn contains_spec(self, p: Point) -> bool {
        &&& abs_val(p.x - self.cx) <= self.hw
        &&& abs_val(p.y - self.cy) <= self.hh
    }

    /// Build a rectangle from its center and its full width and height.
    pub fn from_center(center: Point, w: i64, h: i64) -> (r: Rect)
        requires
            center.wf(),
            0 <= w,
            0 <= h,
        ensures
            r.cx == center.x,
            r.cy == center.y,
            r.hw == w as int / 2,
            r.hh == h as int / 2,
            r.wf(),
    {
        Rect { cx: center.x, cy: center.y, hw: ((w as u64) / 2) as i64, hh: ((h as u64) / 2) as i64 }
    }

    /// The center as a point.
    pub fn center(&self) -> (r: Point)
        ensures
            r.x == self.cx,
            r.y == self.cy,
    {
        Point { x: self.cx, y: self.cy }
    }

    /// The axis-aligned overlap test.
    pub fn overlaps(&self, o: &Rect) -> (r: bool)
        requires
            self.wf(),
            o.wf(),
        ensures
            r == self.overlaps_spec(*o),
    {
        let dx: i64 = if self.cx >= o.cx {
            self.cx - o.cx
        } else {
            o.cx - self.cx
        };
        let dy: i64 = if self.cy >= o.cy {
            self.cy - o.cy
        } else {
            o.cy - self.cy
        };
        dx < self.hw + o.hw && dy < self.hh + o.hh
    }

    /// The inclusive point-in-rectangle test.
    pub fn contains(&self, p: Point) -> (r: bool)
        requires
            self.wf(),
            p.wf(),
        ensures
            r == self.contains_spec(p),
    {
        let dx: i64 = if p.x >= self.cx {
            p.x - self.cx
        } else {
            self.cx - p.x
        };
        let dy: i64 = if p.y >= self.cy {
            p.y - self.cy
        } else {
            self.cy - p.y
        };
        dx <= self.hw && dy <= self.hh
    }
}

} // verus!
