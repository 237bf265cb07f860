use vstd::prelude::*;
use crate::math::COORD_LIMIT;

verus! {

/// An axis-aligned rectangle: top-left corner, width and height.
#[derive(Debug, Clone, Copy, PartialEq, Eq, Structural)]
pub struct Rect {
    pub x: i64,
    pub y: i64,
    pub w: i64,
    pub h: i64,
}

impl Rect {
    /// Whether the edges of the rectangle can be computed without overflow.
    pub open spec fn fits(&self) -> bool {
        -COORD_LIMIT <= self.x <= COORD_LIMIT
            && -COORD_LIMIT <= self.y <= COORD_LIMIT
            && -COORD_LIMIT <= self.w <= COORD_LIMIT
            && -COORD_LIMIT <= self.h <= COORD_LIMIT
    }

    pub open spec fn right_spec(&self) -> int {
        self.x + self.w
    }

    pub open spec fn bottom_spec(&self) -> int {
        self.y + self.h
    }

    /// Half-open containment: the left and top edges belong to the
    /// rectangle, the right and bottom edges do not.
    pub open spec fn contains_spec(&self, px: int, py: int) -> bool {
        self.x <= px < self.right_spec() && self.y <= py < self.bottom_spec()
    }

    pub fn new(x: i64, y: i64, w: i64, h: i64) -> (r: Rect)
        ensures
            r == (Rect { x, y, w, h }),
    {
        Rect { x, y, w, h }
    }

    pub fn left(&self) -> (r: i64)
        ensures
            r == self.x,
    {
        self.x
    }

    pub fn top(&self) -> (r: i64)
        ensures
            r == self.y,
    {
        self.y
    }

    pub fn right(&self) -> (r: i64)
        requires
            self.fits(),
        ensures
            r == self.right_spec(),
    {
        self.x + self.w
    }

    pub fn bottom(&self) -> (r: i64)
        requires
            self.fits(),
        ensures
            r == self.bottom_spec(),
    {
        self.y + self.h
    }

    /// Whether the point lies inside the rectangle, counting the left and
    /// top edges but not the right and bottom ones.
    pub fn contains(&self, px: i64, py: i64) -> (r: bool)
        requires
            self.fits(),
        ensures
            r == self.contains_spec(px as int, py as int),
    {
        px >= self.left() && px < self.right() && py < self.bottom() && py >= self.top()
    }
}

/// Whether `first` contains at least one corner of `second`.
pub open spec fn intersects_spec(first: Rect, second: Rect) -> bool {
    first.contains_spec(second.x as int, second.y as int)
        || first.contains_spec(second.right_spec(), second.y as int)
        || first.contains_spec(second.right_spec(), second.bottom_spec())
        || first.contains_spec(second.x as int, second.bottom_spec())
}

/// Corner-containment test: true when `first` contains one of the four
/// corners of `second`. It is not symmetric.
pub fn intersects(first: &Rect, second: &Rect) -> (r: bool)
    requires
        first.fits(),
        second.fits(),
    ensures
        r == intersects_spec(*first, *second),
{
    first.contains(second.left(), second.top())
        || first.contains(second.right(), second.top())
        || first.contains(second.right(), second.bottom())
        || first.contains(second.left(), second.bottom())
}

} // verus!
