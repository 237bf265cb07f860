use vstd::prelude::*;

verus! {

/// Steps per unit of the playing field.
pub const UNIT: i64 = 1000;

/// Microseconds per second.
pub const MICROS_PER_SECOND: i64 = 1_000_000;

/// Largest magnitude of a coordinate that the simulation accepts.
pub const COORD_LIMIT: i64 = 1_000_000_000_000_000;

/// Largest frame duration, in microseconds, that the simulation accepts.
pub const MAX_ELAPSED: i64 = 1_000_000_000;

/// A two-dimensional vector of fixed-point coordinates.
#[derive(Debug, Clone, Copy, PartialEq, Eq, Structural)]
pub struct Vector2 {
    pub x: i64,
    pub y: i64,
}

/// Whether a value lies within the accepted coordinate range.
pub open spec fn in_range(v: int) -> bool {
    -COORD_LIMIT <= v <= COORD_LIMIT
}

impl Vector2 {
    pub fn new(x: i64, y: i64) -> (r: Self)
        ensures
            r.x == x,
            r.y == y,
    {
        Vector2 { x, y }
    }

    /// Componentwise sum.
    pub fn add(self, rhs: Vector2) -> (r: Vector2)
        requires
            in_range(self.x as int),
            in_range(self.y as int),
            in_range(rhs.x as int),
            in_range(rhs.y as int),
        ensures
            r.x == self.x + rhs.x,
            r.y == self.y + rhs.y,
    {
        Vector2::new(self.x + rhs.x, self.y + rhs.y)
    }

    /// Adds `rhs` to this vector in place.
    pub fn add_assign(&mut self, rhs: Vector2)
        requires
            in_range(old(self).x as int),
            in_range(old(self).y as int),
            in_range(rhs.x as int),
            in_range(rhs.y as int),
        ensures
            final(self).x == old(self).x + rhs.x,
            final(self).y == old(self).y + rhs.y,
    {
        self.x = self.x + rhs.x;
        self.y = self.y + rhs.y;
    }

    /// Componentwise multiplication by a scalar.
    pub fn scale(self, by: i64) -> (r: Vector2)
        requires
            i64::MIN <= self.x * by <= i64::MAX,
            i64::MIN <= self.y * by <= i64::MAX,
        ensures
            r.x == self.x * by,
            r.y == self.y * by,
    {
        Vector2::new(self.x * by, self.y * by)
    }
}

} // verus!

