//! Generic point types.

use vstd::prelude::*;

verus! {

/// A point whose two coordinates share one type.
pub struct Point<T> {
    x: T,
    y: T,
}

impl<T> Point<T> {
    /// The first coordinate.
    pub closed spec fn spec_x(&self) -> T {
        self.x
    }

    /// The second coordinate.
    pub closed spec fn spec_y(&self) -> T {
        self.y
    }

    /// A borrow of the first coordinate.
    pub fn x(&self) -> (r: &T)
        ensures
            *r == self.spec_x(),
    {
        &self.x
    }

    /// The point with the given coordinates.
    pub fn new(x: T, y: T) -> (r: Point<T>)
        ensures
            r.spec_x() == x,
            r.spec_y() == y,
    {
        Point { x, y }
    }
}

/// A point whose two coordinates may have different types.
pub struct MixedPoint<T, U> {
    pub x: T,
    pub y: U,
}

impl<T, U> MixedPoint<T, U> {
    /// Combine this point's first coordinate with another point's second.
    pub fn mixup<V, W>(self, other: MixedPoint<V, W>) -> (r: MixedPoint<T, W>)
        ensures
            r.x == self.x,
            r.y == other.y,
    {
        MixedPoint { x: self.x, y: other.y }
    }
}

} // verus!
