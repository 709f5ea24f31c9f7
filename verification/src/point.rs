//! Pairs of coordinates of independent types.

use vstd::prelude::*;

verus! {

/// A point whose coordinates may differ in type.
pub struct Point<T, U> {
    pub x: T,
    pub y: U,
}

impl<T, U> Point<T, U> {
    /// The first coordinate.
    pub fn x(&self) -> (x: &T)
        ensures
            *x == self.x,
    {
        &self.x
    }

    /// The point with the first coordinate of `self` and the second of
    /// `other`.
    pub fn mixup<X, Y>(self, other: Point<X, Y>) -> (mixed: Point<T, Y>)
        ensures
            mixed.x == self.x,
            mixed.y == other.y,
    {
        Point { x: self.x, y: other.y }
    }
}

} // verus!
