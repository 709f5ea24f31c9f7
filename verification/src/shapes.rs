//! Axis-aligned rectangles with integer sides.

use vstd::prelude::*;

verus! {

/// A rectangle given by its two side lengths.
#[derive(Debug)]
pub struct Rectangle {
    pub width: u32,
    pub height: u32,
}

impl Rectangle {
    /// The area as a mathematical integer.
    pub open spec fn spec_area(&self) -> int {
        self.width * self.height
    }

    /// Whether `other` fits strictly inside `self` in both dimensions.
    pub open spec fn spec_can_hold(&self, other: &Rectangle) -> bool {
        self.width > other.width && self.height > other.height
    }

    /// Computes the area; the product must be representable.
    pub fn area(&self) -> (a: u32)
        requires
            self.spec_area() <= u32::MAX,
        ensures
            a == self.spec_area(),
    {
        self.width * self.height
    }

    /// Tells whether `rectangle` is strictly narrower and strictly lower.
    pub fn can_hold(&self, rectangle: &Rectangle) -> (fits: bool)
        ensures
            fits == self.spec_can_hold(rectangle),
    {
        self.width > rectangle.width && self.height > rectangle.height
    }

    /// The square with the given side.
    pub fn square(size: u32) -> (sq: Self)
        ensures
            sq.width == size,
            sq.height == size,
    {
        Self { width: size, height: size }
    }
}

/// The area of `rectangle`; the product must be representable.
pub fn area(rectangle: &Rectangle) -> (a: u32)
    requires
        rectangle.spec_area() <= u32::MAX,
    ensures
        a == rectangle.spec_area(),
{
    rectangle.width * rectangle.height
}

} // verus!
