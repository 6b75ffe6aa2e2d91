//! Rectangles and generic points.

use vstd::prelude::*;

verus! {

/// An axis-aligned rectangle given by its side lengths.
#[derive(Debug, Clone, Copy, PartialEq, Eq, Structural)]
pub struct Rectangle {
    pub width: u32,
    pub height: u32,
}

impl Rectangle {
    /// The area of the rectangle.
    pub fn area(&self) -> (r: u32)
        requires
            self.width * self.height <= u32::MAX,
        ensures
            r == self.width * self.height,
    {
        self.width * self.height
    }

    /// Whether the rectangle has a positive width.
    pub fn width(&self) -> (r: bool)
        ensures
            r == (self.width > 0),
    {
        self.width > 0
    }

    /// Whether `other` fits strictly inside `self` in both dimensions.
    pub fn can_hold(&self, other: &Rectangle) -> (r: bool)
        ensures
            r == (self.width > other.width && self.height > other.height),
    {
        self.width > other.width && self.height > other.height
    }

    /// The square with the given side length.
    pub fn square(size: u32) -> (r: Rectangle)
        ensures
            r.width == size,
            r.height == size,
    {
        Rectangle { width: size, height: size }
    }
}

/// The area of a rectangle given as two side lengths.
pub fn area(width: u32, height: u32) -> (r: u32)
    requires
        width * height <= u32::MAX,
    ensures
        r == width * height,
{
    width * height
}

/// The area of a rectangle given as a pair of side lengths.
pub fn area1(dimensions: (u32, u32)) -> (r: u32)
    requires
        dimensions.0 * dimensions.1 <= u32::MAX,
    ensures
        r == dimensions.0 * dimensions.1,
{
    dimensions.0 * dimensions.1
}

/// A point with both coordinates of one type.
pub struct Point<T> {
    pub x: T,
    pub y: T,
}

impl<T> Point<T> {
    /// Borrows the first coordinate.
    pub fn x(&self) -> (r: &T)
        ensures
            *r == self.x,
    {
        &self.x
    }
}

/// A point whose coordinates may have two different types.
pub struct Point2<X1, Y1> {
    pub x: X1,
    pub y: Y1,
}

impl<X1, Y1> Point2<X1, Y1> {
    /// Combines the first coordinate of `self` with the second of `other`.
    pub fn mixup<X2, Y2>(self, other: Point2<X2, Y2>) -> (r: Point2<X1, Y2>)
        ensures
            r.x == self.x,
            r.y == other.y,
    {
        Point2 { x: self.x, y: other.y }
    }
}

/// A pair of two values of one type.
pub struct Pair<T> {
    pub x: T,
    pub y: T,
}

impl<T> Pair<T> {
    /// Packs two values into a pair.
    pub fn new(x: T, y: T) -> (r: Pair<T>)
        ensures
            r.x == x,
            r.y == y,
    {
        Pair { x, y }
    }
}

} // verus!
