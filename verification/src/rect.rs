//! Axis-aligned rectangles with integer dimensions.

use vstd::prelude::*;

verus! {

/// A rectangle described by its width and height in pixels.
#[derive(Debug, PartialEq, Eq, Structural)]
pub struct Rectangle {
    pub width: u32,
    pub height: u32,
}

impl Rectangle {
    /// The area of the rectangle.
    pub fn area(&self) -> (a: u32)
        requires
            self.width * self.height <= u32::MAX,
        ensures
            a == self.width * self.height,
    {
        self.width * self.height
    }

    /// Replaces the width, leaving the height unchanged.
    pub fn set_width(&mut self, width: u32)
        ensures
            final(self).width == width,
            final(self).height == old(self).height,
    {
        self.width = width;
    }

    /// True when `other` fits strictly inside `self` in both dimensions.
    pub fn can_hold(&self, other: &Rectangle) -> (b: bool)
        ensures
            b == (self.width > other.width && self.height > other.height),
    {
        self.width > other.width && self.height > other.height
    }

    /// A square with the given side length.
    pub fn square(size: u32) -> (r: Rectangle)
        ensures
            r.width == size,
            r.height == size,
    {
        Rectangle { width: size, height: size }
    }

    /// The componentwise maximum of two rectangles.
    pub fn max(self, other: Rectangle) -> (r: Rectangle)
        ensures
            r.width == if self.width >= other.width { self.width } else { other.width },
            r.height == if self.height >= other.height { self.height } else { other.height },
    {
        Rectangle {
            width: if self.width >= other.width { self.width } else { other.width },
            height: if self.height >= other.height { self.height } else { other.height },
        }
    }
}

/// The area of a rectangle, as a free function.
pub fn area(rect: &Rectangle) -> (a: u32)
    requires
        rect.width * rect.height <= u32::MAX,
    ensures
        a == rect.width * rect.height,
{
    rect.width * rect.height
}

} // verus!
