//! An axis-aligned rectangle with verified geometric operations.

use vstd::prelude::*;

verus! {

#[derive(Clone, Copy, Debug, PartialEq, Eq, Structural)]
pub struct Rectangle {
    pub width: u32,
    pub height: u32,
}

impl Rectangle {
    /// The area of the rectangle.
    pub fn area(&self) -> (r: u32)
        requires
            self.width * self.height <= u32::MAX,
        ensures
            r == self.width * self.height,
    {
        self.width * self.height
    }

    /// Whether this rectangle is strictly wider and taller than `other`.
    pub fn can_hold(&self, other: &Rectangle) -> (r: bool)
        ensures
            r == (self.width > other.width && self.height > other.height),
    {
        self.width > other.width && self.height > other.height
    }

    /// The square with the given side length.
    pub fn square(size: u32) -> (r: Rectangle)
        ensures
            r.width == size,
            r.height == size,
    {
        Rectangle { width: size, height: size }
    }

    /// Double both sides.
    pub fn double_size(&mut self)
        requires
            2 * old(self).width <= u32::MAX,
            2 * old(self).height <= u32::MAX,
        ensures
            final(self).width == 2 * old(self).width,
            final(self).height == 2 * old(self).height,
    {
        self.width = self.width * 2;
        self.height = self.height * 2;
    }

    /// The perimeter of the rectangle.
    pub fn perimeter(&self) -> (r: u32)
        requires
            2 * (self.width + self.height) <= u32::MAX,
        ensures
            r == 2 * (self.width + self.height),
    {
        2 * (self.width + self.height)
    }
}

} // verus!
