//! Screen geometry: points, sizes and rectangles.

use vstd::prelude::*;

verus! {

/// A position on the screen.
#[derive(Clone, Copy, Debug)]
pub struct Point {
    pub x: usize,
    pub y: usize,
}

impl Point {
    /// The point at the given coordinates.
    pub fn new(x: usize, y: usize) -> (r: Point)
        ensures
            r == (Point { x, y }),
    {
        Point { x, y }
    }

    /// Moves this point by the coordinates of `rhs`.
    pub fn add_assign(&mut self, rhs: Point)
        requires
            old(self).x + rhs.x <= usize::MAX,
            old(self).y + rhs.y <= usize::MAX,
        ensures
            final(self).x == old(self).x + rhs.x,
            final(self).y == old(self).y + rhs.y,
    {
        self.x = self.x + rhs.x;
        self.y = self.y + rhs.y;
    }
}

impl Default for Point {
    /// The origin.
    fn default() -> (r: Point)
        ensures
            r == (Point { x: 0, y: 0 }),
    {
        Point { x: 0, y: 0 }
    }
}

/// An extent on the screen.
#[derive(Clone, Copy, Debug)]
pub struct Size {
    pub height: usize,
    pub width: usize,
}

impl Size {
    /// The size with the given extent.
    pub fn new(height: usize, width: usize) -> (r: Size)
        ensures
            r == (Size { height, width }),
    {
        Size { height, width }
    }

    /// Grows this size by the extent of `rhs`.
    pub fn add_assign(&mut self, rhs: Size)
        requires
            old(self).height + rhs.height <= usize::MAX,
            old(self).width + rhs.width <= usize::MAX,
        ensures
            final(self).height == old(self).height + rhs.height,
            final(self).width == old(self).width + rhs.width,
    {
        self.height = self.height + rhs.height;
        self.width = self.width + rhs.width;
    }
}

impl Default for Size {
    /// The empty size.
    fn default() -> (r: Size)
        ensures
            r == (Size { height: 0, width: 0 }),
    {
        Size { height: 0, width: 0 }
    }
}

/// An axis-aligned rectangle: an origin and a size.
#[derive(Clone, Copy, Debug)]
pub struct Rect {
    pub origin: Point,
    pub size: Size,
}

impl Rect {
    /// True when `point` lies strictly inside this rectangle.
    pub fn point_within(&self, point: &Point) -> (r: bool)
        ensures
            r == (point.x > self.origin.x && point.x < self.origin.x + self.size.width && point.y
                > self.origin.y && point.y < self.origin.y + self.size.height),
    {
        point.x > self.origin.x && point.x - self.origin.x < self.size.width && point.y
            > self.origin.y && point.y - self.origin.y < self.size.height
    }

    /// Moves the rectangle to the given origin.
    pub fn set_origin(&mut self, point: Point)
        ensures
            final(self).origin == point,
            final(self).size == old(self).size,
    {
        self.origin = point;
    }

    /// Resizes the rectangle in place.
    pub fn set_size(&mut self, size: Size)
        ensures
            final(self).origin == old(self).origin,
            final(self).size == size,
    {
        self.size = size;
    }

    /// The same rectangle moved to the given origin.
    pub fn with_origin(self, point: Point) -> (r: Rect)
        ensures
            r.origin == point,
            r.size == self.size,
    {
        Rect { origin: point, ..self }
    }

    /// The same rectangle with the given size.
    pub fn with_size(self, size: Size) -> (r: Rect)
        ensures
            r.origin == self.origin,
            r.size == size,
    {
        Rect { size, ..self }
    }

    /// The rectangle of the given size, sitting at the origin.
    pub fn from_size(size: Size) -> (r: Rect)
        ensures
            r.origin == (Point { x: 0, y: 0 }),
            r.size == size,
    {
        Rect { origin: Point::default(), size }
    }
}

impl Default for Rect {
    /// The empty rectangle at the origin.
    fn default() -> (r: Rect)
        ensures
            r.origin == (Point { x: 0, y: 0 }),
            r.size == (Size { height: 0, width: 0 }),
    {
        Rect { origin: Point::default(), size: Size::default() }
    }
}

/// A bare height-and-width pair.
#[derive(Clone, Copy, Debug)]
pub struct Rectangle {
    pub height: usize,
    pub width: usize,
}

impl Rectangle {
    /// Grows this rectangle by the extent of `rhs`.
    pub fn add_assign(&mut self, rhs: Rectangle)
        requires
            old(self).height + rhs.height <= usize::MAX,
            old(self).width + rhs.width <= usize::MAX,
        ensures
            final(self).height == old(self).height + rhs.height,
            final(self).width == old(self).width + rhs.width,
    {
        self.height = self.height + rhs.height;
        self.width = self.width + rhs.width;
    }
}

} // verus!
