//! Pixel geometry of the host widget.

use vstd::prelude::*;

verus! {

/// A position in pixels.
#[derive(Clone, Copy, Debug, PartialEq, Eq, Structural)]
pub struct Point {
    pub x: i32,
    pub y: i32,
}

impl Point {
    pub fn new(x: i32, y: i32) -> (point: Self)
        ensures
            point == (Point { x, y }),
    {
        Point { x, y }
    }

    pub fn x(&self) -> (x: i32)
        ensures
            x == self.x,
    {
        self.x
    }

    pub fn y(&self) -> (y: i32)
        ensures
            y == self.y,
    {
        self.y
    }
}

/// An axis-aligned rectangle in pixels; its right and bottom edges are exclusive.
#[derive(Clone, Copy, Debug, PartialEq, Eq, Structural)]
pub struct Rectangle {
    pub x: i32,
    pub y: i32,
    pub width: u32,
    pub height: u32,
}

impl Rectangle {
    /// Whether `point` lies inside the rectangle.
    pub open spec fn covers(self, point: Point) -> bool {
        &&& self.x <= point.x < self.x + self.width
        &&& self.y <= point.y < self.y + self.height
    }

    pub fn new(x: i32, y: i32, width: u32, height: u32) -> (rectangle: Self)
        ensures
            rectangle == (Rectangle { x, y, width, height }),
    {
        Rectangle { x, y, width, height }
    }

    pub fn contains(&self, point: Point) -> (inside: bool)
        ensures
            inside == self.covers(point),
    {
        let px: i64 = point.x as i64;
        let py: i64 = point.y as i64;
        let left: i64 = self.x as i64;
        let top: i64 = self.y as i64;
        left <= px && px < left + self.width as i64 && top <= py && py < top + self.height as i64
    }
}

/// Whether a pointer at `position` is over a widget whose hit area is `bounds`.
pub fn check_mouse_condition(position: Point, bounds: &Rectangle) -> (over: bool)
    ensures
        over == bounds.covers(position),
{
    bounds.contains(position)
}

} // verus!
