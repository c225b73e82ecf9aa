//! Axis-aligned rectangles over integer coordinates.

use vstd::prelude::*;

verus! {

/// A point in the plane.
#[derive(Clone, Copy, Debug, PartialEq, Eq, Structural)]
pub struct Point {
    pub x: i32,
    pub y: i32,
}

/// A rectangle given by two opposite corners, the y axis growing
/// downward.
#[derive(Clone, Copy, Debug, PartialEq, Eq, Structural)]
pub struct Rectangle {
    pub top_left: Point,
    pub bottom_right: Point,
}

impl Rectangle {
    /// The signed area: width times height, each taken corner to corner.
    pub fn area(&self) -> (r: i32)
        requires
            i32::MIN <= self.bottom_right.x - self.top_left.x <= i32::MAX,
            i32::MIN <= self.bottom_right.y - self.top_left.y <= i32::MAX,
            i32::MIN <= (self.bottom_right.x - self.top_left.x) * (self.bottom_right.y
                - self.top_left.y) <= i32::MAX,
        ensures
            r == (self.bottom_right.x - self.top_left.x) * (self.bottom_right.y - self.top_left.y),
    {
        let top_edge: i32 = self.top_left.y;
        let left_edge: i32 = self.top_left.x;
        let bottom_edge: i32 = self.bottom_right.y;
        let right_edge: i32 = self.bottom_right.x;
        (right_edge - left_edge) * (bottom_edge - top_edge)
    }
}

} // verus!
