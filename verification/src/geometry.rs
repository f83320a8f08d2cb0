//! Screen positions and the window rectangle used to annotate moves.

use vstd::prelude::*;

verus! {

/// A cursor position in screen pixels.
#[derive(Clone, Copy, Debug, PartialEq, Eq, Structural)]
pub struct Position {
    pub x: i32,
    pub y: i32,
}

/// A window's outer rectangle: its origin on the screen and its size.
#[derive(Clone, Copy, Debug, PartialEq, Eq, Structural)]
pub struct Rectangle {
    pub x: i32,
    pub y: i32,
    pub width: u32,
    pub height: u32,
}

impl Rectangle {
    /// Whether `p` lies in the rectangle, all four edges included.
    pub open spec fn covers(self, p: Position) -> bool {
        &&& self.x <= p.x <= self.x + self.width
        &&& self.y <= p.y <= self.y + self.height
    }

    /// Tests whether `p` lies in the rectangle, all four edges included.
    ///
    /// The far edges are computed without wrapping, so a rectangle that
    /// reaches past the largest coordinate still covers every position
    /// beyond its origin.
    pub fn contains(&self, p: Position) -> (inside: bool)
        ensures
            inside == self.covers(p),
    {
        let right: i64 = self.x as i64 + self.width as i64;
        let bottom: i64 = self.y as i64 + self.height as i64;
        let px: i64 = p.x as i64;
        let py: i64 = p.y as i64;
        self.x as i64 <= px && px <= right && self.y as i64 <= py && py <= bottom
    }
}

} // verus!
