use vstd::prelude::*;

verus! {

/// A point, in half-thousandths.
#[derive(Clone, Copy, Debug, PartialEq, Eq, Structural)]
pub struct Vector2 {
    pub x: u64,
    pub y: u64,
}

/// An axis-aligned rectangle, in half-thousandths.
#[derive(Clone, Copy, Debug, PartialEq, Eq, Structural)]
pub struct Rect {
    pub x: u64,
    pub y: u64,
    pub width: u64,
    pub height: u64,
}

impl Rect {
    /// The centre of a rectangle of even sides.
    pub fn center(&self) -> (r: Vector2)
        requires
            self.width % 2 == 0,
            self.height % 2 == 0,
            self.x + self.width / 2 <= u64::MAX,
            self.y + self.height / 2 <= u64::MAX,
        ensures
            2 * r.x == 2 * self.x + self.width,
            2 * r.y == 2 * self.y + self.height,
    {
        Vector2 { x: self.x + self.width / 2, y: self.y + self.height / 2 }
    }
}

} // verus!
