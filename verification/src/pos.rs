//! Integer points and offsets on the grid.

use vstd::prelude::*;

verus! {

/// A point on the grid, or the offset between two points.
#[derive(Clone, Copy, Debug, PartialEq, Eq, Hash, Structural)]
pub struct Pos {
    pub x: i32,
    pub y: i32,
}

impl Pos {
    /// Whether the component-wise sum of `self` and `other` fits in a `Pos`.
    pub open spec fn can_add(self, other: Pos) -> bool {
        &&& i32::MIN <= self.x + other.x <= i32::MAX
        &&& i32::MIN <= self.y + other.y <= i32::MAX
    }

    /// The component-wise sum of `self` and `other`.
    pub open spec fn plus(self, other: Pos) -> Pos
        recommends
            self.can_add(other),
    {
        Pos { x: (self.x + other.x) as i32, y: (self.y + other.y) as i32 }
    }

    pub fn new(x: i32, y: i32) -> (pos: Pos)
        ensures
            pos == (Pos { x, y }),
    {
        Pos { x, y }
    }

    /// Adds `other` to this point; `None` when a coordinate would leave the
    /// range of `i32`.
    pub fn checked_add(self, other: Pos) -> (sum: Option<Pos>)
        ensures
            self.can_add(other) ==> sum == Some(self.plus(other)),
            !self.can_add(other) ==> sum.is_none(),
    {
        match (self.x.checked_add(other.x), self.y.checked_add(other.y)) {
            (Some(x), Some(y)) => Some(Pos { x, y }),
            _ => None,
        }
    }
}

} // verus!
