use vstd::prelude::*;

verus! {

/// A cell on the screen: column `x`, row `y`.
#[derive(Copy, Clone, Debug, PartialEq, Eq, Structural)]
pub struct Position {
    pub x: usize,
    pub y: usize,
}

/// The extent of the screen in columns and rows.
#[derive(Copy, Clone, Debug, PartialEq, Eq, Structural)]
pub struct Size {
    pub width: usize,
    pub height: usize,
}

/// `a - b`, or zero where `b` is the larger.
pub open spec fn sat_sub(a: int, b: int) -> int {
    if a >= b {
        a - b
    } else {
        0
    }
}

impl Default for Position {
    /// The top left cell.
    fn default() -> (p: Self)
        ensures
            p == (Position { x: 0, y: 0 }),
    {
        Position { x: 0, y: 0 }
    }
}

impl Default for Size {
    /// A screen with no cells.
    fn default() -> (s: Self)
        ensures
            s == (Size { width: 0, height: 0 }),
    {
        Size { width: 0, height: 0 }
    }
}

impl Position {
    /// Subtracts `other` coordinate by coordinate, stopping at zero.
    pub fn saturating_sub(self, other: Self) -> (p: Self)
        ensures
            p.x == sat_sub(self.x as int, other.x as int),
            p.y == sat_sub(self.y as int, other.y as int),
    {
        Position { x: self.x.saturating_sub(other.x), y: self.y.saturating_sub(other.y) }
    }
}

} // verus!
