use crate::editor::terminal::{sat_sub, Position};
use vstd::prelude::*;

verus! {

/// A place in the text: a column and a row.
#[derive(Copy, Clone, Debug, PartialEq, Eq, Structural)]
pub struct Location {
    pub column: usize,
    pub row: usize,
}

impl Default for Location {
    /// The first column of the first row.
    fn default() -> (l: Self)
        ensures
            l == (Location { column: 0, row: 0 }),
    {
        Location { column: 0, row: 0 }
    }
}

impl From<Location> for Position {
    /// The screen cell of a location: its column is `x`, its row is `y`.
    fn from(location: Location) -> (p: Self) {
        Self { x: location.column, y: location.row }
    }
}

impl vstd::std_specs::convert::FromSpecImpl<Location> for Position {
    open spec fn obeys_from_spec() -> bool {
        true
    }

    open spec fn from_spec(location: Location) -> Position {
        Position { x: location.column, y: location.row }
    }
}

/// `a` less `b`, column by column and row by row, stopping at zero.
pub open spec fn subtract_spec(a: Location, b: Location) -> Location {
    Location {
        column: sat_sub(a.column as int, b.column as int) as usize,
        row: sat_sub(a.row as int, b.row as int) as usize,
    }
}

impl Location {
    /// Subtracts `other` column by column and row by row, stopping at zero.
    pub fn subtract(&self, other: &Self) -> (l: Self)
        ensures
            l == subtract_spec(*self, *other),
    {
        Self {
            column: self.column.saturating_sub(other.column),
            row: self.row.saturating_sub(other.row),
        }
    }
}

/// Subtracting a location from itself gives the first column of the first
/// row, and subtracting that first location changes nothing.
pub proof fn lemma_subtract_self_and_origin(a: Location)
    ensures
        subtract_spec(a, a) == (Location { column: 0, row: 0 }),
        subtract_spec(a, Location { column: 0, row: 0 }) == a,
{
}

} // verus!
