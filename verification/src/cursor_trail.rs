//! Where the terminal's cursor stands, as the cursor trail compares it.
use vstd::prelude::*;

verus! {

/// What the cursor stands on.
#[derive(Clone, Copy, Debug, PartialEq, Eq, Structural)]
pub enum CursorTrailSurface {
    BlockList,
    AltScreen,
}

/// A cell of the terminal.
#[derive(Clone, Copy, Debug, PartialEq, Eq, Structural)]
pub struct Point {
    pub row: usize,
    pub col: usize,
}

/// Where the cursor stands.
#[derive(Clone, Copy, Debug, PartialEq, Eq, Structural)]
pub struct CursorTrailKey {
    pub surface: CursorTrailSurface,
    pub point: Point,
}

/// How far apart two numbers are.
pub open spec fn gap(a: usize, b: usize) -> nat {
    if a >= b {
        (a - b) as nat
    } else {
        (b - a) as nat
    }
}

/// The number of steps from cell to cell between two cells.
pub open spec fn cell_distance(a: Point, b: Point) -> nat {
    gap(a.row, b.row) + gap(a.col, b.col)
}

impl CursorTrailKey {
    /// The two positions are on one surface. A trail does not cross from one to the other.
    pub fn same_surface(self, other: CursorTrailKey) -> (r: bool)
        ensures
            r == (self.surface == other.surface),
    {
        self.surface == other.surface
    }

    /// The number of steps from cell to cell between the two positions.
    pub fn cell_distance_to(self, other: CursorTrailKey) -> (r: usize)
        requires
            cell_distance(self.point, other.point) <= usize::MAX,
        ensures
            r == cell_distance(self.point, other.point),
    {
        let rows: usize = if self.point.row >= other.point.row {
            self.point.row - other.point.row
        } else {
            other.point.row - self.point.row
        };
        let cols: usize = if self.point.col >= other.point.col {
            self.point.col - other.point.col
        } else {
            other.point.col - self.point.col
        };
        rows + cols
    }
}

/// The distance is the same in both directions, is zero only from a cell to itself, and no detour
/// is shorter.
pub proof fn law_cell_distance(a: Point, b: Point, c: Point)
    ensures
        cell_distance(a, b) == cell_distance(b, a),
        cell_distance(a, b) == 0 <==> a == b,
        cell_distance(a, c) <= cell_distance(a, b) + cell_distance(b, c),
{
}

} // verus!
