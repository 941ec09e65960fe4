//! Integer 2D coordinates: row grows downward, column grows rightward.

use vstd::prelude::*;

verus! {

/// Largest coordinate magnitude the playfield logic works with. Keeping every
/// coordinate well inside the `isize` range makes all the +-1 probes and
/// pivot arithmetic free of overflow on 32-bit and 64-bit targets alike.
pub const COORD_LIMIT: isize = 0x1000_0000;

/// A playfield coordinate. `row` increases downward, `col` increases
/// rightward; values are in cells, never pixels.
#[derive(Clone, Copy, Debug, PartialEq, Eq, Hash, Structural)]
pub struct Position {
    pub row: isize,
    pub col: isize,
}

/// Whether a (row, col) pair lies inside a `rows` x `cols` grid.
pub open spec fn spec_inbound(p: (int, int), rows: int, cols: int) -> bool {
    0 <= p.0 < rows && 0 <= p.1 < cols
}

/// The components of a sequence of positions, as integer pairs, in order.
pub open spec fn pairs_of(s: Seq<Position>) -> Seq<(int, int)> {
    s.map_values(|p: Position| p.spec_pair())
}

/// Every cell of a sequence translated by the same displacement.
pub open spec fn shifted(cells: Seq<(int, int)>, d: (int, int)) -> Seq<(int, int)> {
    cells.map_values(|p: (int, int)| (p.0 + d.0, p.1 + d.1))
}

impl Position {
    /// The coordinate as a pair of mathematical integers.
    pub open spec fn spec_pair(self) -> (int, int) {
        (self.row as int, self.col as int)
    }

    pub fn new(row: isize, col: isize) -> (r: Position)
        ensures
            r.row == row,
            r.col == col,
    {
        Position { row, col }
    }

    /// Componentwise sum.
    pub fn add(self, rhs: Position) -> (r: Position)
        requires
            isize::MIN <= self.row + rhs.row <= isize::MAX,
            isize::MIN <= self.col + rhs.col <= isize::MAX,
        ensures
            r.row == self.row + rhs.row,
            r.col == self.col + rhs.col,
    {
        Position { row: self.row + rhs.row, col: self.col + rhs.col }
    }

    /// Componentwise difference.
    pub fn sub(self, rhs: Position) -> (r: Position)
        requires
            isize::MIN <= self.row - rhs.row <= isize::MAX,
            isize::MIN <= self.col - rhs.col <= isize::MAX,
        ensures
            r.row == self.row - rhs.row,
            r.col == self.col - rhs.col,
    {
        Position { row: self.row - rhs.row, col: self.col - rhs.col }
    }

    /// Exchanges the row and column components.
    pub fn swap(&mut self)
        ensures
            final(self).row == old(self).col,
            final(self).col == old(self).row,
    {
        let r = self.row;
        self.row = self.col;
        self.col = r;
    }

    /// True when the coordinate lies inside a `rows` x `cols` playfield.
    pub fn is_inbound(&self, rows: isize, cols: isize) -> (b: bool)
        ensures
            b == spec_inbound(self.spec_pair(), rows as int, cols as int),
    {
        self.row < rows && self.row >= 0 && self.col < cols && self.col >= 0
    }
}

} // verus!
