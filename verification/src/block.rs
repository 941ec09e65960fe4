//! Colored cells. A block's identity for occupancy purposes is its
//! coordinate alone: the placed-block store and the collision queries treat
//! two blocks at the same coordinate as the same block, whatever their color.

use vstd::prelude::*;

use crate::position::Position;

verus! {

/// The palette the catalog assigns to pieces. The renderer maps these to
/// whatever concrete color type it draws with.
#[derive(Clone, Copy, Debug, PartialEq, Eq, Structural)]
pub enum BlockColor {
    Blue,
    Orange,
    DarkBlue,
    Green,
    Red,
    Yellow,
    Purple,
}

/// One colored cell, in shape-local or playfield coordinates depending on
/// context.
#[derive(Clone, Copy, Debug)]
pub struct Block {
    pub color: BlockColor,
    pub coordinates: Position,
}

/// The coordinate a block occupies, as a pair of integers.
pub open spec fn coord_of(b: Block) -> (int, int) {
    b.coordinates.spec_pair()
}

/// The coordinates of a sequence of blocks, in the same order.
pub open spec fn coords_seq(s: Seq<Block>) -> Seq<(int, int)> {
    s.map_values(|b: Block| coord_of(b))
}

impl From<Position> for Block {
    /// A bare coordinate becomes a red block; occupancy logic never looks at
    /// the color, so any color would do.
    fn from(value: Position) -> (r: Block) {
        Block { color: BlockColor::Red, coordinates: value }
    }
}

impl vstd::std_specs::convert::FromSpecImpl<Position> for Block {
    open spec fn obeys_from_spec() -> bool {
        true
    }

    open spec fn from_spec(value: Position) -> Block {
        Block { color: BlockColor::Red, coordinates: value }
    }
}

} // verus!
