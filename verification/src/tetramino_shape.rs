//! The shape catalog and the rotation engine: the seven piece kinds, their
//! canonical cells and pivots, the 90-degree rotation about the pivot, and
//! the ordered wall-kick candidates consulted when a rotation is attempted.

use vstd::prelude::*;

use crate::block::Block;
use crate::block::BlockColor;
use crate::block::coord_of;
use crate::block::coords_seq;
use crate::position::Position;
use crate::position::pairs_of;
use crate::position::shifted;
use crate::position::COORD_LIMIT;

verus! {

/// The seven piece kinds.
#[derive(Clone, Copy, Debug, PartialEq, Eq, Structural)]
pub enum TetraminoKind {
    I,
    L,
    J,
    S,
    Z,
    O,
    T,
}

/// Which way a rotation input turns the piece.
#[derive(Clone, Copy, Debug, PartialEq, Eq, Structural)]
pub enum RotationDirection {
    Clockwise,
    CounterClockwise,
}

/// The four orientations a piece cycles through. `Init` is the spawn
/// orientation; `Right` and `Left` are one quarter turn clockwise and
/// counter-clockwise from it, `Flip` is the half turn.
#[derive(Clone, Copy, Debug, PartialEq, Eq, Structural)]
pub enum RotationState {
    Init,
    Right,
    Flip,
    Left,
}

/// A piece: its kind, the fixed pivot its blocks rotate about, its current
/// orientation, and its blocks in shape-local coordinates (not yet offset
/// into the playfield).
#[derive(Debug)]
pub struct Tetramino {
    pub kind: TetraminoKind,
    pub rotation_center: Position,
    pub rotation_state: RotationState,
    pub blocks: Vec<Block>,
}

/// What a rotation attempt yields: the rotated shape and the five kick
/// offsets to try against the playfield, in table order.
pub struct RotationResult {
    pub tetramino: Tetramino,
    pub kick_offsets: Vec<Position>,
}

/// The canonical spawn cells of each kind, in shape-local (row, col)
/// coordinates.
pub open spec fn spec_kind_cells(kind: TetraminoKind) -> Seq<(int, int)> {
    match kind {
        TetraminoKind::I => seq![(0, 0), (0, 1), (0, 2), (0, 3)],
        TetraminoKind::L => seq![(0, 2), (1, 0), (1, 1), (1, 2)],
        TetraminoKind::J => seq![(0, 0), (1, 0), (1, 1), (1, 2)],
        TetraminoKind::S => seq![(0, 2), (0, 1), (1, 1), (1, 0)],
        TetraminoKind::Z => seq![(0, 0), (0, 1), (1, 1), (1, 2)],
        TetraminoKind::O => seq![(0, 0), (0, 1), (1, 0), (1, 1)],
        TetraminoKind::T => seq![(1, 0), (1, 1), (1, 2), (0, 1)],
    }
}

/// The fixed pivot of each kind; it does not move with the rotation state.
pub open spec fn spec_pivot(kind: TetraminoKind) -> (int, int) {
    match kind {
        TetraminoKind::I => (0, 1),
        TetraminoKind::O => (1, 0),
        _ => (1, 1),
    }
}

/// The color the catalog paints each kind with.
pub open spec fn spec_kind_color(kind: TetraminoKind) -> BlockColor {
    match kind {
        TetraminoKind::I => BlockColor::Blue,
        TetraminoKind::L => BlockColor::Orange,
        TetraminoKind::J => BlockColor::DarkBlue,
        TetraminoKind::S => BlockColor::Green,
        TetraminoKind::Z => BlockColor::Red,
        TetraminoKind::O => BlockColor::Yellow,
        TetraminoKind::T => BlockColor::Purple,
    }
}

/// One step of the orientation cycle in the given direction.
pub open spec fn next_rotation_state(s: RotationState, dir: RotationDirection) -> RotationState {
    match dir {
        RotationDirection::Clockwise => match s {
            RotationState::Init => RotationState::Right,
            RotationState::Right => RotationState::Flip,
            RotationState::Flip => RotationState::Left,
            RotationState::Left => RotationState::Init,
        },
        RotationDirection::CounterClockwise => match s {
            RotationState::Init => RotationState::Left,
            RotationState::Right => RotationState::Init,
            RotationState::Flip => RotationState::Right,
            RotationState::Left => RotationState::Flip,
        },
    }
}

/// A quarter turn of one cell about a pivot. Clockwise maps the
/// pivot-relative cell (row, col) to (col, -row); counter-clockwise maps it
/// to (-col, row).
pub open spec fn rotate_point(pivot: (int, int), p: (int, int), dir: RotationDirection) -> (
    int,
    int,
) {
    match dir {
        RotationDirection::Clockwise => (pivot.0 + (p.1 - pivot.1), pivot.1 - (p.0 - pivot.0)),
        RotationDirection::CounterClockwise => (
            pivot.0 - (p.1 - pivot.1),
            pivot.1 + (p.0 - pivot.0),
        ),
    }
}

/// A quarter turn of every cell in a sequence, in order.
pub open spec fn rotated_coords(
    pivot: (int, int),
    cells: Seq<(int, int)>,
    dir: RotationDirection,
) -> Seq<(int, int)> {
    cells.map_values(|p: (int, int)| rotate_point(pivot, p, dir))
}

/// The per-orientation offset vectors of the rotation system, five per
/// orientation. The I and O pieces have tables of their own; the other five
/// kinds share one.
pub open spec fn offset_table(kind: TetraminoKind, state: RotationState) -> Seq<(int, int)> {
    match kind {
        TetraminoKind::I => match state {
            RotationState::Init => seq![(0, 0), (0, -1), (0, 2), (0, -1), (0, 2)],
            RotationState::Right => seq![(0, -1), (0, 0), (0, 0), (-1, 0), (2, 0)],
            RotationState::Flip => seq![(-1, -1), (-1, 1), (-1, -2), (0, 1), (0, -2)],
            RotationState::Left => seq![(-1, 0), (-1, 0), (-1, 0), (1, 0), (-2, 0)],
        },
        TetraminoKind::O => match state {
            RotationState::Init => seq![(0, 0), (0, 0), (0, 0), (0, 0), (0, 0)],
            RotationState::Right => seq![(1, 0), (1, 0), (1, 0), (1, 0), (1, 0)],
            RotationState::Flip => seq![(1, -1), (1, -1), (1, -1), (1, -1), (1, -1)],
            RotationState::Left => seq![(0, -1), (0, -1), (0, -1), (0, -1), (0, -1)],
        },
        _ => match state {
            RotationState::Init => seq![(0, 0), (0, 0), (0, 0), (0, 0), (0, 0)],
            RotationState::Right => seq![(0, 0), (0, 1), (1, 1), (-2, 0), (-2, 1)],
            RotationState::Flip => seq![(0, 0), (0, 0), (0, 0), (0, 0), (0, 0)],
            RotationState::Left => seq![(0, 0), (0, -1), (1, -1), (-2, 0), (-2, -1)],
        },
    }
}

/// The ordered kick candidates of a transition: the componentwise difference
/// of the from-orientation and to-orientation offset vectors.
pub open spec fn kick_candidates(
    kind: TetraminoKind,
    from: RotationState,
    to: RotationState,
) -> Seq<(int, int)> {
    Seq::new(
        5,
        |i: int|
            (
                offset_table(kind, from)[i].0 - offset_table(kind, to)[i].0,
                offset_table(kind, from)[i].1 - offset_table(kind, to)[i].1,
            ),
    )
}

impl Tetramino {
    /// The cells this piece occupies, in shape-local coordinates.
    pub open spec fn coords(self) -> Seq<(int, int)> {
        coords_seq(self.blocks@)
    }

    /// Every cell stays within two of the pivot in both components; rotation
    /// preserves this, and it keeps all pivot arithmetic small.
    pub open spec fn rel_bounded(self) -> bool {
        forall|i: int|
            0 <= i < self.coords().len() ==> {
                let p = #[trigger] self.coords()[i];
                let c = self.rotation_center.spec_pair();
                -2 <= p.0 - c.0 <= 2 && -2 <= p.1 - c.1 <= 2
            }
    }

    /// A well-formed piece: four blocks on distinct cells, the pivot of its
    /// kind, every cell close to the pivot.
    pub open spec fn wf(self) -> bool {
        &&& self.blocks@.len() == 4
        &&& self.coords().no_duplicates()
        &&& self.rotation_center.spec_pair() == spec_pivot(self.kind)
        &&& self.rel_bounded()
    }
}

/// Four same-colored blocks on the four given cells.
fn four_blocks(
    color: BlockColor,
    r0: isize,
    c0: isize,
    r1: isize,
    c1: isize,
    r2: isize,
    c2: isize,
    r3: isize,
    c3: isize,
) -> (v: Vec<Block>)
    ensures
        coords_seq(v@) == seq![
            (r0 as int, c0 as int),
            (r1 as int, c1 as int),
            (r2 as int, c2 as int),
            (r3 as int, c3 as int),
        ],
        forall|i: int| 0 <= i < v@.len() ==> (#[trigger] v@[i]).color == color,
{
    let mut v: Vec<Block> = Vec::new();
    v.push(Block { color, coordinates: Position::new(r0, c0) });
    v.push(Block { color, coordinates: Position::new(r1, c1) });
    v.push(Block { color, coordinates: Position::new(r2, c2) });
    v.push(Block { color, coordinates: Position::new(r3, c3) });
    proof {
        assert(coords_seq(v@) =~= seq![
            (r0 as int, c0 as int),
            (r1 as int, c1 as int),
            (r2 as int, c2 as int),
            (r3 as int, c3 as int),
        ]);
    }
    v
}

/// Five positions with the given components, in order.
fn five_positions(
    r0: isize,
    c0: isize,
    r1: isize,
    c1: isize,
    r2: isize,
    c2: isize,
    r3: isize,
    c3: isize,
    r4: isize,
    c4: isize,
) -> (v: Vec<Position>)
    ensures
        pairs_of(v@) == seq![
            (r0 as int, c0 as int),
            (r1 as int, c1 as int),
            (r2 as int, c2 as int),
            (r3 as int, c3 as int),
            (r4 as int, c4 as int),
        ],
{
    let mut v: Vec<Position> = Vec::new();
    v.push(Position::new(r0, c0));
    v.push(Position::new(r1, c1));
    v.push(Position::new(r2, c2));
    v.push(Position::new(r3, c3));
    v.push(Position::new(r4, c4));
    proof {
        assert(pairs_of(v@) =~= seq![
            (r0 as int, c0 as int),
            (r1 as int, c1 as int),
            (r2 as int, c2 as int),
            (r3 as int, c3 as int),
            (r4 as int, c4 as int),
        ]);
    }
    v
}

impl Tetramino {
    /// A freshly spawned piece of the given kind: its canonical cells, its
    /// pivot, orientation `Init`, painted in the kind's color.
    pub fn construct(kind: TetraminoKind) -> (r: Tetramino)
        ensures
            r.kind == kind,
            r.rotation_state == RotationState::Init,
            r.rotation_center.spec_pair() == spec_pivot(kind),
            r.coords() == spec_kind_cells(kind),
            forall|i: int|
                0 <= i < r.blocks@.len() ==> (#[trigger] r.blocks@[i]).color == spec_kind_color(
                    kind,
                ),
            r.wf(),
    {
        let r = match kind {
            TetraminoKind::I => Tetramino {
                blocks: four_blocks(BlockColor::Blue, 0, 0, 0, 1, 0, 2, 0, 3),
                kind: TetraminoKind::I,
                rotation_center: Position::new(0, 1),
                rotation_state: RotationState::Init,
            },
            TetraminoKind::L => Tetramino {
                blocks: four_blocks(BlockColor::Orange, 0, 2, 1, 0, 1, 1, 1, 2),
                kind: TetraminoKind::L,
                rotation_center: Position::new(1, 1),
                rotation_state: RotationState::Init,
            },
            TetraminoKind::J => Tetramino {
                blocks: four_blocks(BlockColor::DarkBlue, 0, 0, 1, 0, 1, 1, 1, 2),
                kind: TetraminoKind::J,
                rotation_center: Position::new(1, 1),
                rotation_state: RotationState::Init,
            },
            TetraminoKind::S => Tetramino {
                blocks: four_blocks(BlockColor::Green, 0, 2, 0, 1, 1, 1, 1, 0),
                kind: TetraminoKind::S,
                rotation_center: Position::new(1, 1),
                rotation_state: RotationState::Init,
            },
            TetraminoKind::Z => Tetramino {
                blocks: four_blocks(BlockColor::Red, 0, 0, 0, 1, 1, 1, 1, 2),
                kind: TetraminoKind::Z,
                rotation_center: Position::new(1, 1),
                rotation_state: RotationState::Init,
            },
            TetraminoKind::O => Tetramino {
                blocks: four_blocks(BlockColor::Yellow, 0, 0, 0, 1, 1, 0, 1, 1),
                kind: TetraminoKind::O,
                rotation_center: Position::new(1, 0),
                rotation_state: RotationState::Init,
            },
            TetraminoKind::T => Tetramino {
                blocks: four_blocks(BlockColor::Purple, 1, 0, 1, 1, 1, 2, 0, 1),
                kind: TetraminoKind::T,
                rotation_center: Position::new(1, 1),
                rotation_state: RotationState::Init,
            },
        };
        proof {
            assert(r.coords() == spec_kind_cells(kind));
            assert(r.coords().len() == 4);
            assert(r.blocks@.len() == 4);
            assert(r.coords().no_duplicates());
            assert(r.rel_bounded());
        }
        r
    }

    /// The orientation one rotation step away in the given direction.
    pub fn get_next_rotation_state(&self, direction: RotationDirection) -> (r: RotationState)
        ensures
            r == next_rotation_state(self.rotation_state, direction),
    {
        match direction {
            RotationDirection::Clockwise => match self.rotation_state {
                RotationState::Init => RotationState::Right,
                RotationState::Right => RotationState::Flip,
                RotationState::Flip => RotationState::Left,
                RotationState::Left => RotationState::Init,
            },
            RotationDirection::CounterClockwise => match self.rotation_state {
                RotationState::Init => RotationState::Left,
                RotationState::Right => RotationState::Init,
                RotationState::Flip => RotationState::Right,
                RotationState::Left => RotationState::Flip,
            },
        }
    }

    /// This piece consumed and translated wholesale: every block moves by
    /// `offset`, while kind, pivot and orientation stay put.
    pub fn with_offset(self, offset: Position) -> (r: Tetramino)
        requires
            self.wf(),
            -2 * COORD_LIMIT <= offset.row <= 2 * COORD_LIMIT,
            -2 * COORD_LIMIT <= offset.col <= 2 * COORD_LIMIT,
        ensures
            r.kind == self.kind,
            r.rotation_center == self.rotation_center,
            r.rotation_state == self.rotation_state,
            coords_seq(r.blocks@) == shifted(self.coords(), offset.spec_pair()),
            r.blocks@.len() == self.blocks@.len(),
            forall|i: int|
                0 <= i < r.blocks@.len() ==> (#[trigger] r.blocks@[i]).color
                    == self.blocks@[i].color,
    {
        let blocks = self.get_blocks_with_offset(offset);
        Tetramino {
            kind: self.kind,
            rotation_center: self.rotation_center,
            rotation_state: self.rotation_state,
            blocks,
        }
    }

    /// The piece's blocks translated by `offset`, colors kept, order kept.
    pub fn get_blocks_with_offset(&self, offset: Position) -> (r: Vec<Block>)
        requires
            self.wf(),
            -2 * COORD_LIMIT <= offset.row <= 2 * COORD_LIMIT,
            -2 * COORD_LIMIT <= offset.col <= 2 * COORD_LIMIT,
        ensures
            coords_seq(r@) == shifted(self.coords(), offset.spec_pair()),
            r@.len() == self.blocks@.len(),
            forall|i: int|
                0 <= i < r@.len() ==> (#[trigger] r@[i]).color == self.blocks@[i].color,
    {
        let mut out: Vec<Block> = Vec::new();
        let mut i: usize = 0;
        while i < self.blocks.len()
            invariant
                self.wf(),
                -2 * COORD_LIMIT <= offset.row <= 2 * COORD_LIMIT,
                -2 * COORD_LIMIT <= offset.col <= 2 * COORD_LIMIT,
                i <= self.blocks@.len(),
                out@.len() == i as int,
                forall|j: int|
                    0 <= j < i as int ==> (#[trigger] out@[j]).coordinates.spec_pair() == (
                        self.coords()[j].0 + offset.row as int,
                        self.coords()[j].1 + offset.col as int,
                    ),
                forall|j: int|
                    0 <= j < i as int ==> (#[trigger] out@[j]).color == self.blocks@[j].color,
            decreases self.blocks@.len() - i as int,
        {
            let b = self.blocks[i];
            proof {
                assert(self.coords()[i as int] == coord_of(self.blocks@[i as int]));
            }
            out.push(Block { color: b.color, coordinates: b.coordinates.add(offset) });
            i = i + 1;
        }
        proof {
            assert(coords_seq(out@) =~= shifted(self.coords(), offset.spec_pair()));
        }
        out
    }

    /// Borrow the piece's blocks in shape-local coordinates.
    pub fn get_blocks(&self) -> (r: &Vec<Block>)
        ensures
            r == self.blocks,
    {
        &self.blocks
    }

    /// The piece's blocks after a quarter turn about the pivot, colors and
    /// order kept.
    fn process_rotation(&self, direction: RotationDirection) -> (r: Vec<Block>)
        requires
            self.wf(),
        ensures
            coords_seq(r@) == rotated_coords(
                self.rotation_center.spec_pair(),
                self.coords(),
                direction,
            ),
            r@.len() == self.blocks@.len(),
            forall|i: int|
                0 <= i < r@.len() ==> (#[trigger] r@[i]).color == self.blocks@[i].color,
    {
        let pivot = self.rotation_center;
        let mut out: Vec<Block> = Vec::new();
        let mut i: usize = 0;
        while i < self.blocks.len()
            invariant
                self.wf(),
                pivot == self.rotation_center,
                i <= self.blocks@.len(),
                out@.len() == i as int,
                forall|j: int|
                    0 <= j < i as int ==> (#[trigger] out@[j]).coordinates.spec_pair()
                        == rotate_point(
                        self.rotation_center.spec_pair(),
                        self.coords()[j],
                        direction,
                    ),
                forall|j: int|
                    0 <= j < i as int ==> (#[trigger] out@[j]).color == self.blocks@[j].color,
            decreases self.blocks@.len() - i as int,
        {
            let b = self.blocks[i];
            proof {
                assert(self.coords()[i as int] == coord_of(self.blocks@[i as int]));
                assert(0 <= pivot.row <= 1 && 0 <= pivot.col <= 1);
            }
            let rel_row = b.coordinates.row - pivot.row;
            let rel_col = b.coordinates.col - pivot.col;
            let coordinates = match direction {
                RotationDirection::Clockwise => Position::new(
                    pivot.row + rel_col,
                    pivot.col - rel_row,
                ),
                RotationDirection::CounterClockwise => Position::new(
                    pivot.row - rel_col,
                    pivot.col + rel_row,
                ),
            };
            out.push(Block { color: b.color, coordinates });
            i = i + 1;
        }
        proof {
            assert(coords_seq(out@) =~= rotated_coords(
                self.rotation_center.spec_pair(),
                self.coords(),
                direction,
            ));
        }
        out
    }

    /// The five offset vectors of this piece's kind for the given
    /// orientation, in table order.
    pub fn get_offsets(&self, rotation_state: RotationState) -> (r: Vec<Position>)
        ensures
            pairs_of(r@) == offset_table(self.kind, rotation_state),
    {
        match self.kind {
            TetraminoKind::I => match rotation_state {
                RotationState::Init => five_positions(0, 0, 0, -1, 0, 2, 0, -1, 0, 2),
                RotationState::Right => five_positions(0, -1, 0, 0, 0, 0, -1, 0, 2, 0),
                RotationState::Flip => five_positions(-1, -1, -1, 1, -1, -2, 0, 1, 0, -2),
                RotationState::Left => five_positions(-1, 0, -1, 0, -1, 0, 1, 0, -2, 0),
            },
            TetraminoKind::O => match rotation_state {
                RotationState::Init => five_positions(0, 0, 0, 0, 0, 0, 0, 0, 0, 0),
                RotationState::Right => five_positions(1, 0, 1, 0, 1, 0, 1, 0, 1, 0),
                RotationState::Flip => five_positions(1, -1, 1, -1, 1, -1, 1, -1, 1, -1),
                RotationState::Left => five_positions(0, -1, 0, -1, 0, -1, 0, -1, 0, -1),
            },
            _ => match rotation_state {
                RotationState::Init => five_positions(0, 0, 0, 0, 0, 0, 0, 0, 0, 0),
                RotationState::Right => five_positions(0, 0, 0, 1, 1, 1, -2, 0, -2, 1),
                RotationState::Flip => five_positions(0, 0, 0, 0, 0, 0, 0, 0, 0, 0),
                RotationState::Left => five_positions(0, 0, 0, -1, 1, -1, -2, 0, -2, -1),
            },
        }
    }

    /// The rotated shape together with the ordered kick candidates of the
    /// transition. The caller tries the candidates against the playfield in
    /// order and commits the first that clears, or none.
    pub fn get_rotated_and_offsets(&self, direction: RotationDirection) -> (r: RotationResult)
        requires
            self.wf(),
        ensures
            r.tetramino.kind == self.kind,
            r.tetramino.rotation_center == self.rotation_center,
            r.tetramino.rotation_state == next_rotation_state(self.rotation_state, direction),
            r.tetramino.coords() == rotated_coords(
                self.rotation_center.spec_pair(),
                self.coords(),
                direction,
            ),
            r.tetramino.blocks@.len() == self.blocks@.len(),
            forall|i: int|
                0 <= i < r.tetramino.blocks@.len() ==> (#[trigger] r.tetramino.blocks@[i]).color
                    == self.blocks@[i].color,
            r.tetramino.wf(),
            pairs_of(r.kick_offsets@) == kick_candidates(
                self.kind,
                self.rotation_state,
                next_rotation_state(self.rotation_state, direction),
            ),
    {
        let rotated_shape = self.process_rotation(direction);
        let to_rotation = self.get_next_rotation_state(direction);

        let from_offsets = self.get_offsets(self.rotation_state);
        let to_offsets = self.get_offsets(to_rotation);
        proof {
            lemma_offset_table_bounded(self.kind, self.rotation_state);
            lemma_offset_table_bounded(self.kind, to_rotation);
        }

        let mut res_offsets: Vec<Position> = Vec::new();
        let mut i: usize = 0;
        while i < 5
            invariant
                i <= 5,
                from_offsets@.len() == 5,
                to_offsets@.len() == 5,
                pairs_of(from_offsets@) == offset_table(self.kind, self.rotation_state),
                pairs_of(to_offsets@) == offset_table(self.kind, to_rotation),
                forall|k: int|
                    0 <= k < 5 ==> {
                        let e = #[trigger] offset_table(self.kind, self.rotation_state)[k];
                        -2 <= e.0 <= 2 && -2 <= e.1 <= 2
                    },
                forall|k: int|
                    0 <= k < 5 ==> {
                        let e = #[trigger] offset_table(self.kind, to_rotation)[k];
                        -2 <= e.0 <= 2 && -2 <= e.1 <= 2
                    },
                res_offsets@.len() == i as int,
                forall|j: int|
                    0 <= j < i as int ==> (#[trigger] res_offsets@[j]).spec_pair()
                        == kick_candidates(
                        self.kind,
                        self.rotation_state,
                        to_rotation,
                    )[j],
            decreases 5 - i as int,
        {
            proof {
                assert(pairs_of(from_offsets@)[i as int] == from_offsets@[i as int].spec_pair());
                assert(pairs_of(to_offsets@)[i as int] == to_offsets@[i as int].spec_pair());
            }
            let from = from_offsets[i];
            let to = to_offsets[i];
            res_offsets.push(from.sub(to));
            i = i + 1;
        }
        proof {
            assert(pairs_of(res_offsets@) =~= kick_candidates(
                self.kind,
                self.rotation_state,
                to_rotation,
            ));
        }

        let tetramino = Tetramino {
            rotation_state: to_rotation,
            kind: self.kind,
            blocks: rotated_shape,
            rotation_center: self.rotation_center,
        };
        proof {
            let c = self.rotation_center.spec_pair();
            assert forall|a: int, b: int|
                0 <= a < tetramino.coords().len() && 0 <= b < tetramino.coords().len() && a != b
                    implies #[trigger] tetramino.coords()[a] != #[trigger] tetramino.coords()[b] by {
                assert(tetramino.coords()[a] == rotate_point(c, self.coords()[a], direction));
                assert(tetramino.coords()[b] == rotate_point(c, self.coords()[b], direction));
                assert(self.coords()[a] != self.coords()[b]);
            }
            assert(tetramino.wf());
        }
        RotationResult { tetramino, kick_offsets: res_offsets }
    }
}

/// Every entry of every offset table stays within two cells of the origin in
/// both components, which keeps all kick arithmetic small.
pub proof fn lemma_offset_table_bounded(kind: TetraminoKind, state: RotationState)
    ensures
        forall|i: int|
            0 <= i < 5 ==> {
                let e = #[trigger] offset_table(kind, state)[i];
                -2 <= e.0 <= 2 && -2 <= e.1 <= 2
            },
        offset_table(kind, state).len() == 5,
{
}

/// Stepping the orientation four times in one direction returns it to where
/// it began: the four rotation states form a cycle of length four that is
/// never skipped over.
pub proof fn lemma_rotation_state_period_four(s: RotationState, dir: RotationDirection)
    ensures
        next_rotation_state(
            next_rotation_state(next_rotation_state(next_rotation_state(s, dir), dir), dir),
            dir,
        ) == s,
{
}

/// A quarter turn applied four times about the same pivot restores every
/// cell: rotation about a pivot is a group of order four on the cells.
pub proof fn lemma_rotation_period_four(
    pivot: (int, int),
    cells: Seq<(int, int)>,
    dir: RotationDirection,
)
    ensures
        rotated_coords(
            pivot,
            rotated_coords(pivot, rotated_coords(pivot, rotated_coords(pivot, cells, dir), dir), dir),
            dir,
        ) == cells,
{
    let r1 = rotated_coords(pivot, cells, dir);
    let r2 = rotated_coords(pivot, r1, dir);
    let r3 = rotated_coords(pivot, r2, dir);
    let r4 = rotated_coords(pivot, r3, dir);
    assert forall|i: int| 0 <= i < cells.len() implies #[trigger] r4[i] == cells[i] by {
        assert(r1[i] == rotate_point(pivot, cells[i], dir));
        assert(r2[i] == rotate_point(pivot, r1[i], dir));
        assert(r3[i] == rotate_point(pivot, r2[i], dir));
        assert(r4[i] == rotate_point(pivot, r3[i], dir));
    }
    assert(r4 =~= cells);
}

/// For the O piece every rotation attempt has exactly one effective kick
/// offset: all five padded candidates of any transition are the same vector.
pub proof fn lemma_o_kicks_all_equal(from: RotationState, to: RotationState, i: int, j: int)
    requires
        0 <= i < 5,
        0 <= j < 5,
    ensures
        kick_candidates(TetraminoKind::O, from, to)[i] == kick_candidates(
            TetraminoKind::O,
            from,
            to,
        )[j],
{
    lemma_offset_table_uniform_for_o(from);
    lemma_offset_table_uniform_for_o(to);
}

/// Each per-orientation offset row of the O piece holds one vector five
/// times over.
proof fn lemma_offset_table_uniform_for_o(state: RotationState)
    ensures
        forall|i: int|
            0 <= i < 5 ==> #[trigger] offset_table(TetraminoKind::O, state)[i] == offset_table(
                TetraminoKind::O,
                state,
            )[0],
{
    assert forall|i: int|
        0 <= i < 5 implies #[trigger] offset_table(TetraminoKind::O, state)[i] == offset_table(
        TetraminoKind::O,
        state,
    )[0] by {
        if i == 1 {
        } else if i == 2 {
        } else if i == 3 {
        } else if i == 4 {
        }
    }
}

/// Relies on rand::random_range over the non-empty range `0..7`: the drawn
/// value lies in that range.
#[verifier::external_body]
fn random_kind_index() -> (r: u8)
    ensures
        r < 7,
{
    rand::random_range(0u8..7u8)
}

/// The kind a raw draw in `0..7` stands for.
pub open spec fn spec_kind_of_index(i: int) -> TetraminoKind {
    if i == 0 {
        TetraminoKind::I
    } else if i == 1 {
        TetraminoKind::L
    } else if i == 2 {
        TetraminoKind::J
    } else if i == 3 {
        TetraminoKind::T
    } else if i == 4 {
        TetraminoKind::S
    } else if i == 5 {
        TetraminoKind::Z
    } else {
        TetraminoKind::O
    }
}

impl TetraminoKind {
    /// The kind a raw draw in `0..7` stands for.
    pub fn from_index(i: u8) -> (k: TetraminoKind)
        requires
            i < 7,
        ensures
            k == spec_kind_of_index(i as int),
    {
        match i {
            0 => TetraminoKind::I,
            1 => TetraminoKind::L,
            2 => TetraminoKind::J,
            3 => TetraminoKind::T,
            4 => TetraminoKind::S,
            5 => TetraminoKind::Z,
            _ => TetraminoKind::O,
        }
    }

    /// A kind drawn uniformly at random from the host's random source.
    /// Every kind can come back; nothing more is promised of the draw.
    pub fn random() -> TetraminoKind {
        TetraminoKind::from_index(random_kind_index())
    }
}

} // verus!
