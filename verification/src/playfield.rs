//! The playfield: a fixed-size grid, the store of settled blocks, and the
//! collision and intersection queries the piece controller runs against it.

use vstd::prelude::*;

use crate::block::Block;
use crate::block::coord_of;
use crate::block::coords_seq;
use crate::position::COORD_LIMIT;
use crate::position::Position;
use crate::position::spec_inbound;

verus! {

/// The playfield dimensions, constant for a game session.
#[derive(Clone, Copy, Debug, PartialEq, Eq, Structural)]
pub struct PlayfieldSize {
    pub rows: isize,
    pub cols: isize,
}

/// The three directions a falling piece can be blocked in.
#[derive(Clone, Copy, Debug, PartialEq, Eq, Structural)]
pub enum CollisionDirection {
    Down,
    Left,
    Right,
}

/// The unit step a collision probe takes in each direction.
pub open spec fn spec_dir_offset(d: CollisionDirection) -> (int, int) {
    match d {
        CollisionDirection::Down => (1, 0),
        CollisionDirection::Left => (0, -1),
        CollisionDirection::Right => (0, 1),
    }
}

impl CollisionDirection {
    /// The unit step a collision probe takes in this direction.
    pub fn offset(&self) -> (r: Position)
        ensures
            r.spec_pair() == spec_dir_offset(*self),
    {
        match self {
            CollisionDirection::Down => Position::new(1, 0),
            CollisionDirection::Left => Position::new(0, -1),
            CollisionDirection::Right => Position::new(0, 1),
        }
    }
}

/// Whether the active piece is blocked from moving one cell down, left, or
/// right, computed fresh each tick.
#[derive(Clone, Copy, Debug, PartialEq, Eq, Structural)]
pub struct CollisionResult {
    pub down: bool,
    pub left: bool,
    pub right: bool,
}

impl CollisionResult {
    /// A result with no direction blocked.
    pub fn new() -> (r: CollisionResult)
        ensures
            !r.down,
            !r.left,
            !r.right,
    {
        CollisionResult { down: false, left: false, right: false }
    }
}

/// A cell a piece may not enter: outside the grid, or already occupied.
pub open spec fn blocked_cell(placed: Set<(int, int)>, rows: int, cols: int, p: (int, int)) -> bool {
    !spec_inbound(p, rows, cols) || placed.contains(p)
}

/// Whether any of the given cells is blocked: the test a rotation or
/// translation candidate must pass before it is committed.
pub open spec fn placement_intersects(
    placed: Set<(int, int)>,
    rows: int,
    cols: int,
    cells: Seq<(int, int)>,
) -> bool {
    exists|i: int|
        0 <= i < cells.len() && {
            let p = #[trigger] cells[i];
            blocked_cell(placed, rows, cols, p)
        }
}

/// Whether any of the given cells has its neighbor one step in direction
/// `d` blocked: the per-direction collision flag.
pub open spec fn collides_dir(
    placed: Set<(int, int)>,
    rows: int,
    cols: int,
    cells: Seq<(int, int)>,
    d: (int, int),
) -> bool {
    exists|i: int|
        0 <= i < cells.len() && {
            let p = #[trigger] cells[i];
            blocked_cell(placed, rows, cols, (p.0 + d.0, p.1 + d.1))
        }
}

/// Settled geometry no longer under player control. Membership is by
/// coordinate alone: the store never holds two blocks on the same cell.
#[derive(Debug)]
pub struct PlacedBlocks {
    pub storage: Vec<Block>,
}

impl PlacedBlocks {
    /// The occupied coordinates, in storage order.
    pub open spec fn coords(self) -> Seq<(int, int)> {
        coords_seq(self.storage@)
    }

    /// The occupied coordinates as a set: the store's abstract value.
    pub open spec fn coord_set(self) -> Set<(int, int)> {
        self.coords().to_set()
    }

    /// One block per occupied cell: no coordinate appears twice.
    pub open spec fn wf(self) -> bool {
        self.coords().no_duplicates()
    }

    /// An empty store.
    pub fn new() -> (r: PlacedBlocks)
        ensures
            r.storage@.len() == 0,
            r.coord_set() == Set::<(int, int)>::empty(),
            r.wf(),
    {
        let r = PlacedBlocks { storage: Vec::new() };
        proof {
            assert(r.coords() =~= Seq::<(int, int)>::empty());
            assert(r.coord_set() =~= Set::<(int, int)>::empty());
        }
        r
    }

    /// Borrow the settled blocks.
    pub fn get_blocks(&self) -> (r: &Vec<Block>)
        ensures
            r == self.storage,
    {
        &self.storage
    }

    /// Whether some settled block occupies the given coordinate.
    fn contains_coord(&self, p: Position) -> (b: bool)
        ensures
            b == self.coord_set().contains(p.spec_pair()),
    {
        let mut i: usize = 0;
        while i < self.storage.len()
            invariant
                i <= self.storage@.len(),
                forall|j: int| 0 <= j < i as int ==> #[trigger] self.coords()[j] != p.spec_pair(),
            decreases self.storage@.len() - i as int,
        {
            let b = self.storage[i];
            proof {
                assert(self.coords()[i as int] == coord_of(self.storage@[i as int]));
            }
            if b.coordinates.row == p.row && b.coordinates.col == p.col {
                proof {
                    assert(self.coords().contains(p.spec_pair()));
                }
                return true;
            }
            i = i + 1;
        }
        proof {
            assert(!self.coords().contains(p.spec_pair()));
        }
        false
    }

    /// Merges blocks into the store with set semantics: a block whose
    /// coordinate is already occupied is dropped, so no duplicate coordinate
    /// ever enters and the settled blocks keep their first color.
    fn put_blocks(&mut self, blocks: &Vec<Block>)
        requires
            old(self).wf(),
        ensures
            final(self).wf(),
            final(self).coord_set() == old(self).coord_set().union(
                coords_seq(blocks@).to_set(),
            ),
            final(self).storage@.len() >= old(self).storage@.len(),
            final(self).storage@.take(old(self).storage@.len() as int) == old(self).storage@,
            forall|i: int|
                old(self).storage@.len() <= i < final(self).storage@.len()
                    ==> blocks@.contains(#[trigger] final(self).storage@[i]),
    {
        let ghost orig = *self;
        let mut i: usize = 0;
        while i < blocks.len()
            invariant
                orig.wf(),
                self.wf(),
                i <= blocks@.len(),
                self.storage@.take(orig.storage@.len() as int) == orig.storage@,
                self.storage@.len() >= orig.storage@.len(),
                forall|k: int|
                    orig.storage@.len() <= k < self.storage@.len() ==> blocks@.contains(
                        #[trigger] self.storage@[k],
                    ),
                self.coord_set() == orig.coord_set().union(
                    coords_seq(blocks@.take(i as int)).to_set(),
                ),
            decreases blocks@.len() - i as int,
        {
            let b = blocks[i];
            let ghost prev = *self;
            let ghost idx = i as int;
            let absent = !self.contains_coord(b.coordinates);
            if absent {
                proof {
                    assert(!self.coords().contains(coord_of(b)));
                }
                self.storage.push(b);
                proof {
                    assert(self.storage@ == prev.storage@.push(b));
                    assert(self.storage@.take(orig.storage@.len() as int) =~= prev.storage@.take(
                        orig.storage@.len() as int,
                    ));
                    assert(self.coords() =~= prev.coords().push(coord_of(b)));
                    assert forall|a: int, c: int|
                        0 <= a < self.coords().len() && 0 <= c < self.coords().len() && a != c
                            implies #[trigger] self.coords()[a] != #[trigger] self.coords()[c] by {
                        if a < prev.coords().len() && c < prev.coords().len() {
                            assert(prev.coords()[a] != prev.coords()[c]);
                        } else if a < prev.coords().len() {
                            assert(self.coords()[c] == coord_of(b));
                            assert(prev.coords().contains(prev.coords()[a]));
                        } else {
                            assert(self.coords()[a] == coord_of(b));
                            assert(prev.coords().contains(prev.coords()[c]));
                        }
                    }
                }
            }
            i = i + 1;
            proof {
                let c = coord_of(b);
                let prior = blocks@.take(idx);
                assert(blocks@.take(idx + 1) =~= prior.push(blocks@[idx]));
                coords_seq(prior).lemma_push_to_set_commute(c);
                assert(coords_seq(prior.push(blocks@[idx])) =~= coords_seq(prior).push(c));
                assert(coords_seq(blocks@.take(idx + 1)).to_set() =~= coords_seq(
                    prior,
                ).to_set().insert(c));
                if absent {
                    prev.coords().lemma_push_to_set_commute(c);
                    assert(self.coord_set() =~= prev.coord_set().insert(c));
                } else {
                    assert(prev.coord_set().contains(c));
                }
                assert(self.coord_set() =~= orig.coord_set().union(
                    coords_seq(blocks@.take(i as int)).to_set(),
                ));
            }
        }
        proof {
            assert(blocks@.take(blocks@.len() as int) == blocks@);
        }
    }
}

/// Appending one cell to a collision query extends it by exactly that
/// cell's probe: the flag over the longer sequence is the old flag or the
/// new cell's.
proof fn lemma_collides_dir_push(
    placed: Set<(int, int)>,
    rows: int,
    cols: int,
    cells: Seq<(int, int)>,
    x: (int, int),
    d: (int, int),
)
    ensures
        collides_dir(placed, rows, cols, cells.push(x), d) == (collides_dir(
            placed,
            rows,
            cols,
            cells,
            d,
        ) || blocked_cell(placed, rows, cols, (x.0 + d.0, x.1 + d.1))),
{
    let longer = cells.push(x);
    if collides_dir(placed, rows, cols, longer, d) {
        let w = choose|w: int|
            0 <= w < longer.len() && blocked_cell(
                placed,
                rows,
                cols,
                ((#[trigger] longer[w]).0 + d.0, longer[w].1 + d.1),
            );
        if w < cells.len() {
            assert(cells[w] == longer[w]);
        } else {
            assert(longer[w] == x);
        }
    }
    if collides_dir(placed, rows, cols, cells, d) {
        let w = choose|w: int|
            0 <= w < cells.len() && blocked_cell(
                placed,
                rows,
                cols,
                ((#[trigger] cells[w]).0 + d.0, cells[w].1 + d.1),
            );
        assert(longer[w] == cells[w]);
    }
    if blocked_cell(placed, rows, cols, (x.0 + d.0, x.1 + d.1)) {
        assert(longer[cells.len() as int] == x);
    }
}

/// The same, for the direct occupancy test of a placement candidate.
proof fn lemma_intersects_push(
    placed: Set<(int, int)>,
    rows: int,
    cols: int,
    cells: Seq<(int, int)>,
    x: (int, int),
)
    ensures
        placement_intersects(placed, rows, cols, cells.push(x)) == (placement_intersects(
            placed,
            rows,
            cols,
            cells,
        ) || blocked_cell(placed, rows, cols, x)),
{
    let longer = cells.push(x);
    if placement_intersects(placed, rows, cols, longer) {
        let w = choose|w: int|
            0 <= w < longer.len() && blocked_cell(placed, rows, cols, longer[w]);
        if w < cells.len() {
            assert(cells[w] == longer[w]);
        } else {
            assert(longer[w] == x);
        }
    }
    if placement_intersects(placed, rows, cols, cells) {
        let w = choose|w: int| 0 <= w < cells.len() && blocked_cell(placed, rows, cols, cells[w]);
        assert(longer[w] == cells[w]);
    }
    if blocked_cell(placed, rows, cols, x) {
        assert(longer[cells.len() as int] == x);
    }
}

/// The grid and its settled blocks, with the queries a piece controller
/// runs before it commits a move.
#[derive(Debug)]
pub struct Playfield {
    pub size: PlayfieldSize,
    pub placed_blocks: PlacedBlocks,
}

impl Playfield {
    /// The occupied coordinates as a set.
    pub open spec fn placed(self) -> Set<(int, int)> {
        self.placed_blocks.coord_set()
    }

    /// The grid height in cells.
    pub open spec fn rows(self) -> int {
        self.size.rows as int
    }

    /// The grid width in cells.
    pub open spec fn cols(self) -> int {
        self.size.cols as int
    }

    /// A well-formed playfield: moderate dimensions and a duplicate-free
    /// store.
    pub open spec fn wf(self) -> bool {
        &&& 0 <= self.size.rows <= COORD_LIMIT
        &&& 0 <= self.size.cols <= COORD_LIMIT
        &&& self.placed_blocks.wf()
    }

    /// An empty playfield of the given size.
    pub fn new(size: PlayfieldSize) -> (r: Playfield)
        requires
            0 <= size.rows <= COORD_LIMIT,
            0 <= size.cols <= COORD_LIMIT,
        ensures
            r.size == size,
            r.placed() == Set::<(int, int)>::empty(),
            r.placed_blocks.storage@.len() == 0,
            r.wf(),
    {
        Playfield { size, placed_blocks: PlacedBlocks::new() }
    }

    /// Whether a single cell is out of the grid or already settled.
    fn cell_blocked(&self, p: Position) -> (b: bool)
        ensures
            b == blocked_cell(self.placed(), self.rows(), self.cols(), p.spec_pair()),
    {
        !p.is_inbound(self.size.rows, self.size.cols) || self.placed_blocks.contains_coord(p)
    }

    /// Merges already-validated blocks into the settled store with set
    /// semantics; callers check collisions first.
    pub fn put_blocks(&mut self, blocks: &Vec<Block>)
        requires
            old(self).wf(),
        ensures
            final(self).wf(),
            final(self).size == old(self).size,
            final(self).placed() == old(self).placed().union(coords_seq(blocks@).to_set()),
            final(self).placed_blocks.storage@.len() >= old(self).placed_blocks.storage@.len(),
            final(self).placed_blocks.storage@.take(old(self).placed_blocks.storage@.len() as int)
                == old(self).placed_blocks.storage@,
            forall|i: int|
                old(self).placed_blocks.storage@.len() <= i
                    < final(self).placed_blocks.storage@.len() ==> blocks@.contains(
                    #[trigger] final(self).placed_blocks.storage@[i],
                ),
    {
        self.placed_blocks.put_blocks(blocks);
    }

    /// True when some candidate block coincides with a settled block or lies
    /// outside the grid: the validity test of a rotation or translation
    /// attempt, and the primitive a session owner builds game-over detection
    /// from.
    pub fn check_intersections(&self, blocks: &Vec<Block>) -> (b: bool)
        ensures
            b == placement_intersects(
                self.placed(),
                self.rows(),
                self.cols(),
                coords_seq(blocks@),
            ),
    {
        let mut i: usize = 0;
        while i < blocks.len()
            invariant
                i <= blocks@.len(),
                !placement_intersects(
                    self.placed(),
                    self.rows(),
                    self.cols(),
                    coords_seq(blocks@).take(i as int),
                ),
            decreases blocks@.len() - i as int,
        {
            let b = blocks[i];
            proof {
                assert(coords_seq(blocks@)[i as int] == coord_of(blocks@[i as int]));
                lemma_intersects_push(
                    self.placed(),
                    self.rows(),
                    self.cols(),
                    coords_seq(blocks@).take(i as int),
                    coord_of(blocks@[i as int]),
                );
                assert(coords_seq(blocks@).take(i as int + 1) =~= coords_seq(blocks@).take(
                    i as int,
                ).push(coord_of(blocks@[i as int])));
            }
            if self.cell_blocked(b.coordinates) {
                proof {
                    assert(placement_intersects(
                        self.placed(),
                        self.rows(),
                        self.cols(),
                        coords_seq(blocks@).take(i as int + 1),
                    ));
                    assert(coords_seq(blocks@).take(i as int + 1).len() <= coords_seq(
                        blocks@,
                    ).len());
                    let w = choose|w: int|
                        0 <= w < coords_seq(blocks@).take(i as int + 1).len() && blocked_cell(
                            self.placed(),
                            self.rows(),
                            self.cols(),
                            #[trigger] coords_seq(blocks@).take(i as int + 1)[w],
                        );
                    assert(coords_seq(blocks@)[w] == coords_seq(blocks@).take(i as int + 1)[w]);
                }
                return true;
            }
            i = i + 1;
        }
        proof {
            assert(coords_seq(blocks@).take(blocks@.len() as int) == coords_seq(blocks@));
        }
        false
    }

    /// The three collision flags of the subject blocks: a direction is
    /// blocked when any block's neighbor one cell that way is settled or out
    /// of the grid.
    pub fn check_collisions(&self, subject: &Vec<Block>) -> (r: CollisionResult)
        requires
            forall|i: int|
                0 <= i < subject@.len() ==> {
                    let p = (#[trigger] subject@[i]).coordinates;
                    -2 * COORD_LIMIT <= p.row <= 2 * COORD_LIMIT && -2 * COORD_LIMIT <= p.col <= 2
                        * COORD_LIMIT
                },
        ensures
            r.down == collides_dir(
                self.placed(),
                self.rows(),
                self.cols(),
                coords_seq(subject@),
                (1, 0),
            ),
            r.left == collides_dir(
                self.placed(),
                self.rows(),
                self.cols(),
                coords_seq(subject@),
                (0, -1),
            ),
            r.right == collides_dir(
                self.placed(),
                self.rows(),
                self.cols(),
                coords_seq(subject@),
                (0, 1),
            ),
    {
        let mut collision_result = CollisionResult::new();
        let mut i: usize = 0;
        while i < subject.len()
            invariant
                forall|k: int|
                    0 <= k < subject@.len() ==> {
                        let p = (#[trigger] subject@[k]).coordinates;
                        -2 * COORD_LIMIT <= p.row <= 2 * COORD_LIMIT && -2 * COORD_LIMIT <= p.col
                            <= 2 * COORD_LIMIT
                    },
                i <= subject@.len(),
                collision_result.down == collides_dir(
                    self.placed(),
                    self.rows(),
                    self.cols(),
                    coords_seq(subject@).take(i as int),
                    (1, 0),
                ),
                collision_result.left == collides_dir(
                    self.placed(),
                    self.rows(),
                    self.cols(),
                    coords_seq(subject@).take(i as int),
                    (0, -1),
                ),
                collision_result.right == collides_dir(
                    self.placed(),
                    self.rows(),
                    self.cols(),
                    coords_seq(subject@).take(i as int),
                    (0, 1),
                ),
            decreases subject@.len() - i as int,
        {
            let b = subject[i];
            proof {
                let cs = coords_seq(subject@);
                assert(cs[i as int] == coord_of(subject@[i as int]));
                assert(cs.take(i as int + 1) =~= cs.take(i as int).push(cs[i as int]));
                lemma_collides_dir_push(
                    self.placed(),
                    self.rows(),
                    self.cols(),
                    cs.take(i as int),
                    cs[i as int],
                    (1, 0),
                );
                lemma_collides_dir_push(
                    self.placed(),
                    self.rows(),
                    self.cols(),
                    cs.take(i as int),
                    cs[i as int],
                    (0, -1),
                );
                lemma_collides_dir_push(
                    self.placed(),
                    self.rows(),
                    self.cols(),
                    cs.take(i as int),
                    cs[i as int],
                    (0, 1),
                );
            }
            let below = Position::new(b.coordinates.row + 1, b.coordinates.col);
            if self.cell_blocked(below) {
                collision_result.down = true;
            }
            let left_of = Position::new(b.coordinates.row, b.coordinates.col - 1);
            if self.cell_blocked(left_of) {
                collision_result.left = true;
            }
            let right_of = Position::new(b.coordinates.row, b.coordinates.col + 1);
            if self.cell_blocked(right_of) {
                collision_result.right = true;
            }
            i = i + 1;
        }
        proof {
            assert(coords_seq(subject@).take(subject@.len() as int) == coords_seq(subject@));
        }
        collision_result
    }
}

/// A cell inside the grid is blocked downward exactly when the cell below
/// it is settled or the floor is directly beneath it.
pub proof fn lemma_down_collision_per_cell(
    placed: Set<(int, int)>,
    rows: int,
    cols: int,
    p: (int, int),
)
    requires
        spec_inbound(p, rows, cols),
    ensures
        blocked_cell(placed, rows, cols, (p.0 + 1, p.1)) == (placed.contains((p.0 + 1, p.1)) || p.0
            + 1 >= rows),
{
}

/// Placing blocks whose coordinates are all already settled changes the
/// placed set not at all, its size included: the store has set semantics.
pub proof fn lemma_put_existing_changes_nothing(
    placed: Set<(int, int)>,
    incoming: Set<(int, int)>,
)
    requires
        incoming.subset_of(placed),
    ensures
        placed.union(incoming) == placed,
{
    assert(placed.union(incoming) =~= placed);
}

/// A well-formed store holds exactly one block per occupied coordinate, so
/// its physical length is the size of the placed set.
pub proof fn lemma_storage_len_is_card(pb: PlacedBlocks)
    requires
        pb.wf(),
    ensures
        pb.storage@.len() == pb.coord_set().len(),
{
    pb.coords().unique_seq_to_set();
}

} // verus!
