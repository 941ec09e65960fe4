//! The game state and the per-tick driver: the active piece controller, the
//! turn/spawn manager, the lock-delay state machine, and `process_logic`,
//! which sequences input, collision, gravity and locking exactly once per
//! frame. The whole tick is mirrored by a mathematical transition function
//! over a ghost model of the state, and `process_logic` is proved to follow
//! it.

use vstd::prelude::*;

use crate::block::Block;
use crate::playfield::blocked_cell;
use crate::playfield::collides_dir;
use crate::playfield::placement_intersects;
use crate::playfield::CollisionResult;
use crate::playfield::Playfield;
use crate::playfield::PlayfieldSize;
use crate::position::shifted;
use crate::position::spec_inbound;
use crate::position::Position;
use crate::position::COORD_LIMIT;
use crate::tetramino_shape::kick_candidates;
use crate::tetramino_shape::next_rotation_state;
use crate::tetramino_shape::rotated_coords;
use crate::tetramino_shape::spec_kind_cells;
use crate::tetramino_shape::spec_pivot;
use crate::tetramino_shape::RotationDirection;
use crate::tetramino_shape::RotationResult;
use crate::tetramino_shape::RotationState;
use crate::tetramino_shape::Tetramino;
use crate::tetramino_shape::TetraminoKind;
use crate::timer::TimerMs;

verus! {

/// The logical actions pressed this tick, already decoded from whatever
/// device the host reads.
#[derive(Clone, Copy, Debug, PartialEq, Eq, Structural)]
pub struct InputEvent {
    pub left: bool,
    pub right: bool,
    pub rotate_clockwise: bool,
    pub rotate_counter_clockwise: bool,
    pub next_turn: bool,
}

impl InputEvent {
    /// A tick with nothing pressed.
    pub fn none() -> (r: InputEvent)
        ensures
            !r.left,
            !r.right,
            !r.rotate_clockwise,
            !r.rotate_counter_clockwise,
            !r.next_turn,
    {
        InputEvent {
            left: false,
            right: false,
            rotate_clockwise: false,
            rotate_counter_clockwise: false,
            next_turn: false,
        }
    }
}

/// The lock-delay state machine. `Idle` while the piece can still fall;
/// `Delaying` once it is grounded, holding the deadline after which it
/// settles; `Locking` for exactly one tick after it settles, so downstream
/// logic observes the lock event once.
#[derive(Clone, Copy, Debug, PartialEq, Eq, Structural)]
pub enum CollisionState {
    Idle,
    Delaying { timer: TimerMs },
    Locking,
}

/// The piece under player control: a shape plus its offset into the
/// playfield.
#[derive(Debug)]
pub struct ActiveTetramino {
    pub shape: Tetramino,
    pub offset: Position,
}

impl ActiveTetramino {
    /// The playfield cells the piece occupies: its shape-local cells
    /// translated by its offset.
    pub open spec fn abs_coords(self) -> Seq<(int, int)> {
        shifted(self.shape.coords(), self.offset.spec_pair())
    }

    /// A freshly constructed piece sits at offset zero.
    pub fn new(shape: Tetramino) -> (r: ActiveTetramino)
        ensures
            r.shape == shape,
            r.offset.spec_pair() == (0int, 0int),
    {
        ActiveTetramino { shape, offset: Position::new(0, 0) }
    }

    /// The same piece at the given offset.
    pub fn with_offset(self, offset: Position) -> (r: ActiveTetramino)
        ensures
            r.shape == self.shape,
            r.offset == offset,
    {
        ActiveTetramino { shape: self.shape, offset }
    }

    /// Moves the piece by a displacement; the shape itself is untouched.
    pub fn translate_with_offset(&mut self, offset: Position)
        requires
            isize::MIN <= old(self).offset.row + offset.row <= isize::MAX,
            isize::MIN <= old(self).offset.col + offset.col <= isize::MAX,
        ensures
            final(self).shape == old(self).shape,
            final(self).offset.row == old(self).offset.row + offset.row,
            final(self).offset.col == old(self).offset.col + offset.col,
    {
        self.offset = self.offset.add(offset);
    }

    /// The rotated shape and kick candidates for a rotation attempt of the
    /// piece's shape.
    pub fn get_rotation_result(&self, direction: RotationDirection) -> (r: RotationResult)
        requires
            self.shape.wf(),
        ensures
            r.tetramino.kind == self.shape.kind,
            r.tetramino.rotation_center == self.shape.rotation_center,
            r.tetramino.rotation_state == next_rotation_state(
                self.shape.rotation_state,
                direction,
            ),
            r.tetramino.coords() == rotated_coords(
                self.shape.rotation_center.spec_pair(),
                self.shape.coords(),
                direction,
            ),
            r.tetramino.wf(),
            crate::position::pairs_of(r.kick_offsets@) == kick_candidates(
                self.shape.kind,
                self.shape.rotation_state,
                next_rotation_state(self.shape.rotation_state, direction),
            ),
    {
        self.shape.get_rotated_and_offsets(direction)
    }

    /// The piece's blocks in playfield coordinates.
    pub fn get_blocks_with_offset(&self) -> (r: Vec<Block>)
        requires
            self.shape.wf(),
            -2 * COORD_LIMIT <= self.offset.row <= 2 * COORD_LIMIT,
            -2 * COORD_LIMIT <= self.offset.col <= 2 * COORD_LIMIT,
        ensures
            crate::block::coords_seq(r@) == self.abs_coords(),
            r@.len() == self.shape.blocks@.len(),
            forall|i: int|
                0 <= i < r@.len() ==> (#[trigger] r@[i]).color == self.shape.blocks@[i].color,
    {
        self.shape.get_blocks_with_offset(self.offset)
    }
}

/// Owns the piece under player control and the kind on deck. The next kind
/// is always populated: there is never a frame without a piece to come.
#[derive(Debug)]
pub struct TetraminoManager {
    pub active: ActiveTetramino,
    pub next: TetraminoKind,
}

impl TetraminoManager {
    /// A manager holding a random freshly spawned piece at offset zero and a
    /// random kind on deck.
    pub fn new() -> (r: TetraminoManager)
        ensures
            r.active.shape.wf(),
            r.active.shape.rotation_state == RotationState::Init,
            r.active.shape.coords() == spec_kind_cells(r.active.shape.kind),
            r.active.shape.rotation_center.spec_pair() == spec_pivot(r.active.shape.kind),
            r.active.offset.spec_pair() == (0int, 0int),
            forall|i: int|
                0 <= i < r.active.shape.blocks@.len()
                    ==> (#[trigger] r.active.shape.blocks@[i]).color
                    == crate::tetramino_shape::spec_kind_color(r.active.shape.kind),
    {
        TetraminoManager {
            active: ActiveTetramino::new(Tetramino::construct(TetraminoKind::random())),
            next: TetraminoKind::random(),
        }
    }

    /// Moves the active piece one row down.
    pub fn propogate_gravity(&mut self)
        requires
            old(self).active.offset.row < isize::MAX,
        ensures
            final(self).active.shape == old(self).active.shape,
            final(self).active.offset.row == old(self).active.offset.row + 1,
            final(self).active.offset.col == old(self).active.offset.col,
            final(self).next == old(self).next,
    {
        self.active.translate_with_offset(Position::new(1, 0));
    }

    /// The same manager with the active piece at the given offset.
    pub fn with_offset(self, offset: Position) -> (r: TetraminoManager)
        ensures
            r.active.shape == self.active.shape,
            r.active.offset == offset,
            r.next == self.next,
    {
        TetraminoManager { active: self.active.with_offset(offset), next: self.next }
    }

    /// Advances the turn: the kind on deck becomes the active piece, freshly
    /// constructed at offset zero, and a new random kind goes on deck.
    pub fn next_tetramino(&mut self)
        ensures
            final(self).active.shape.kind == old(self).next,
            final(self).active.shape.wf(),
            final(self).active.shape.rotation_state == RotationState::Init,
            final(self).active.shape.coords() == spec_kind_cells(old(self).next),
            final(self).active.shape.rotation_center.spec_pair() == spec_pivot(old(self).next),
            final(self).active.offset.spec_pair() == (0int, 0int),
            forall|i: int|
                0 <= i < final(self).active.shape.blocks@.len()
                    ==> (#[trigger] final(self).active.shape.blocks@[i]).color
                    == crate::tetramino_shape::spec_kind_color(old(self).next),
    {
        self.active = ActiveTetramino::new(Tetramino::construct(self.next));
        self.next = TetraminoKind::random();
    }

    /// A rotation attempt of the active piece's shape.
    pub fn rotate(&self, direction: RotationDirection) -> (r: RotationResult)
        requires
            self.active.shape.wf(),
        ensures
            r.tetramino.kind == self.active.shape.kind,
            r.tetramino.rotation_center == self.active.shape.rotation_center,
            r.tetramino.rotation_state == next_rotation_state(
                self.active.shape.rotation_state,
                direction,
            ),
            r.tetramino.coords() == rotated_coords(
                self.active.shape.rotation_center.spec_pair(),
                self.active.shape.coords(),
                direction,
            ),
            r.tetramino.wf(),
            crate::position::pairs_of(r.kick_offsets@) == kick_candidates(
                self.active.shape.kind,
                self.active.shape.rotation_state,
                next_rotation_state(self.active.shape.rotation_state, direction),
            ),
    {
        self.active.get_rotation_result(direction)
    }
}

/// The lock-delay state at the model level: deadlines as plain integers.
pub enum LockModel {
    Idle,
    Delaying { deadline: int, wait: int },
    Locking,
}

/// The whole game state as mathematics: grid dimensions, the placed set,
/// the active piece's shape-local cells, pivot, orientation and offset, the
/// kind on deck, both timers, and the lock state.
pub struct GameModel {
    pub rows: int,
    pub cols: int,
    pub placed: Set<(int, int)>,
    pub kind: TetraminoKind,
    pub rot_state: RotationState,
    pub pivot: (int, int),
    pub cells: Seq<(int, int)>,
    pub offset: (int, int),
    pub next: TetraminoKind,
    pub gravity_deadline: int,
    pub gravity_wait: int,
    pub place_delay: int,
    pub lock: LockModel,
}

/// The playfield cells the model's active piece occupies.
pub open spec fn abs_cells(g: GameModel) -> Seq<(int, int)> {
    shifted(g.cells, g.offset)
}

/// The model's collision flag one step in direction `d`.
pub open spec fn model_collision(g: GameModel, d: (int, int)) -> bool {
    collides_dir(g.placed, g.rows, g.cols, abs_cells(g), d)
}

/// A well-formed model: playable dimensions within the coordinate budget, a
/// four-cell piece hugging its kind's pivot, and an offset that stays within
/// one probe of the grid.
pub open spec fn model_wf(g: GameModel) -> bool {
    &&& 2 <= g.rows <= COORD_LIMIT as int
    &&& 7 <= g.cols <= COORD_LIMIT as int
    &&& g.cells.len() == 4
    &&& g.cells.no_duplicates()
    &&& g.pivot == spec_pivot(g.kind)
    &&& forall|i: int|
        0 <= i < g.cells.len() ==> {
            let p = #[trigger] g.cells[i];
            -2 <= p.0 - g.pivot.0 <= 2 && -2 <= p.1 - g.pivot.1 <= 2
        }
    &&& -8 <= g.offset.0 <= COORD_LIMIT as int + 8
    &&& -8 <= g.offset.1 <= COORD_LIMIT as int + 8
    &&& 0 <= g.gravity_wait
    &&& 0 <= g.gravity_deadline
    &&& 0 <= g.place_delay
}

/// The active piece moved by a displacement; nothing else changes.
pub open spec fn spec_translate(g: GameModel, d: (int, int)) -> GameModel {
    GameModel { offset: (g.offset.0 + d.0, g.offset.1 + d.1), ..g }
}

/// The first kick candidate, from index `i` on, whose shifted cells clear
/// the playfield, if any.
pub open spec fn first_valid_kick(
    g: GameModel,
    rot: Seq<(int, int)>,
    kicks: Seq<(int, int)>,
    i: int,
) -> Option<int>
    decreases kicks.len() - i,
    when 0 <= i
{
    if i >= kicks.len() {
        None
    } else if !placement_intersects(
        g.placed,
        g.rows,
        g.cols,
        shifted(rot, (g.offset.0 + kicks[i].0, g.offset.1 + kicks[i].1)),
    ) {
        Some(i)
    } else {
        first_valid_kick(g, rot, kicks, i + 1)
    }
}

/// A rotation attempt: the shape turns a quarter about its pivot and the
/// kick candidates of the transition are tried in table order; the first
/// that clears the playfield is committed, and if all fail the piece is
/// left exactly as it was.
pub open spec fn spec_try_rotate(g: GameModel, dir: RotationDirection) -> GameModel {
    let to = next_rotation_state(g.rot_state, dir);
    let rot = rotated_coords(g.pivot, g.cells, dir);
    let kicks = kick_candidates(g.kind, g.rot_state, to);
    match first_valid_kick(g, rot, kicks, 0) {
        Some(k) => GameModel {
            rot_state: to,
            cells: rot,
            offset: (g.offset.0 + kicks[k].0, g.offset.1 + kicks[k].1),
            ..g
        },
        None => g,
    }
}

/// The kind on deck spawns at the top-center of the field in its canonical
/// orientation, and `drawn` goes on deck.
pub open spec fn spec_spawn(g: GameModel, drawn: TetraminoKind) -> GameModel {
    GameModel {
        kind: g.next,
        rot_state: RotationState::Init,
        pivot: spec_pivot(g.next),
        cells: spec_kind_cells(g.next),
        offset: (0, g.cols / 2),
        next: drawn,
        ..g
    }
}

/// A gravity step: the piece falls one row, the gravity timer re-arms, and
/// any lock delay in progress is cancelled outright.
pub open spec fn spec_gravity_move(g: GameModel, now: int) -> GameModel {
    GameModel {
        offset: (g.offset.0 + 1, g.offset.1),
        gravity_deadline: now + g.gravity_wait,
        lock: LockModel::Idle,
        ..g
    }
}

/// One step of the lock-delay machine, driven by the grounded flag computed
/// at the start of the tick. Grounding starts the delay; an expired delay
/// settles the piece into the placed set and spawns the next one; `Locking`
/// resolves back to `Idle` one tick later.
pub open spec fn spec_lock_phase(
    g: GameModel,
    down0: bool,
    now: int,
    drawn: TetraminoKind,
) -> GameModel {
    match g.lock {
        LockModel::Idle => if down0 {
            GameModel {
                lock: LockModel::Delaying { deadline: now + g.place_delay, wait: g.place_delay },
                ..g
            }
        } else {
            g
        },
        LockModel::Delaying { deadline, wait } => if deadline <= now {
            let settled = GameModel { placed: g.placed.union(abs_cells(g).to_set()), ..g };
            GameModel { lock: LockModel::Locking, ..spec_spawn(settled, drawn) }
        } else {
            g
        },
        LockModel::Locking => GameModel { lock: LockModel::Idle, ..g },
    }
}

/// The input-driven phases of a tick: a left then a right step, each gated
/// on the collision flags computed at the start of the tick, then the two
/// rotation attempts, then the debug turn advance. `d1` stands for the kind
/// the random source hands to the turn advance.
pub open spec fn spec_moves(g: GameModel, input: InputEvent, d1: TetraminoKind) -> GameModel {
    let left0 = model_collision(g, (0, -1));
    let right0 = model_collision(g, (0, 1));
    let g1 = if input.left && !left0 {
        spec_translate(g, (0, -1))
    } else {
        g
    };
    let g2 = if input.right && !right0 {
        spec_translate(g1, (0, 1))
    } else {
        g1
    };
    let g3 = if input.rotate_clockwise {
        spec_try_rotate(g2, RotationDirection::Clockwise)
    } else {
        g2
    };
    let g4 = if input.rotate_counter_clockwise {
        spec_try_rotate(g3, RotationDirection::CounterClockwise)
    } else {
        g3
    };
    if input.next_turn {
        spec_spawn(g4, d1)
    } else {
        g4
    }
}

/// One whole tick: the collision flags are computed once up front, then
/// horizontal moves, rotations, a debug turn advance, gravity and the lock
/// machine run in that order. `d1` and `d2` stand for the kinds the random
/// source hands to the two spawns a tick can at most perform.
pub open spec fn spec_tick(
    g: GameModel,
    input: InputEvent,
    now: int,
    d1: TetraminoKind,
    d2: TetraminoKind,
) -> GameModel {
    let down0 = model_collision(g, (1, 0));
    let g5 = spec_moves(g, input, d1);
    let g6 = if !down0 && g5.gravity_deadline <= now {
        spec_gravity_move(g5, now)
    } else {
        g5
    };
    spec_lock_phase(g6, down0, now, d2)
}

/// A tick with nothing pressed.
pub open spec fn spec_no_input(input: InputEvent) -> bool {
    &&& !input.left
    &&& !input.right
    &&& !input.rotate_clockwise
    &&& !input.rotate_counter_clockwise
    &&& !input.next_turn
}

/// Every pivot sits on the cell (0..1, 0..1) of its shape.
pub proof fn lemma_pivot_small(kind: TetraminoKind)
    ensures
        0 <= spec_pivot(kind).0 <= 1,
        0 <= spec_pivot(kind).1 <= 1,
{
}

/// When one step in direction `d` is not blocked, the piece sits in (or
/// hugs) the grid, which pins its offset to within a few cells of the grid
/// extent.
pub proof fn lemma_unblocked_step_bounds_offset(g: GameModel, d: (int, int))
    requires
        model_wf(g),
        !model_collision(g, d),
        -1 <= d.0 <= 1,
        -1 <= d.1 <= 1,
    ensures
        -8 <= g.offset.0 + d.0,
        g.offset.0 + d.0 <= g.rows + 2,
        -8 <= g.offset.1 + d.1,
        g.offset.1 + d.1 <= g.cols + 2,
        g.offset.0 <= g.rows + 2,
        g.offset.1 <= g.cols + 2,
{
    let c0 = g.cells[0];
    let a0 = abs_cells(g)[0];
    assert(a0 == (c0.0 + g.offset.0, c0.1 + g.offset.1));
    assert(!blocked_cell(g.placed, g.rows, g.cols, (a0.0 + d.0, a0.1 + d.1)));
    lemma_pivot_small(g.kind);
}

/// A piece whose cells all clear the playfield sits inside the grid, which
/// pins its offset to within a few cells of the grid extent.
pub proof fn lemma_clear_placement_bounds_offset(g: GameModel, cells: Seq<(int, int)>, off: (
    int,
    int,
))
    requires
        model_wf(g),
        cells.len() == 4,
        forall|i: int|
            0 <= i < cells.len() ==> {
                let p = #[trigger] cells[i];
                -2 <= p.0 - g.pivot.0 <= 2 && -2 <= p.1 - g.pivot.1 <= 2
            },
        !placement_intersects(g.placed, g.rows, g.cols, shifted(cells, off)),
    ensures
        -3 <= off.0 <= g.rows + 1,
        -3 <= off.1 <= g.cols + 1,
{
    let a0 = shifted(cells, off)[0];
    assert(a0 == (cells[0].0 + off.0, cells[0].1 + off.1));
    assert(!blocked_cell(g.placed, g.rows, g.cols, a0));
    assert(spec_inbound(a0, g.rows, g.cols));
    lemma_pivot_small(g.kind);
}

/// Per-frame game state: playfield, piece controller, the two timers and
/// the lock machine. Each tick owns the aggregate exclusively; a renderer
/// reads a settled snapshot between ticks.
#[derive(Debug)]
pub struct GameState {
    pub playfield: Playfield,
    pub tetramino_manager: TetraminoManager,
    pub descend_delay_timer: TimerMs,
    pub place_delay_ms: usize,
    pub collision_state: CollisionState,
}

impl GameState {
    /// The state as mathematics; every contract of the tick speaks of this.
    pub open spec fn model(self) -> GameModel {
        GameModel {
            rows: self.playfield.rows(),
            cols: self.playfield.cols(),
            placed: self.playfield.placed(),
            kind: self.tetramino_manager.active.shape.kind,
            rot_state: self.tetramino_manager.active.shape.rotation_state,
            pivot: self.tetramino_manager.active.shape.rotation_center.spec_pair(),
            cells: self.tetramino_manager.active.shape.coords(),
            offset: self.tetramino_manager.active.offset.spec_pair(),
            next: self.tetramino_manager.next,
            gravity_deadline: self.descend_delay_timer.deadline_ms as int,
            gravity_wait: self.descend_delay_timer.wait_ms as int,
            place_delay: self.place_delay_ms as int,
            lock: match self.collision_state {
                CollisionState::Idle => LockModel::Idle,
                CollisionState::Delaying { timer } => LockModel::Delaying {
                    deadline: timer.deadline_ms as int,
                    wait: timer.wait_ms as int,
                },
                CollisionState::Locking => LockModel::Locking,
            },
        }
    }

    /// A well-formed game state: a well-formed playfield and piece, and a
    /// model within all coordinate budgets.
    pub open spec fn wf(self) -> bool {
        &&& self.playfield.wf()
        &&& self.tetramino_manager.active.shape.wf()
        &&& model_wf(self.model())
    }

    /// A fresh session: an empty playfield of the given size, a random
    /// piece spawned at the top-center, both timers armed, the lock machine
    /// idle.
    pub fn new(
        playfield_size: PlayfieldSize,
        gravity_delay_ms: usize,
        placement_delay_ms: usize,
        now_ms: u64,
    ) -> (r: GameState)
        requires
            2 <= playfield_size.rows <= COORD_LIMIT,
            7 <= playfield_size.cols <= COORD_LIMIT,
            now_ms + gravity_delay_ms <= u64::MAX,
        ensures
            r.wf(),
            r.playfield.size == playfield_size,
            r.playfield.placed() == Set::<(int, int)>::empty(),
            r.model().rot_state == RotationState::Init,
            r.model().cells == spec_kind_cells(r.model().kind),
            r.model().offset == (0int, playfield_size.cols as int / 2),
            r.model().gravity_wait == gravity_delay_ms as int,
            r.model().gravity_deadline == now_ms + gravity_delay_ms,
            r.model().place_delay == placement_delay_ms as int,
            r.model().lock == LockModel::Idle,
    {
        let half_col: isize = ((playfield_size.cols as usize) / 2) as isize;
        GameState {
            playfield: Playfield::new(playfield_size),
            descend_delay_timer: TimerMs::new(gravity_delay_ms, now_ms),
            place_delay_ms: placement_delay_ms,
            collision_state: CollisionState::Idle,
            tetramino_manager: TetraminoManager::new().with_offset(Position::new(0, half_col)),
        }
    }

    /// The collision flags of the active piece against the playfield.
    fn check_collision(&self) -> (r: CollisionResult)
        requires
            self.wf(),
        ensures
            r.down == model_collision(self.model(), (1, 0)),
            r.left == model_collision(self.model(), (0, -1)),
            r.right == model_collision(self.model(), (0, 1)),
    {
        let blocks = self.tetramino_manager.active.get_blocks_with_offset();
        proof {
            let m = self.model();
            assert forall|i: int|
                0 <= i < blocks@.len() implies {
                let p = (#[trigger] blocks@[i]).coordinates;
                -2 * COORD_LIMIT <= p.row <= 2 * COORD_LIMIT && -2 * COORD_LIMIT <= p.col <= 2
                    * COORD_LIMIT
            } by {
                assert(crate::block::coords_seq(blocks@)[i] == crate::block::coord_of(
                    blocks@[i],
                ));
                assert(abs_cells(m)[i] == (m.cells[i].0 + m.offset.0, m.cells[i].1 + m.offset.1));
                assert(-2 <= m.cells[i].0 - m.pivot.0 <= 2 && -2 <= m.cells[i].1 - m.pivot.1 <= 2);
                lemma_pivot_small(m.kind);
            }
        }
        let r = self.playfield.check_collisions(&blocks);
        proof {
            assert(crate::block::coords_seq(blocks@) == abs_cells(self.model()));
        }
        r
    }

    /// Moves the active piece by one already-validated step.
    fn translate_cur_tetramino(&mut self, offset: Position)
        requires
            old(self).wf(),
            -1 <= offset.row <= 1,
            -1 <= offset.col <= 1,
            -8 <= old(self).model().offset.0 + offset.row <= COORD_LIMIT + 8,
            -8 <= old(self).model().offset.1 + offset.col <= COORD_LIMIT + 8,
        ensures
            final(self).wf(),
            final(self).model() == spec_translate(
                old(self).model(),
                (offset.row as int, offset.col as int),
            ),
    {
        self.tetramino_manager.active.translate_with_offset(offset);
    }

    /// A rotation attempt per the kick protocol: the rotated shape's five
    /// kick candidates are tried in table order against the playfield, the
    /// first that clears is committed, and if all five fail the piece stays
    /// exactly as it was.
    #[verifier::loop_isolation(false)]
    pub fn try_rotate(&mut self, direction: RotationDirection)
        requires
            old(self).wf(),
        ensures
            final(self).wf(),
            final(self).model() == spec_try_rotate(old(self).model(), direction),
            final(self).model().offset == old(self).model().offset || (
            -3 <= final(self).model().offset.0 <= COORD_LIMIT + 2
                && -3 <= final(self).model().offset.1 <= COORD_LIMIT + 2),
    {
        let ghost g = self.model();
        let rotation_result = self.tetramino_manager.rotate(direction);
        let ghost to = next_rotation_state(g.rot_state, direction);
        let ghost rot = rotated_coords(g.pivot, g.cells, direction);
        let ghost kicks = kick_candidates(g.kind, g.rot_state, to);
        proof {
            crate::tetramino_shape::lemma_offset_table_bounded(g.kind, g.rot_state);
            crate::tetramino_shape::lemma_offset_table_bounded(g.kind, to);
        }

        let mut chosen: usize = 5;
        let mut k: usize = 0;
        while k < 5
            invariant
                k <= 5,
                chosen <= 5,
                chosen == 5 ==> first_valid_kick(g, rot, kicks, 0) == first_valid_kick(
                    g,
                    rot,
                    kicks,
                    k as int,
                ),
                chosen < 5 ==> {
                    &&& first_valid_kick(g, rot, kicks, 0) == Some(chosen as int)
                    &&& !placement_intersects(
                        g.placed,
                        g.rows,
                        g.cols,
                        shifted(
                            rot,
                            (
                                g.offset.0 + kicks[chosen as int].0,
                                g.offset.1 + kicks[chosen as int].1,
                            ),
                        ),
                    )
                },
            decreases 5 - k as int,
        {
            if chosen == 5 {
                let kick = rotation_result.kick_offsets[k];
                proof {
                    assert(crate::position::pairs_of(rotation_result.kick_offsets@)[k as int]
                        == kick.spec_pair());
                    assert(kick.spec_pair() == kicks[k as int]);
                }
                let candidate_offset = self.tetramino_manager.active.offset.add(kick);
                let candidate_blocks = rotation_result.tetramino.get_blocks_with_offset(
                    candidate_offset,
                );
                if !self.playfield.check_intersections(&candidate_blocks) {
                    chosen = k;
                    proof {
                        assert(crate::block::coords_seq(candidate_blocks@) == shifted(
                            rot,
                            (g.offset.0 + kicks[k as int].0, g.offset.1 + kicks[k as int].1),
                        ));
                        assert(first_valid_kick(g, rot, kicks, k as int) == Some(k as int));
                    }
                } else {
                    proof {
                        assert(crate::block::coords_seq(candidate_blocks@) == shifted(
                            rot,
                            (g.offset.0 + kicks[k as int].0, g.offset.1 + kicks[k as int].1),
                        ));
                        assert(first_valid_kick(g, rot, kicks, k as int) == first_valid_kick(
                            g,
                            rot,
                            kicks,
                            k as int + 1,
                        ));
                    }
                }
            }
            k = k + 1;
        }

        if chosen < 5 {
            let kick = rotation_result.kick_offsets[chosen];
            proof {
                assert(crate::position::pairs_of(rotation_result.kick_offsets@)[chosen as int]
                    == kick.spec_pair());
                assert(kick.spec_pair() == kicks[chosen as int]);
                lemma_clear_placement_bounds_offset(
                    g,
                    rot,
                    (g.offset.0 + kicks[chosen as int].0, g.offset.1 + kicks[chosen as int].1),
                );
            }
            let new_offset = self.tetramino_manager.active.offset.add(kick);
            self.tetramino_manager.active.offset = new_offset;
            self.tetramino_manager.active.shape = rotation_result.tetramino;
            proof {
                assert(self.model() == spec_try_rotate(g, direction));
            }
        } else {
            proof {
                assert(first_valid_kick(g, rot, kicks, 0) == first_valid_kick(g, rot, kicks, 5));
                assert(first_valid_kick(g, rot, kicks, 5) is None);
                assert(self.model() == spec_try_rotate(g, direction));
            }
        }
    }

    /// Settles the active piece's blocks into the playfield with set
    /// semantics; callers decide when, this only merges.
    fn place_current_tetramino(&mut self)
        requires
            old(self).wf(),
        ensures
            final(self).wf(),
            final(self).model() == (GameModel {
                placed: old(self).model().placed.union(abs_cells(old(self).model()).to_set()),
                ..old(self).model()
            }),
    {
        let blocks = self.tetramino_manager.active.get_blocks_with_offset();
        self.playfield.put_blocks(&blocks);
    }

    /// The gravity step of a tick, gated on the grounded flag computed at
    /// the start of the tick: when the piece was not grounded and the
    /// gravity timer has expired, the piece falls one row, the timer
    /// re-arms, and any lock delay in progress is cancelled.
    fn apply_gravity(&mut self, down: bool, now_ms: u64)
        requires
            old(self).wf(),
            now_ms + old(self).descend_delay_timer.wait_ms <= u64::MAX,
            !down ==> old(self).model().offset.0 <= COORD_LIMIT + 7,
        ensures
            final(self).wf(),
            final(self).model() == (if !down && old(self).model().gravity_deadline <= now_ms as int {
                spec_gravity_move(old(self).model(), now_ms as int)
            } else {
                old(self).model()
            }),
    {
        if !down && self.descend_delay_timer.update(now_ms) {
            self.tetramino_manager.active.translate_with_offset(Position::new(1, 0));
            self.collision_state = CollisionState::Idle;
        }
    }

    /// The lock-delay step of a tick, driven by the grounded flag computed
    /// at the start of the tick: grounding starts the delay, an expired
    /// delay settles the piece and spawns the kind on deck at the
    /// top-center, and `Locking` resolves back to `Idle` one tick later.
    fn apply_lock_phase(&mut self, down: bool, now_ms: u64)
        requires
            old(self).wf(),
            now_ms + old(self).place_delay_ms <= u64::MAX,
        ensures
            final(self).wf(),
            final(self).model() == spec_lock_phase(
                old(self).model(),
                down,
                now_ms as int,
                final(self).tetramino_manager.next,
            ),
    {
        let cs = self.collision_state;
        match cs {
            CollisionState::Idle => {
                if down {
                    let timer = TimerMs::new(self.place_delay_ms, now_ms);
                    self.collision_state = CollisionState::Delaying { timer };
                }
            },
            CollisionState::Delaying { timer } => {
                if timer.deadline_ms <= now_ms {
                    self.place_current_tetramino();
                    self.next_turn();
                    self.collision_state = CollisionState::Locking;
                }
            },
            CollisionState::Locking => {
                self.collision_state = CollisionState::Idle;
            },
        }
    }

    /// Advances the turn: the kind on deck spawns at the top-center column
    /// of the field and a fresh random kind goes on deck.
    pub fn next_turn(&mut self)
        requires
            old(self).wf(),
        ensures
            final(self).wf(),
            final(self).model() == spec_spawn(old(self).model(), final(self).model().next),
    {
        self.tetramino_manager.next_tetramino();
        let half_col: isize = ((self.playfield.size.cols as usize) / 2) as isize;
        self.tetramino_manager.active.offset = Position::new(0, half_col);
    }
}

impl GameState {
    /// The input-driven phases of a tick: the horizontal steps gated on the
    /// collision flags computed up front, then the rotation attempts, then
    /// the debug turn advance.
    #[verifier::rlimit(100)]
    fn apply_moves(&mut self, input: InputEvent, collision: CollisionResult)
        requires
            old(self).wf(),
            collision.left == model_collision(old(self).model(), (0, -1)),
            collision.right == model_collision(old(self).model(), (0, 1)),
        ensures
            final(self).wf(),
            final(self).model() == spec_moves(
                old(self).model(),
                input,
                final(self).tetramino_manager.next,
            ),
            final(self).model().offset.0 <= COORD_LIMIT + 2 || final(self).model().offset.0 == old(
                self,
            ).model().offset.0,
    {
        let ghost g0 = self.model();

        if input.left && !collision.left {
            proof {
                lemma_unblocked_step_bounds_offset(g0, (0, -1));
            }
            self.translate_cur_tetramino(Position::new(0, -1));
        }
        let ghost g1 = if input.left && !model_collision(g0, (0, -1)) {
            spec_translate(g0, (0, -1))
        } else {
            g0
        };
        proof {
            assert(self.model() == g1);
        }

        if input.right && !collision.right {
            proof {
                if input.left && !model_collision(g0, (0, -1)) {
                    assert(g1.offset == (g0.offset.0, g0.offset.1 - 1));
                } else {
                    lemma_unblocked_step_bounds_offset(g0, (0, 1));
                }
            }
            self.translate_cur_tetramino(Position::new(0, 1));
        }
        let ghost g2 = if input.right && !model_collision(g0, (0, 1)) {
            spec_translate(g1, (0, 1))
        } else {
            g1
        };
        proof {
            assert(self.model() == g2);
        }

        if input.rotate_clockwise {
            self.try_rotate(RotationDirection::Clockwise);
        }
        let ghost g3 = if input.rotate_clockwise {
            spec_try_rotate(g2, RotationDirection::Clockwise)
        } else {
            g2
        };
        proof {
            assert(self.model() == g3);
            assert(g3.offset.0 <= COORD_LIMIT + 2 || g3.offset.0 == g0.offset.0);
        }

        if input.rotate_counter_clockwise {
            self.try_rotate(RotationDirection::CounterClockwise);
        }
        let ghost g4 = if input.rotate_counter_clockwise {
            spec_try_rotate(g3, RotationDirection::CounterClockwise)
        } else {
            g3
        };
        proof {
            assert(self.model() == g4);
            assert(g4.offset.0 <= COORD_LIMIT + 2 || g4.offset.0 == g0.offset.0);
        }

        if input.next_turn {
            self.next_turn();
        }
        proof {
            let d1w = self.tetramino_manager.next;
            let g5 = if input.next_turn {
                spec_spawn(g4, d1w)
            } else {
                g4
            };
            assert(self.model() == g5);
            assert(self.model() == spec_moves(g0, input, d1w));
        }
    }
}

/// One tick of the game, the per-frame driver: compute the collision flags
/// once, then apply horizontal input, rotations, the debug turn advance,
/// gravity, and the lock-delay machine, in that order. The mutation is
/// proved equal to `spec_tick` of the prior state for some pair of randomly
/// drawn kinds.
#[verifier::rlimit(100)]
pub fn process_logic(game_state: &mut GameState, input: InputEvent, now_ms: u64)
    requires
        old(game_state).wf(),
        now_ms + old(game_state).place_delay_ms <= u64::MAX,
        now_ms + old(game_state).descend_delay_timer.wait_ms <= u64::MAX,
    ensures
        final(game_state).wf(),
        exists|d1: TetraminoKind, d2: TetraminoKind|
            final(game_state).model() == spec_tick(
                old(game_state).model(),
                input,
                now_ms as int,
                d1,
                d2,
            ),
{
    let ghost g0 = game_state.model();
    let collision = game_state.check_collision();
    let ghost down0 = model_collision(g0, (1, 0));

    game_state.apply_moves(input, collision);
    let ghost d1w = game_state.tetramino_manager.next;
    let ghost g5 = spec_moves(g0, input, d1w);
    proof {
        assert(game_state.model() == g5);
        if !down0 {
            lemma_unblocked_step_bounds_offset(g0, (1, 0));
        }
    }

    game_state.apply_gravity(collision.down, now_ms);
    let ghost g6 = if !down0 && g5.gravity_deadline <= now_ms as int {
        spec_gravity_move(g5, now_ms as int)
    } else {
        g5
    };
    proof {
        assert(game_state.model() == g6);
    }

    game_state.apply_lock_phase(collision.down, now_ms);
    let ghost d2w = game_state.tetramino_manager.next;
    proof {
        assert(game_state.model() == spec_lock_phase(g6, down0, now_ms as int, d2w));
        assert(game_state.model() == spec_tick(g0, input, now_ms as int, d1w, d2w));
    }
}

/// Kick candidates are honored in table order: when a candidate is chosen,
/// it clears the playfield and every candidate before it does not.
pub proof fn lemma_first_valid_kick_is_first(
    g: GameModel,
    rot: Seq<(int, int)>,
    kicks: Seq<(int, int)>,
    i: int,
    k: int,
)
    requires
        0 <= i,
        first_valid_kick(g, rot, kicks, i) == Some(k),
    ensures
        i <= k < kicks.len(),
        !placement_intersects(
            g.placed,
            g.rows,
            g.cols,
            shifted(rot, (g.offset.0 + kicks[k].0, g.offset.1 + kicks[k].1)),
        ),
        forall|j: int|
            i <= j < k ==> placement_intersects(
                g.placed,
                g.rows,
                g.cols,
                shifted(rot, (g.offset.0 + (#[trigger] kicks[j]).0, g.offset.1 + kicks[j].1)),
            ),
    decreases kicks.len() - i,
{
    if i < kicks.len() {
        if !placement_intersects(
            g.placed,
            g.rows,
            g.cols,
            shifted(rot, (g.offset.0 + kicks[i].0, g.offset.1 + kicks[i].1)),
        ) {
        } else {
            lemma_first_valid_kick_is_first(g, rot, kicks, i + 1, k);
        }
    }
}

/// A committed rotation is never a transient overlap made permanent: the
/// cells of the piece after a rotation that changed anything all lie inside
/// the grid and clear the settled blocks.
pub proof fn lemma_committed_rotation_is_clear(g: GameModel, dir: RotationDirection)
    requires
        ({
            let to = next_rotation_state(g.rot_state, dir);
            let rot = rotated_coords(g.pivot, g.cells, dir);
            let kicks = kick_candidates(g.kind, g.rot_state, to);
            first_valid_kick(g, rot, kicks, 0) is Some
        }),
    ensures
        !placement_intersects(g.placed, g.rows, g.cols, abs_cells(spec_try_rotate(g, dir))),
{
    let to = next_rotation_state(g.rot_state, dir);
    let rot = rotated_coords(g.pivot, g.cells, dir);
    let kicks = kick_candidates(g.kind, g.rot_state, to);
    let k = first_valid_kick(g, rot, kicks, 0)->0;
    lemma_first_valid_kick_is_first(g, rot, kicks, 0, k);
}

/// A gravity step in a tick forces the lock state back to `Idle`, whatever
/// it was: an in-progress lock delay is cancelled outright, never merely
/// paused.
pub proof fn lemma_gravity_cancels_lock_delay(
    g: GameModel,
    input: InputEvent,
    now: int,
    d1: TetraminoKind,
    d2: TetraminoKind,
)
    requires
        !model_collision(g, (1, 0)),
        g.gravity_deadline <= now,
    ensures
        spec_tick(g, input, now, d1, d2).lock is Idle,
{
}

/// With the piece grounded and nothing pressed, a lock delay fires exactly
/// at its deadline: the earlier tick changes nothing at all, while the
/// first tick at or past the deadline settles the piece's cells into the
/// placed set and spawns the kind on deck at the top-center of the field.
pub proof fn lemma_lock_delay_boundary(
    g: GameModel,
    input: InputEvent,
    now: int,
    deadline: int,
    wait: int,
    d1: TetraminoKind,
    d2: TetraminoKind,
)
    requires
        spec_no_input(input),
        model_collision(g, (1, 0)),
        g.lock == (LockModel::Delaying { deadline, wait }),
    ensures
        now < deadline ==> spec_tick(g, input, now, d1, d2) == g,
        now >= deadline ==> ({
            let r = spec_tick(g, input, now, d1, d2);
            &&& r.placed == g.placed.union(abs_cells(g).to_set())
            &&& r.lock == LockModel::Locking
            &&& r.kind == g.next
            &&& r.rot_state == RotationState::Init
            &&& r.cells == spec_kind_cells(g.next)
            &&& r.offset == (0int, g.cols / 2)
            &&& r.next == d2
        }),
{
}

} // verus!
