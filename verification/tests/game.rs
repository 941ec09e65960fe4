use tetrs::process_logic;
use tetrs::ActiveTetramino;
use tetrs::Block;
use tetrs::BlockColor;
use tetrs::CollisionState;
use tetrs::GameState;
use tetrs::InputEvent;
use tetrs::PlayfieldSize;
use tetrs::Position;
use tetrs::RotationDirection;
use tetrs::RotationState;
use tetrs::Tetramino;
use tetrs::TetraminoKind;

fn block_at(row: isize, col: isize) -> Block {
    Block { color: BlockColor::Red, coordinates: Position::new(row, col) }
}

fn sorted_coords(blocks: &Vec<Block>) -> Vec<(isize, isize)> {
    let mut v: Vec<(isize, isize)> = blocks
        .iter()
        .map(|b| (b.coordinates.row, b.coordinates.col))
        .collect();
    v.sort();
    v
}

/// A 20x10 session with the given piece forced as the active one.
fn session(kind: TetraminoKind, offset: Position, gravity_ms: usize, place_ms: usize) -> GameState {
    let mut gs = GameState::new(PlayfieldSize { rows: 20, cols: 10 }, gravity_ms, place_ms, 0);
    gs.tetramino_manager.active =
        ActiveTetramino::new(Tetramino::construct(kind)).with_offset(offset);
    gs
}

fn left_input() -> InputEvent {
    InputEvent { left: true, ..InputEvent::none() }
}

#[test]
fn new_session_spawns_at_top_center() {
    let gs = GameState::new(PlayfieldSize { rows: 20, cols: 10 }, 200, 1000, 0);
    assert_eq!(
        (gs.tetramino_manager.active.offset.row, gs.tetramino_manager.active.offset.col),
        (0, 5)
    );
    assert_eq!(gs.tetramino_manager.active.shape.rotation_state, RotationState::Init);
    assert!(gs.playfield.placed_blocks.get_blocks().is_empty());
    assert!(matches!(gs.collision_state, CollisionState::Idle));
}

#[test]
fn kick_candidates_tried_in_table_order() {
    // a T piece whose first two kick candidates are blocked: the committed
    // offset must be exactly the third candidate, (-1,-1)
    let mut gs = session(TetraminoKind::T, Position::new(5, 5), 1000, 1000);
    gs.playfield.put_blocks(&vec![block_at(7, 6), block_at(7, 5)]);
    gs.try_rotate(RotationDirection::Clockwise);
    assert_eq!(
        (gs.tetramino_manager.active.offset.row, gs.tetramino_manager.active.offset.col),
        (4, 4)
    );
    assert_eq!(gs.tetramino_manager.active.shape.rotation_state, RotationState::Right);
    assert_eq!(
        sorted_coords(&gs.tetramino_manager.active.shape.blocks),
        vec![(0, 1), (1, 1), (1, 2), (2, 1)]
    );
}

#[test]
fn rotation_rejected_when_all_kicks_fail() {
    // a T piece in the bottom-right corner, boxed in so that candidates one
    // to three hit placed blocks and four and five leave the grid
    let mut gs = session(TetraminoKind::T, Position::new(17, 7), 1000, 1000);
    gs.playfield
        .put_blocks(&vec![block_at(19, 8), block_at(19, 7), block_at(16, 7)]);
    gs.try_rotate(RotationDirection::Clockwise);
    assert_eq!(
        (gs.tetramino_manager.active.offset.row, gs.tetramino_manager.active.offset.col),
        (17, 7)
    );
    assert_eq!(gs.tetramino_manager.active.shape.rotation_state, RotationState::Init);
    assert_eq!(
        sorted_coords(&gs.tetramino_manager.active.shape.blocks),
        vec![(0, 1), (1, 0), (1, 1), (1, 2)]
    );
}

#[test]
fn o_piece_rotation_stays_in_place() {
    // the O piece's single effective kick exactly undoes the pivot spin, so
    // its four cells never move
    let mut gs = session(TetraminoKind::O, Position::new(10, 4), 1000, 1000);
    let before = sorted_coords(&gs.tetramino_manager.active.get_blocks_with_offset());
    gs.try_rotate(RotationDirection::Clockwise);
    let after = sorted_coords(&gs.tetramino_manager.active.get_blocks_with_offset());
    assert_eq!(before, after);
    assert_eq!(gs.tetramino_manager.active.shape.rotation_state, RotationState::Right);
}

#[test]
fn o_piece_at_left_wall_ignores_move_left() {
    let mut gs = session(TetraminoKind::O, Position::new(10, 0), 1_000_000, 1000);
    let collision = gs
        .playfield
        .check_collisions(&gs.tetramino_manager.active.get_blocks_with_offset());
    assert!(collision.left);
    process_logic(&mut gs, left_input(), 10);
    assert_eq!(
        (gs.tetramino_manager.active.offset.row, gs.tetramino_manager.active.offset.col),
        (10, 0)
    );
}

#[test]
fn move_left_applies_when_clear() {
    let mut gs = session(TetraminoKind::O, Position::new(10, 4), 1_000_000, 1000);
    process_logic(&mut gs, left_input(), 10);
    assert_eq!(
        (gs.tetramino_manager.active.offset.row, gs.tetramino_manager.active.offset.col),
        (10, 3)
    );
}

#[test]
fn gravity_moves_piece_once_per_period() {
    let mut gs = session(TetraminoKind::O, Position::new(0, 4), 100, 1000);
    process_logic(&mut gs, InputEvent::none(), 99);
    assert_eq!(gs.tetramino_manager.active.offset.row, 0);
    process_logic(&mut gs, InputEvent::none(), 100);
    assert_eq!(gs.tetramino_manager.active.offset.row, 1);
    // the timer re-armed at 100, so 150 is still within the next period
    process_logic(&mut gs, InputEvent::none(), 150);
    assert_eq!(gs.tetramino_manager.active.offset.row, 1);
    process_logic(&mut gs, InputEvent::none(), 200);
    assert_eq!(gs.tetramino_manager.active.offset.row, 2);
}

#[test]
fn lock_delay_places_piece_only_at_deadline() {
    // an O piece resting on the floor with a 500 ms lock delay
    let mut gs = session(TetraminoKind::O, Position::new(18, 0), 1_000_000, 500);
    process_logic(&mut gs, InputEvent::none(), 1000);
    match gs.collision_state {
        CollisionState::Delaying { timer } => assert_eq!(timer.deadline_ms, 1500),
        _ => panic!("grounding must start the lock delay"),
    }
    // 499 ms into the delay nothing is placed yet
    process_logic(&mut gs, InputEvent::none(), 1499);
    assert!(gs.playfield.placed_blocks.get_blocks().is_empty());
    assert!(matches!(gs.collision_state, CollisionState::Delaying { .. }));
    // at the deadline the piece settles and the next one spawns at top-center
    process_logic(&mut gs, InputEvent::none(), 1500);
    assert_eq!(
        sorted_coords(gs.playfield.placed_blocks.get_blocks()),
        vec![(18, 0), (18, 1), (19, 0), (19, 1)]
    );
    assert_eq!(
        (gs.tetramino_manager.active.offset.row, gs.tetramino_manager.active.offset.col),
        (0, 5)
    );
    assert!(matches!(gs.collision_state, CollisionState::Locking));
    // the lock event resolves after exactly one more tick
    process_logic(&mut gs, InputEvent::none(), 1501);
    assert!(matches!(gs.collision_state, CollisionState::Idle));
}

#[test]
fn gravity_cancels_lock_delay_to_idle() {
    // an O piece grounded on a one-block ledge; sliding off it lets gravity
    // pull the piece down, which must reset the lock state to Idle
    let mut gs = session(TetraminoKind::O, Position::new(8, 3), 100, 500);
    gs.playfield.put_blocks(&vec![block_at(10, 4)]);
    process_logic(&mut gs, InputEvent::none(), 100);
    assert!(matches!(gs.collision_state, CollisionState::Delaying { .. }));
    assert_eq!(gs.tetramino_manager.active.offset.row, 8);
    // slide left off the ledge; the stale grounded flag skips gravity here
    process_logic(&mut gs, left_input(), 200);
    assert!(matches!(gs.collision_state, CollisionState::Delaying { .. }));
    assert_eq!(
        (gs.tetramino_manager.active.offset.row, gs.tetramino_manager.active.offset.col),
        (8, 2)
    );
    // now the piece is ungrounded: gravity fires and cancels the delay
    process_logic(&mut gs, InputEvent::none(), 300);
    assert!(matches!(gs.collision_state, CollisionState::Idle));
    assert_eq!(gs.tetramino_manager.active.offset.row, 9);
    assert!(gs.playfield.placed_blocks.get_blocks().len() == 1);
}

#[test]
fn i_piece_falls_and_locks_into_a_line() {
    // end to end: an I piece spawned at the top of an empty 20x10 field,
    // ticked with no input, must settle as a horizontal line on the floor
    let mut gs = session(TetraminoKind::I, Position::new(0, 5), 100, 500);
    let mut t: u64 = 0;
    for _ in 0..19 {
        t += 100;
        process_logic(&mut gs, InputEvent::none(), t);
    }
    assert_eq!(gs.tetramino_manager.active.offset.row, 19);
    // grounded now: the next tick arms the lock delay
    t += 100;
    process_logic(&mut gs, InputEvent::none(), t);
    assert!(matches!(gs.collision_state, CollisionState::Delaying { .. }));
    assert!(gs.playfield.placed_blocks.get_blocks().is_empty());
    // past the delay the four blocks settle in a line
    t += 500;
    process_logic(&mut gs, InputEvent::none(), t);
    assert_eq!(
        sorted_coords(gs.playfield.placed_blocks.get_blocks()),
        vec![(19, 5), (19, 6), (19, 7), (19, 8)]
    );
    assert_eq!(
        (gs.tetramino_manager.active.offset.row, gs.tetramino_manager.active.offset.col),
        (0, 5)
    );
}

#[test]
fn next_turn_spawns_the_kind_on_deck() {
    let mut gs = session(TetraminoKind::O, Position::new(10, 4), 1_000_000, 1000);
    let on_deck = gs.tetramino_manager.next;
    gs.next_turn();
    assert_eq!(gs.tetramino_manager.active.shape.kind, on_deck);
    assert_eq!(
        (gs.tetramino_manager.active.offset.row, gs.tetramino_manager.active.offset.col),
        (0, 5)
    );
    assert_eq!(gs.tetramino_manager.active.shape.rotation_state, RotationState::Init);
}

#[test]
fn force_next_turn_input_discards_active_piece() {
    let mut gs = session(TetraminoKind::O, Position::new(10, 4), 1_000_000, 1000);
    let on_deck = gs.tetramino_manager.next;
    let input = InputEvent { next_turn: true, ..InputEvent::none() };
    process_logic(&mut gs, input, 10);
    assert_eq!(gs.tetramino_manager.active.shape.kind, on_deck);
    assert!(gs.playfield.placed_blocks.get_blocks().is_empty());
}

#[test]
fn input_none_is_empty() {
    let i = InputEvent::none();
    assert!(!i.left && !i.right && !i.rotate_clockwise && !i.rotate_counter_clockwise
        && !i.next_turn);
}
