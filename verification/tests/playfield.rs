use tetrs::Block;
use tetrs::BlockColor;
use tetrs::CollisionDirection;
use tetrs::CollisionResult;
use tetrs::Playfield;
use tetrs::PlayfieldSize;
use tetrs::Position;
use tetrs::TimerMs;

fn block_at(row: isize, col: isize) -> Block {
    Block { color: BlockColor::Red, coordinates: Position::new(row, col) }
}

fn field_20x10() -> Playfield {
    Playfield::new(PlayfieldSize { rows: 20, cols: 10 })
}

#[test]
fn collision_direction_offsets() {
    let d = CollisionDirection::Down.offset();
    assert_eq!((d.row, d.col), (1, 0));
    let l = CollisionDirection::Left.offset();
    assert_eq!((l.row, l.col), (0, -1));
    let r = CollisionDirection::Right.offset();
    assert_eq!((r.row, r.col), (0, 1));
}

#[test]
fn collision_result_new_is_clear() {
    let r = CollisionResult::new();
    assert!(!r.down && !r.left && !r.right);
}

#[test]
fn floor_blocks_downward() {
    let pf = field_20x10();
    let r = pf.check_collisions(&vec![block_at(19, 4)]);
    assert!(r.down);
    assert!(!r.left);
    assert!(!r.right);
}

#[test]
fn placed_block_below_blocks_downward() {
    let mut pf = field_20x10();
    pf.put_blocks(&vec![block_at(6, 5)]);
    let r = pf.check_collisions(&vec![block_at(5, 5)]);
    assert!(r.down);
    assert!(!r.left);
    assert!(!r.right);
    // one row further up nothing collides
    let r2 = pf.check_collisions(&vec![block_at(4, 5)]);
    assert!(!r2.down);
}

#[test]
fn walls_block_sideways() {
    let pf = field_20x10();
    let left_wall = pf.check_collisions(&vec![block_at(3, 0)]);
    assert!(left_wall.left);
    assert!(!left_wall.right);
    assert!(!left_wall.down);
    let right_wall = pf.check_collisions(&vec![block_at(3, 9)]);
    assert!(right_wall.right);
    assert!(!right_wall.left);
}

#[test]
fn flags_are_or_of_all_blocks() {
    let pf = field_20x10();
    // one block touches the left wall, another the floor
    let r = pf.check_collisions(&vec![block_at(3, 0), block_at(19, 5)]);
    assert!(r.down);
    assert!(r.left);
    assert!(!r.right);
}

#[test]
fn intersections_out_of_bounds_and_overlap() {
    let mut pf = field_20x10();
    pf.put_blocks(&vec![block_at(10, 4)]);
    assert!(pf.check_intersections(&vec![block_at(10, 4)]));
    assert!(pf.check_intersections(&vec![block_at(20, 0)]));
    assert!(pf.check_intersections(&vec![block_at(0, -1)]));
    assert!(!pf.check_intersections(&vec![block_at(10, 5)]));
    assert!(!pf.check_intersections(&vec![]));
}

#[test]
fn put_blocks_is_a_set_by_coordinate() {
    let mut pf = field_20x10();
    pf.put_blocks(&vec![block_at(3, 3)]);
    assert_eq!(pf.placed_blocks.get_blocks().len(), 1);
    // the same coordinate again, in a different color, changes nothing
    let again = Block { color: BlockColor::Blue, coordinates: Position::new(3, 3) };
    pf.put_blocks(&vec![again]);
    assert_eq!(pf.placed_blocks.get_blocks().len(), 1);
    assert_eq!(pf.placed_blocks.get_blocks()[0].color, BlockColor::Red);
}

#[test]
fn put_blocks_deduplicates_within_one_call() {
    let mut pf = field_20x10();
    pf.put_blocks(&vec![block_at(2, 2), block_at(2, 2), block_at(2, 3)]);
    assert_eq!(pf.placed_blocks.get_blocks().len(), 2);
}

#[test]
fn timer_new_and_update_boundary() {
    let mut t = TimerMs::new(500, 1000);
    assert_eq!(t.deadline_ms, 1500);
    assert_eq!(t.wait_ms, 500);
    assert!(!t.update(1499));
    assert_eq!(t.deadline_ms, 1500);
    assert!(t.update(1500));
    // an expired poll re-arms the timer for one more period
    assert_eq!(t.deadline_ms, 2000);
    assert_eq!(t.wait_ms, 500);
}

#[test]
fn timer_reset_reissues_period() {
    let t = TimerMs::new(200, 0);
    let t2 = t.reset(1000);
    assert_eq!(t2.deadline_ms, 1200);
    assert_eq!(t2.wait_ms, 200);
    // the original is untouched
    assert_eq!(t.deadline_ms, 200);
}
