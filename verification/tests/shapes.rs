use tetrs::Block;
use tetrs::BlockColor;
use tetrs::Position;
use tetrs::RotationDirection;
use tetrs::RotationState;
use tetrs::Tetramino;
use tetrs::TetraminoKind;

fn sorted_coords(blocks: &Vec<Block>) -> Vec<(isize, isize)> {
    let mut v: Vec<(isize, isize)> = blocks
        .iter()
        .map(|b| (b.coordinates.row, b.coordinates.col))
        .collect();
    v.sort();
    v
}

const ALL_KINDS: [TetraminoKind; 7] = [
    TetraminoKind::I,
    TetraminoKind::L,
    TetraminoKind::J,
    TetraminoKind::S,
    TetraminoKind::Z,
    TetraminoKind::O,
    TetraminoKind::T,
];

#[test]
fn position_new_add_sub() {
    let a = Position::new(3, -2);
    let b = Position::new(-1, 5);
    let s = a.add(b);
    assert_eq!((s.row, s.col), (2, 3));
    let d = a.sub(b);
    assert_eq!((d.row, d.col), (4, -7));
}

#[test]
fn position_swap() {
    let mut p = Position::new(7, -4);
    p.swap();
    assert_eq!((p.row, p.col), (-4, 7));
}

#[test]
fn position_is_inbound() {
    assert!(Position::new(0, 0).is_inbound(20, 10));
    assert!(Position::new(19, 9).is_inbound(20, 10));
    assert!(!Position::new(20, 0).is_inbound(20, 10));
    assert!(!Position::new(0, 10).is_inbound(20, 10));
    assert!(!Position::new(-1, 0).is_inbound(20, 10));
    assert!(!Position::new(0, -1).is_inbound(20, 10));
}

#[test]
fn block_from_position_is_red() {
    let b = Block::from(Position::new(2, 3));
    assert_eq!(b.color, BlockColor::Red);
    assert_eq!((b.coordinates.row, b.coordinates.col), (2, 3));
}

#[test]
fn construct_canonical_cells() {
    let cases: [(TetraminoKind, [(isize, isize); 4], (isize, isize), BlockColor); 7] = [
        (TetraminoKind::I, [(0, 0), (0, 1), (0, 2), (0, 3)], (0, 1), BlockColor::Blue),
        (TetraminoKind::O, [(0, 0), (0, 1), (1, 0), (1, 1)], (1, 0), BlockColor::Yellow),
        (TetraminoKind::T, [(0, 1), (1, 0), (1, 1), (1, 2)], (1, 1), BlockColor::Purple),
        (TetraminoKind::S, [(0, 1), (0, 2), (1, 0), (1, 1)], (1, 1), BlockColor::Green),
        (TetraminoKind::Z, [(0, 0), (0, 1), (1, 1), (1, 2)], (1, 1), BlockColor::Red),
        (TetraminoKind::J, [(0, 0), (1, 0), (1, 1), (1, 2)], (1, 1), BlockColor::DarkBlue),
        (TetraminoKind::L, [(0, 2), (1, 0), (1, 1), (1, 2)], (1, 1), BlockColor::Orange),
    ];
    for (kind, cells, pivot, color) in cases {
        let t = Tetramino::construct(kind);
        assert_eq!(t.kind, kind);
        assert_eq!(t.rotation_state, RotationState::Init);
        assert_eq!((t.rotation_center.row, t.rotation_center.col), pivot);
        let mut expected: Vec<(isize, isize)> = cells.to_vec();
        expected.sort();
        assert_eq!(sorted_coords(&t.blocks), expected);
        for b in &t.blocks {
            assert_eq!(b.color, color);
        }
    }
}

#[test]
fn rotation_state_cycle_one_step() {
    let t = Tetramino::construct(TetraminoKind::T);
    assert_eq!(
        t.get_next_rotation_state(RotationDirection::Clockwise),
        RotationState::Right
    );
    assert_eq!(
        t.get_next_rotation_state(RotationDirection::CounterClockwise),
        RotationState::Left
    );
}

#[test]
fn rotating_four_times_restores_shape() {
    for kind in ALL_KINDS {
        for dir in [RotationDirection::Clockwise, RotationDirection::CounterClockwise] {
            let original = Tetramino::construct(kind);
            let original_cells = sorted_coords(&original.blocks);
            let mut t = Tetramino::construct(kind);
            for _ in 0..4 {
                t = t.get_rotated_and_offsets(dir).tetramino;
            }
            assert_eq!(t.rotation_state, RotationState::Init);
            assert_eq!(sorted_coords(&t.blocks), original_cells);
            assert_eq!(t.kind, kind);
        }
    }
}

#[test]
fn clockwise_rotation_of_t_piece() {
    let t = Tetramino::construct(TetraminoKind::T);
    let r = t.get_rotated_and_offsets(RotationDirection::Clockwise);
    assert_eq!(r.tetramino.rotation_state, RotationState::Right);
    // cells (1,0),(1,1),(1,2),(0,1) about pivot (1,1) turn into a column
    // with the nose pointing right
    assert_eq!(
        sorted_coords(&r.tetramino.blocks),
        vec![(0, 1), (1, 1), (1, 2), (2, 1)]
    );
}

#[test]
fn o_piece_kicks_are_all_equal() {
    for dir in [RotationDirection::Clockwise, RotationDirection::CounterClockwise] {
        let mut t = Tetramino::construct(TetraminoKind::O);
        for _ in 0..4 {
            let r = t.get_rotated_and_offsets(dir);
            let first = r.kick_offsets[0];
            assert_eq!(r.kick_offsets.len(), 5);
            for k in &r.kick_offsets {
                assert_eq!(*k, first);
            }
            t = r.tetramino;
        }
    }
}

#[test]
fn o_piece_spawn_to_right_kick_value() {
    let t = Tetramino::construct(TetraminoKind::O);
    let r = t.get_rotated_and_offsets(RotationDirection::Clockwise);
    // from-table entry (0,0), to-table entry (1,0): the single kick is (-1,0)
    for k in &r.kick_offsets {
        assert_eq!((k.row, k.col), (-1, 0));
    }
}

#[test]
fn shared_table_spawn_to_right_kicks_in_order() {
    let t = Tetramino::construct(TetraminoKind::T);
    let r = t.get_rotated_and_offsets(RotationDirection::Clockwise);
    let got: Vec<(isize, isize)> = r.kick_offsets.iter().map(|p| (p.row, p.col)).collect();
    assert_eq!(got, vec![(0, 0), (0, -1), (-1, -1), (2, 0), (2, -1)]);
}

#[test]
fn i_piece_spawn_to_right_kicks_in_order() {
    let t = Tetramino::construct(TetraminoKind::I);
    let r = t.get_rotated_and_offsets(RotationDirection::Clockwise);
    let got: Vec<(isize, isize)> = r.kick_offsets.iter().map(|p| (p.row, p.col)).collect();
    // from-table Init minus to-table Right, entry by entry
    assert_eq!(got, vec![(0, 1), (0, -1), (0, 2), (1, -1), (-2, 2)]);
}

#[test]
fn tetramino_with_offset_translates_blocks() {
    let t = Tetramino::construct(TetraminoKind::Z).with_offset(Position::new(3, 2));
    assert_eq!(sorted_coords(&t.blocks), vec![(3, 2), (3, 3), (4, 3), (4, 4)]);
}

#[test]
fn get_blocks_with_offset_keeps_shape_untouched() {
    let t = Tetramino::construct(TetraminoKind::S);
    let moved = t.get_blocks_with_offset(Position::new(10, 1));
    let mut expected = vec![(10, 3), (10, 2), (11, 2), (11, 1)];
    expected.sort();
    assert_eq!(sorted_coords(&moved), expected);
    // the shape itself still holds the canonical cells
    assert_eq!(sorted_coords(t.get_blocks()), vec![(0, 1), (0, 2), (1, 0), (1, 1)]);
}

#[test]
fn kind_from_index_mapping() {
    let expected = [
        TetraminoKind::I,
        TetraminoKind::L,
        TetraminoKind::J,
        TetraminoKind::T,
        TetraminoKind::S,
        TetraminoKind::Z,
        TetraminoKind::O,
    ];
    for (i, k) in expected.iter().enumerate() {
        assert_eq!(TetraminoKind::from_index(i as u8), *k);
    }
}

#[test]
fn random_kind_is_well_formed() {
    for _ in 0..64 {
        let t = Tetramino::construct(TetraminoKind::random());
        assert_eq!(t.blocks.len(), 4);
        assert_eq!(t.rotation_state, RotationState::Init);
    }
}
