use tetrisman::{BlockType, Brick, Dot, FallingBlock, MapBlock, PieceColor};

const ALL: [BlockType; 7] = [
    BlockType::I,
    BlockType::J,
    BlockType::L,
    BlockType::O,
    BlockType::T,
    BlockType::S,
    BlockType::Z,
];

fn pairs(b: &Brick) -> Vec<(i8, i8)> {
    b.dots.iter().map(|d| (d.x, d.y)).collect()
}

#[test]
fn offsets_are_pairwise_distinct() {
    for t in ALL {
        for r in 0..4u8 {
            let p = pairs(&Brick::of(t, r));
            for i in 0..4 {
                for j in 0..4 {
                    if i != j {
                        assert_ne!(p[i], p[j], "{:?} rotation {}", t, r);
                    }
                }
            }
        }
    }
}

#[test]
fn four_turns_give_back_the_same_offsets() {
    for t in ALL {
        for r in 0..4u8 {
            let start = Brick::of(t, r);
            let mut b = start;
            for _ in 0..4 {
                b = b.turned(t);
            }
            assert_eq!(pairs(&b), pairs(&start));
        }
    }
}

#[test]
fn square_is_the_same_in_every_rotation() {
    let base = pairs(&Brick::of(BlockType::O, 0));
    for r in 1..4u8 {
        assert_eq!(pairs(&Brick::of(BlockType::O, r)), base);
    }
}

#[test]
fn rotation_state_follows_the_quarter_turn() {
    let t1 = pairs(&Brick::of(BlockType::T, 1));
    assert_eq!(t1, vec![(0, 0), (0, 1), (0, -1), (-1, 0)]);
    let i1 = pairs(&Brick::of(BlockType::I, 1));
    assert_eq!(i1, vec![(0, 0), (0, 1), (0, -1), (0, -2)]);
    let i2 = pairs(&Brick::of(BlockType::I, 2));
    assert_eq!(i2, vec![(0, 0), (-1, 0), (1, 0), (2, 0)]);
}

#[test]
fn base_table_of_the_square() {
    let b = FallingBlock::brick(&BlockType::O);
    assert_eq!(
        b.dots,
        [Dot { x: 0, y: 0 }, Dot { x: 1, y: 0 }, Dot { x: 0, y: 1 }, Dot { x: 1, y: 1 }]
    );
}

#[test]
fn piece_cells_are_anchor_plus_offsets() {
    let p = FallingBlock::new(BlockType::O, 0, 4, PieceColor::Gold);
    let cells = p.cells();
    assert_eq!(
        cells,
        vec![
            MapBlock { row: 0, column: 4 },
            MapBlock { row: 0, column: 5 },
            MapBlock { row: 1, column: 4 },
            MapBlock { row: 1, column: 5 },
        ]
    );
}

#[test]
fn rotate_cycles_through_four_states() {
    let mut p = FallingBlock::new(BlockType::L, 3, 3, PieceColor::Pink);
    for expected in [1u8, 2, 3, 0] {
        p.rotate();
        assert_eq!(p.rotation, expected);
    }
}
