use tetrisman::{
    random_block_type, random_color, random_spawn_choice, spawn_columns, BlockType, Board,
    FallingBlock, Game, MapBlock, PieceColor, SpawnChoice, StepInput, COLUMNS, ROWS,
};

const IDLE: StepInput = StepInput { rotate: false, shift_left: false, shift_right: false, soft_drop: false };

fn choice(block_type: BlockType, column: i32) -> SpawnChoice {
    SpawnChoice { block_type, column, color: PieceColor::Aquamarine }
}

fn occupied(b: &Board) -> Vec<(i64, i64)> {
    let mut v = Vec::new();
    for r in 0..ROWS as i64 {
        for c in 0..COLUMNS as i64 {
            if b.is_occupied(r, c) {
                v.push((r, c));
            }
        }
    }
    v
}

fn sorted_cells(p: &FallingBlock) -> Vec<(i32, i32)> {
    let mut v: Vec<(i32, i32)> = p.cells().iter().map(|m: &MapBlock| (m.row, m.column)).collect();
    v.sort();
    v
}

/// A game whose falling piece was spawned from `c` three seconds in.
fn spawned(c: SpawnChoice) -> Game {
    let mut g = Game::new();
    for _ in 0..3 {
        g.step(IDLE, 1000, c);
    }
    assert!(g.active().is_some());
    g
}

#[test]
fn square_spawns_at_three_seconds() {
    let mut g = Game::new();
    let c = choice(BlockType::O, 4);
    let o1 = g.step(IDLE, 1000, c);
    let o2 = g.step(IDLE, 1000, c);
    assert!(!o1.spawned && !o2.spawned);
    assert!(g.active().is_none());
    let o3 = g.step(IDLE, 1000, c);
    assert!(o3.spawned);
    let p = g.active().unwrap();
    assert_eq!((p.row, p.column, p.rotation), (0, 4, 0));
    assert_eq!(p.block_type, BlockType::O);
    assert_eq!(sorted_cells(&p), vec![(0, 4), (0, 5), (1, 4), (1, 5)]);
    assert!(occupied(g.board()).is_empty());
}

#[test]
fn line_piece_falls_to_the_floor_and_locks() {
    let mut g = spawned(choice(BlockType::I, 5));
    assert_eq!(g.active().unwrap().row, 0);
    for second in 1..=14 {
        let o = g.step(IDLE, 1000, choice(BlockType::I, 5));
        assert!(!o.locked);
        assert_eq!(g.active().unwrap().row, second);
    }
    assert_eq!(g.active().unwrap().row, ROWS - 1);
    let o = g.step(IDLE, 1000, choice(BlockType::I, 5));
    assert!(o.locked);
    assert!(g.active().is_none());
    assert_eq!(occupied(g.board()), vec![(14, 3), (14, 4), (14, 5), (14, 6)]);
    assert_eq!(g.board().get(14, 3), Some(PieceColor::Aquamarine));
}

#[test]
fn rotation_is_applied_only_where_it_fits() {
    let mut g = spawned(choice(BlockType::T, 5));
    let p = g.active().unwrap();
    assert_eq!((p.row, p.column, p.rotation), (0, 5, 0));
    // At the top row the first rotation state would reach row -1.
    g.rotate();
    assert_eq!(g.active().unwrap(), p);
    g.descend();
    g.rotate();
    let q = g.active().unwrap();
    assert_eq!((q.row, q.column, q.rotation), (1, 5, 1));
    assert_eq!(sorted_cells(&q), vec![(0, 5), (1, 4), (1, 5), (2, 5)]);
}

#[test]
fn spawn_onto_occupied_cell_ends_the_game() {
    let mut b = Board::new();
    b.occupy(0, 3, PieceColor::Gold);
    let mut g = Game::with_board(b);
    let mut outcomes = Vec::new();
    for _ in 0..3 {
        outcomes.push(g.step(IDLE, 1000, choice(BlockType::T, 3)));
    }
    assert!(g.is_game_over());
    assert!(g.active().is_none());
    assert!(outcomes.iter().all(|o| !o.spawned));
    for _ in 0..20 {
        let o = g.step(IDLE, 1000, choice(BlockType::O, 7));
        assert!(!o.spawned);
        assert!(g.active().is_none());
    }
    assert_eq!(occupied(g.board()), vec![(0, 3)]);
}

#[test]
fn shifts_stop_at_the_wall() {
    let mut g = spawned(choice(BlockType::O, 1));
    g.shift_left();
    assert_eq!(g.active().unwrap().column, 0);
    let before = g.active().unwrap();
    g.shift_left();
    assert_eq!(g.active().unwrap(), before);
    let left = StepInput { rotate: false, shift_left: false, shift_right: true, soft_drop: false };
    g.step(left, 10, choice(BlockType::O, 1));
    assert_eq!(g.active().unwrap().column, 1);
}

#[test]
fn shift_onto_occupied_cell_is_rejected() {
    let mut b = Board::new();
    b.occupy(0, 6, PieceColor::Pink);
    let mut g = Game::with_board(b);
    for _ in 0..3 {
        g.step(IDLE, 1000, choice(BlockType::O, 4));
    }
    let before = g.active().unwrap();
    g.shift_right();
    assert_eq!(g.active().unwrap(), before);
    g.shift_left();
    assert_eq!(g.active().unwrap().column, 3);
}

#[test]
fn square_ignores_rotation() {
    let mut g = spawned(choice(BlockType::O, 4));
    g.descend();
    let before = g.active().unwrap();
    g.rotate();
    assert_eq!(g.active().unwrap(), before);
}

#[test]
fn soft_drop_falls_twice_as_fast() {
    let mut g = spawned(choice(BlockType::T, 5));
    let drop = StepInput { rotate: false, shift_left: false, shift_right: false, soft_drop: true };
    g.step(drop, 500, choice(BlockType::T, 5));
    assert_eq!(g.active().unwrap().row, 1);
    g.step(drop, 500, choice(BlockType::T, 5));
    assert_eq!(g.active().unwrap().row, 2);
    g.step(IDLE, 500, choice(BlockType::T, 5));
    assert_eq!(g.active().unwrap().row, 2);
    g.step(IDLE, 500, choice(BlockType::T, 5));
    assert_eq!(g.active().unwrap().row, 3);
}

#[test]
fn descent_onto_a_settled_piece_locks() {
    let mut b = Board::new();
    b.occupy(5, 4, PieceColor::Violet);
    let mut g = Game::with_board(b);
    for _ in 0..3 {
        g.step(IDLE, 1000, choice(BlockType::O, 4));
    }
    assert!(!g.descend());
    assert!(!g.descend());
    assert!(!g.descend());
    assert_eq!(g.active().unwrap().row, 3);
    assert!(g.descend());
    assert!(g.active().is_none());
    assert_eq!(occupied(g.board()), vec![(3, 4), (3, 5), (4, 4), (4, 5), (5, 4)]);
}

#[test]
fn spawn_timer_waits_while_a_piece_falls() {
    let mut g = spawned(choice(BlockType::I, 5));
    assert_eq!(g.spawn_timer().elapsed_ms, 0);
    g.step(IDLE, 700, choice(BlockType::I, 5));
    assert_eq!(g.spawn_timer().elapsed_ms, 0);
    assert_eq!(g.gravity().normal_timer.elapsed_ms, 700);
}

#[test]
fn spawn_columns_of_each_shape() {
    assert_eq!(spawn_columns(BlockType::I), (2, 8));
    assert_eq!(spawn_columns(BlockType::O), (0, 8));
    assert_eq!(spawn_columns(BlockType::T), (1, 8));
    assert_eq!(spawn_columns(BlockType::J), (1, 8));
    assert_eq!(spawn_columns(BlockType::Z), (1, 8));
}

#[test]
fn spawn_overlapping_below_the_anchor_ends_the_game() {
    let mut b = Board::new();
    b.occupy(1, 2, PieceColor::Gold);
    let mut g = Game::with_board(b);
    for _ in 0..3 {
        let o = g.step(IDLE, 1000, choice(BlockType::J, 1));
        assert!(!o.spawned);
    }
    assert!(g.is_game_over());
    assert!(g.active().is_none());
    assert_eq!(occupied(g.board()), vec![(1, 2)]);
}

#[test]
fn spawn_is_anchored_at_the_drawn_column() {
    let mut g = spawned(choice(BlockType::Z, 7));
    let p = g.active().unwrap();
    assert_eq!((p.row, p.column, p.rotation), (0, 7, 0));
    g.step(IDLE, 1, choice(BlockType::Z, 7));
    assert_eq!(sorted_cells(&g.active().unwrap()), vec![(0, 6), (0, 7), (1, 7), (1, 8)]);
}

#[test]
fn spawn_sticking_out_of_the_board_ends_the_game() {
    let mut g = Game::new();
    for _ in 0..3 {
        g.step(IDLE, 1000, choice(BlockType::I, 0));
    }
    assert!(g.is_game_over());
    assert!(g.active().is_none());
    assert!(occupied(g.board()).is_empty());
}

#[test]
fn random_draws_stay_in_range() {
    for _ in 0..500 {
        let c = random_spawn_choice();
        assert!(0 <= c.column && c.column < COLUMNS);
    }
    let mut seen_columns = [false; 10];
    for _ in 0..2000 {
        let c = random_spawn_choice();
        let (lo, hi) = spawn_columns(c.block_type);
        assert!(lo <= c.column && c.column <= hi);
        seen_columns[c.column as usize] = true;
    }
    assert!(seen_columns[..9].iter().all(|s| *s));
    assert!(!seen_columns[9]);
    let _ = random_block_type();
    let _ = random_color();
}

#[test]
fn random_steps_keep_the_game_consistent() {
    let mut g = Game::new();
    let mut locks = 0;
    for _ in 0..2000 {
        let o = g.step_random(IDLE, 250);
        if o.locked {
            locks += 1;
        }
        if let Some(p) = g.active() {
            for m in p.cells() {
                assert!(Board::is_within_bounds(m.row as i64, m.column as i64));
            }
        }
    }
    assert!(locks > 0);
    assert_eq!(occupied(g.board()).len() % 4, 0);
}
