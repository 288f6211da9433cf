use vstd::prelude::*;

use crate::board::{cell_at, fits, in_bounds, lemma_lock_converts_four_cells, COLUMNS};
use crate::game::{
    gravity_next, input_next, lemma_anchor_in_bounds, rotate_next, shift_next, spawn_next,
    spawned_piece, spawns, step_next, step_outcome, GameModel, SpawnChoice, StepInput,
};
use crate::piece::{base_offsets, cells_of, turn_n, BlockType, FallingBlock};

verus! {

proof fn lemma_spawn_next_wf(m: GameModel, delta_ms: int, c: SpawnChoice)
    requires
        m.wf(),
        0 <= delta_ms,
    ensures
        spawn_next(m, delta_ms, c).wf(),
        spawn_next(m, delta_ms, c).board == m.board,
{
    if !m.game_over && m.active.is_none() {
        vstd::arithmetic::div_mod::lemma_mod_bound(
            m.spawn_timer.elapsed_ms + delta_ms,
            m.spawn_timer.period_ms as int,
        );
    }
}

proof fn lemma_input_next_wf(m: GameModel, input: StepInput)
    requires
        m.wf(),
    ensures
        input_next(m, input).wf(),
        input_next(m, input).board == m.board,
        input_next(m, input).active.is_some() == m.active.is_some(),
        input_next(m, input).gravity == m.gravity,
        input_next(m, input).game_over == m.game_over,
{
    let m1 = if input.rotate {
        rotate_next(m)
    } else {
        m
    };
    let m2 = if input.shift_left {
        shift_next(m1, -1)
    } else {
        m1
    };
    assert(m1.wf());
    assert(m2.wf());
}

proof fn lemma_gravity_next_wf(m: GameModel, delta_ms: int, soft_drop: bool)
    requires
        m.wf(),
        0 <= delta_ms,
    ensures
        gravity_next(m, delta_ms, soft_drop).wf(),
{
    if m.active.is_some() {
        vstd::arithmetic::div_mod::lemma_mod_bound(
            m.gravity.normal_timer.elapsed_ms + delta_ms,
            m.gravity.normal_timer.period_ms as int,
        );
        vstd::arithmetic::div_mod::lemma_mod_bound(
            m.gravity.fast_timer.elapsed_ms + delta_ms,
            m.gravity.fast_timer.period_ms as int,
        );
    }
}

/// Every step keeps the session well formed: at most one piece falls, and
/// it lies inside the board on empty cells.
pub proof fn lemma_step_preserves_wf(m: GameModel, input: StepInput, delta_ms: int, c: SpawnChoice)
    requires
        m.wf(),
        0 <= delta_ms,
    ensures
        step_next(m, input, delta_ms, c).wf(),
{
    lemma_spawn_next_wf(m, delta_ms, c);
    let m1 = spawn_next(m, delta_ms, c);
    lemma_input_next_wf(m1, input);
    lemma_gravity_next_wf(input_next(m1, input), delta_ms, input.soft_drop);
}

/// The board changes only by a lock. A step that locks leaves no falling
/// piece and turns exactly four empty cells into occupied ones; every other
/// cell keeps its state, and occupied cells are never cleared.
pub proof fn lemma_step_lock(m: GameModel, input: StepInput, delta_ms: int, c: SpawnChoice)
    requires
        m.wf(),
        0 <= delta_ms,
    ensures
        ({
            let r = step_next(m, input, delta_ms, c);
            let changed = Set::new(|k: int| 0 <= k < m.board.len() && r.board[k] != m.board[k]);
            &&& r.board.len() == m.board.len()
            &&& forall|k: int| 0 <= k < m.board.len() && (#[trigger] m.board[k]).is_some() ==> r.board[k] == m.board[k]
            &&& step_outcome(m, input, delta_ms, c).locked ==> {
                &&& r.active.is_none()
                &&& changed.finite()
                &&& changed.len() == 4
                &&& forall|k: int| #[trigger]
                    changed.contains(k) ==> m.board[k].is_none() && r.board[k].is_some()
            }
            &&& !step_outcome(m, input, delta_ms, c).locked ==> r.board == m.board
        }),
{
    lemma_spawn_next_wf(m, delta_ms, c);
    let m1 = spawn_next(m, delta_ms, c);
    lemma_input_next_wf(m1, input);
    let m2 = input_next(m1, input);
    let r = step_next(m, input, delta_ms, c);
    if let Some(p) = m2.active {
        lemma_lock_converts_four_cells(m2.board, p);
    }
    if step_outcome(m, input, delta_ms, c).locked {
        let p = m2.active.unwrap();
        assert(r.board == crate::board::locked(m.board, p));
        let changed = Set::new(|k: int| 0 <= k < m.board.len() && r.board[k] != m.board[k]);
        let changed2 = Set::new(
            |k: int|
                0 <= k < m.board.len() && crate::board::locked(m.board, p)[k] != m.board[k],
        );
        assert(changed =~= changed2);
    }
}

/// A piece is spawned only when none falls, the game is not over and the
/// spawn timer fires; it is placed at row 0 in rotation state 0, with the
/// drawn shape, at a column of the board.
pub proof fn lemma_spawn_conditions(m: GameModel, input: StepInput, delta_ms: int, c: SpawnChoice)
    requires
        m.wf(),
        0 <= delta_ms,
        0 <= c.column < COLUMNS,
    ensures
        step_outcome(m, input, delta_ms, c).spawned ==> {
            &&& m.active.is_none()
            &&& !m.game_over
            &&& m.spawn_timer.fires(delta_ms)
            &&& spawn_next(m, delta_ms, c).active == Some(spawned_piece(c))
            &&& spawned_piece(c).block_type == c.block_type
            &&& spawned_piece(c).row == 0
            &&& spawned_piece(c).rotation == 0
            &&& 0 <= spawned_piece(c).column < COLUMNS
        },
{
    if spawns(m, delta_ms, c) {
        lemma_anchor_in_bounds(m.board, spawned_piece(c));
    }
}

/// When the spawn timer fires with no falling piece and the new piece,
/// anchored at the drawn column, covers an occupied cell, the game is over,
/// no piece is installed and the board is left as it was.
pub proof fn lemma_spawn_overlap_ends_game(m: GameModel, input: StepInput, delta_ms: int, c: SpawnChoice)
    requires
        m.wf(),
        0 <= delta_ms,
        !m.game_over,
        m.active.is_none(),
        m.spawn_timer.fires(delta_ms),
        exists|i: int|
            0 <= i < 4 && in_bounds(#[trigger] cells_of(spawned_piece(c))[i]) && cell_at(
                m.board,
                cells_of(spawned_piece(c))[i],
            ).is_some(),
    ensures
        step_next(m, input, delta_ms, c).game_over,
        step_next(m, input, delta_ms, c).active.is_none(),
        step_next(m, input, delta_ms, c).board == m.board,
        !step_outcome(m, input, delta_ms, c).spawned,
{
    assert(!fits(m.board, spawned_piece(c)));
}

/// When the spawn timer fires with no falling piece, the game is not over
/// and the new piece fits, it is installed anchored at row 0 and at the
/// drawn column, in rotation state 0.
pub proof fn lemma_spawn_at_drawn_column(m: GameModel, delta_ms: int, c: SpawnChoice)
    requires
        m.wf(),
        0 <= delta_ms,
        !m.game_over,
        m.active.is_none(),
        m.spawn_timer.fires(delta_ms),
        fits(m.board, spawned_piece(c)),
    ensures
        spawns(m, delta_ms, c),
        spawn_next(m, delta_ms, c).active == Some(
            FallingBlock {
                block_type: c.block_type,
                row: 0,
                column: c.column,
                rotation: 0,
                color: c.color,
            },
        ),
{
}

proof fn lemma_square_turns(s: Seq<(int, int)>, n: nat)
    ensures
        turn_n(BlockType::O, s, n) == s,
    decreases n,
{
    if n > 0 {
        lemma_square_turns(s, (n - 1) as nat);
    }
}

/// A square covers the 2x2 block whose top-left cell is its anchor.
pub proof fn lemma_square_cells(p: FallingBlock)
    requires
        p.block_type == BlockType::O,
    ensures
        cells_of(p) == seq![
            (p.row as int, p.column as int),
            (p.row as int, p.column + 1),
            (p.row + 1, p.column as int),
            (p.row + 1, p.column + 1),
        ],
{
    lemma_square_turns(base_offsets(BlockType::O), p.rotation as nat);
    assert(cells_of(p) =~= seq![
        (p.row as int, p.column as int),
        (p.row as int, p.column + 1),
        (p.row + 1, p.column as int),
        (p.row + 1, p.column + 1),
    ]);
}

/// Once the game is over, no step changes anything: no spawn, no movement,
/// no lock.
pub proof fn lemma_game_over_is_final(m: GameModel, input: StepInput, delta_ms: int, c: SpawnChoice)
    requires
        m.wf(),
        m.game_over,
    ensures
        step_next(m, input, delta_ms, c) == m,
        !step_outcome(m, input, delta_ms, c).spawned,
        !step_outcome(m, input, delta_ms, c).locked,
{
}

/// A rotation or shift request whose result would leave the board or cover
/// an occupied cell leaves the session unchanged; the square never rotates.
pub proof fn lemma_rejected_request_unchanged(m: GameModel, columns: int)
    requires
        m.wf(),
    ensures
        m.active matches Some(p) && !fits(m.board, p.spec_rotated()) ==> rotate_next(m) == m,
        m.active matches Some(p) && p.block_type == BlockType::O ==> rotate_next(m) == m,
        m.active matches Some(p) && !fits(m.board, p.spec_shifted(0, columns)) ==> shift_next(m, columns) == m,
{
}

} // verus!
