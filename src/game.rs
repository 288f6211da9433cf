use vstd::prelude::*;

use crate::board::{collide, fits, in_bounds, locked, Board, COLUMNS, ROWS};
use crate::piece::{
    base_offsets, cells_of, lemma_anchor_is_first_cell, BlockType, FallingBlock, PieceColor,
};
use crate::random::random_spawn_choice;
use crate::timer::{FallingTimer, Timer, SPAWN_PERIOD_MS};

verus! {

/// What a step draws when the spawn timer fires: the shape, the column
/// (in `[0, COLUMNS)`) and the colour of the new piece.
#[derive(Clone, Copy, PartialEq, Eq, Structural, Debug)]
pub struct SpawnChoice {
    pub block_type: BlockType,
    pub column: i32,
    pub color: PieceColor,
}

/// The player's requests for one step: rotation and shift key presses, and
/// whether soft drop is held.
#[derive(Clone, Copy, PartialEq, Eq, Structural, Debug)]
pub struct StepInput {
    pub rotate: bool,
    pub shift_left: bool,
    pub shift_right: bool,
    pub soft_drop: bool,
}

/// What happened during one step.
#[derive(Clone, Copy, PartialEq, Eq, Structural, Debug)]
pub struct StepOutcome {
    pub spawned: bool,
    pub locked: bool,
}

/// The abstract state of a game session.
pub struct GameModel {
    pub board: Seq<Option<PieceColor>>,
    pub active: Option<FallingBlock>,
    pub spawn_timer: Timer,
    pub gravity: FallingTimer,
    pub game_over: bool,
}

impl GameModel {
    /// The board has its size, the timers are running, the falling piece (if
    /// any) lies inside the board on empty cells, and a finished game has no
    /// falling piece.
    pub open spec fn wf(self) -> bool {
        &&& self.board.len() == ROWS * COLUMNS
        &&& self.spawn_timer.wf()
        &&& self.gravity.wf()
        &&& (self.active matches Some(p) ==> p.wf() && fits(self.board, p))
        &&& (self.game_over ==> self.active.is_none())
    }
}

/// A piece of shape `t` in rotation state 0 anchored at `column` lies
/// within the columns of the board.
pub open spec fn lies_within_columns(t: BlockType, column: int) -> bool {
    forall|i: int| 0 <= i < 4 ==> 0 <= column + (#[trigger] base_offsets(t)[i]).0 < COLUMNS
}

/// The piece that a spawn with `c` places: anchored at row 0 and at the
/// drawn column, in rotation state 0.
pub open spec fn spawned_piece(c: SpawnChoice) -> FallingBlock {
    FallingBlock {
        block_type: c.block_type,
        row: 0,
        column: c.column,
        rotation: 0,
        color: c.color,
    }
}

/// A spawn attempt once the spawn timer fired: the piece is installed if it
/// fits (and the spawn and gravity timers start over); otherwise the game is
/// over and the piece is discarded.
pub open spec fn spawn_attempt(m: GameModel, c: SpawnChoice) -> GameModel {
    let p = spawned_piece(c);
    if fits(m.board, p) {
        GameModel {
            active: Some(p),
            spawn_timer: m.spawn_timer.spec_reset(),
            gravity: m.gravity.spec_reset(),
            ..m
        }
    } else {
        GameModel { game_over: true, ..m }
    }
}

/// The spawn phase: it runs only while no piece falls and the game is not
/// over; the spawn timer advances and, when it fires, a spawn is attempted.
pub open spec fn spawn_next(m: GameModel, delta_ms: int, c: SpawnChoice) -> GameModel {
    if m.game_over || m.active.is_some() {
        m
    } else {
        let m1 = GameModel { spawn_timer: m.spawn_timer.spec_ticked(delta_ms), ..m };
        if m.spawn_timer.fires(delta_ms) {
            spawn_attempt(m1, c)
        } else {
            m1
        }
    }
}

/// Replaces the falling piece by proposal `q` if `q` fits; otherwise nothing
/// changes.
pub open spec fn proposal_next(m: GameModel, q: FallingBlock) -> GameModel {
    if fits(m.board, q) {
        GameModel { active: Some(q), ..m }
    } else {
        m
    }
}

/// A clockwise rotation request; the square ignores it.
pub open spec fn rotate_next(m: GameModel) -> GameModel {
    match m.active {
        Some(p) => if p.block_type == BlockType::O {
            m
        } else {
            proposal_next(m, p.spec_rotated())
        },
        None => m,
    }
}

/// A request to shift the falling piece by `columns` columns.
pub open spec fn shift_next(m: GameModel, columns: int) -> GameModel {
    match m.active {
        Some(p) => proposal_next(m, p.spec_shifted(0, columns)),
        None => m,
    }
}

/// The input phase: rotation, then shift left, then shift right.
pub open spec fn input_next(m: GameModel, input: StepInput) -> GameModel {
    let m1 = if input.rotate {
        rotate_next(m)
    } else {
        m
    };
    let m2 = if input.shift_left {
        shift_next(m1, -1)
    } else {
        m1
    };
    if input.shift_right {
        shift_next(m2, 1)
    } else {
        m2
    }
}

/// A one-row descent: applied if the lower position fits, else the piece is
/// locked into the board and no piece falls any more.
pub open spec fn descend_next(m: GameModel) -> GameModel {
    match m.active {
        Some(p) => {
            let q = p.spec_shifted(1, 0);
            if fits(m.board, q) {
                GameModel { active: Some(q), ..m }
            } else {
                GameModel { board: locked(m.board, p), active: None, ..m }
            }
        },
        None => m,
    }
}

/// The gravity phase: while a piece falls, the timer in use advances and,
/// when it fires, the piece descends.
pub open spec fn gravity_next(m: GameModel, delta_ms: int, soft_drop: bool) -> GameModel {
    if m.active.is_none() {
        m
    } else {
        let m1 = GameModel { gravity: m.gravity.spec_ticked(delta_ms, soft_drop), ..m };
        if m.gravity.fires(delta_ms, soft_drop) {
            descend_next(m1)
        } else {
            m1
        }
    }
}

/// Whether the step's spawn phase installs a piece.
pub open spec fn spawns(m: GameModel, delta_ms: int, c: SpawnChoice) -> bool {
    m.active.is_none() && spawn_next(m, delta_ms, c).active.is_some()
}

/// One simulation step: spawn, input, gravity. The time of the step in which
/// a piece appears does not count toward its fall.
pub open spec fn step_next(m: GameModel, input: StepInput, delta_ms: int, c: SpawnChoice) -> GameModel {
    let m2 = input_next(spawn_next(m, delta_ms, c), input);
    if spawns(m, delta_ms, c) {
        m2
    } else {
        gravity_next(m2, delta_ms, input.soft_drop)
    }
}

/// What one step reports: whether it spawned a piece and whether it locked one.
pub open spec fn step_outcome(m: GameModel, input: StepInput, delta_ms: int, c: SpawnChoice) -> StepOutcome {
    let m2 = input_next(spawn_next(m, delta_ms, c), input);
    StepOutcome {
        spawned: spawns(m, delta_ms, c),
        locked: m2.active.is_some() && step_next(m, input, delta_ms, c).active.is_none(),
    }
}

/// A piece that fits has its anchor on the board.
pub proof fn lemma_anchor_in_bounds(b: Seq<Option<PieceColor>>, p: FallingBlock)
    requires
        fits(b, p),
    ensures
        0 <= p.row < ROWS,
        0 <= p.column < COLUMNS,
{
    lemma_anchor_is_first_cell(p.block_type, p.rotation as nat);
    assert(in_bounds(cells_of(p)[0]));
}

/// The range `lo..=hi` of anchor columns at which a piece of shape `t` in
/// rotation state 0 lies within the columns of the board.
pub fn spawn_columns(t: BlockType) -> (r: (i32, i32))
    ensures
        0 <= r.0 <= r.1 < COLUMNS,
        forall|column: int| r.0 <= column <= r.1 <==> lies_within_columns(t, column),
{
    let lo: i32 = match t {
        BlockType::I => 2,
        BlockType::O => 0,
        _ => 1,
    };
    let hi: i32 = COLUMNS - 2;
    let ghost o = base_offsets(t);
    assert forall|column: int| lo <= column <= hi <==> lies_within_columns(t, column) by {
        if lies_within_columns(t, column) {
            if t == BlockType::Z {
                assert(0 <= column + o[1].0);
                assert(column + o[3].0 < COLUMNS);
            } else if t == BlockType::I {
                assert(0 <= column + o[3].0);
                assert(column + o[1].0 < COLUMNS);
            } else if t == BlockType::O {
                assert(column + o[1].0 < COLUMNS);
            } else {
                assert(0 <= column + o[2].0);
                assert(column + o[1].0 < COLUMNS);
            }
        }
    }
    (lo, hi)
}

/// A game session: the board, the falling piece if there is one, the spawn
/// timer, the gravity clock and whether the game is over.
pub struct Game {
    board: Board,
    active: Option<FallingBlock>,
    spawn_timer: Timer,
    gravity: FallingTimer,
    game_over: bool,
}

impl View for Game {
    type V = GameModel;

    closed spec fn view(&self) -> GameModel {
        GameModel {
            board: self.board@,
            active: self.active,
            spawn_timer: self.spawn_timer,
            gravity: self.gravity,
            game_over: self.game_over,
        }
    }
}

impl Game {
    pub open spec fn wf(&self) -> bool {
        self@.wf()
    }

    /// A session on `board`, with no falling piece and fresh timers.
    pub fn with_board(board: Board) -> (r: Game)
        requires
            board.wf(),
        ensures
            r.wf(),
            r@.board == board@,
            r@.active.is_none(),
            r@.spawn_timer == (Timer { period_ms: SPAWN_PERIOD_MS, elapsed_ms: 0 }),
            r@.gravity == FallingTimer::spec_new(),
            !r@.game_over,
    {
        Game {
            board,
            active: None,
            spawn_timer: Timer::new(SPAWN_PERIOD_MS),
            gravity: FallingTimer::new(),
            game_over: false,
        }
    }

    /// A session on an empty board.
    pub fn new() -> (r: Game)
        ensures
            r.wf(),
            forall|k: int| 0 <= k < ROWS * COLUMNS ==> (#[trigger] r@.board[k]).is_none(),
            r@.active.is_none(),
            r@.spawn_timer == (Timer { period_ms: SPAWN_PERIOD_MS, elapsed_ms: 0 }),
            r@.gravity == FallingTimer::spec_new(),
            !r@.game_over,
    {
        Game::with_board(Board::new())
    }

    /// The settled cells.
    pub fn board(&self) -> (r: &Board)
        ensures
            r@ == self@.board,
    {
        &self.board
    }

    /// The falling piece, if there is one.
    pub fn active(&self) -> (r: Option<FallingBlock>)
        ensures
            r == self@.active,
    {
        self.active
    }

    /// Whether a spawned piece found its cells occupied.
    pub fn is_game_over(&self) -> (r: bool)
        ensures
            r == self@.game_over,
    {
        self.game_over
    }

    /// The spawn timer.
    pub fn spawn_timer(&self) -> (r: Timer)
        ensures
            r == self@.spawn_timer,
    {
        self.spawn_timer
    }

    /// The gravity clock.
    pub fn gravity(&self) -> (r: FallingTimer)
        ensures
            r == self@.gravity,
    {
        self.gravity
    }

    /// The spawn phase of a step; returns whether a piece was installed.
    pub fn spawn_phase(&mut self, delta_ms: u32, choice: SpawnChoice) -> (spawned: bool)
        requires
            old(self).wf(),
            0 <= choice.column < COLUMNS,
        ensures
            final(self).wf(),
            final(self)@ == spawn_next(old(self)@, delta_ms as int, choice),
            spawned == spawns(old(self)@, delta_ms as int, choice),
    {
        if self.game_over || self.active.is_some() {
            return false;
        }
        let fired = self.spawn_timer.tick(delta_ms);
        if !fired {
            return false;
        }
        let p = FallingBlock::new(choice.block_type, 0, choice.column, choice.color);
        if collide(&self.board, &p) {
            self.game_over = true;
            false
        } else {
            self.active = Some(p);
            self.spawn_timer.reset();
            self.gravity.reset();
            true
        }
    }

    /// Replaces the falling piece by `q` if `q` fits.
    fn propose(&mut self, q: FallingBlock)
        requires
            old(self).wf(),
            old(self)@.active.is_some(),
            q.wf(),
        ensures
            final(self).wf(),
            final(self)@ == proposal_next(old(self)@, q),
    {
        if !collide(&self.board, &q) {
            self.active = Some(q);
        }
    }

    /// Rotates the falling piece clockwise, unless it is the square or the
    /// rotated piece would leave the board or cover an occupied cell.
    pub fn rotate(&mut self)
        requires
            old(self).wf(),
        ensures
            final(self).wf(),
            final(self)@ == rotate_next(old(self)@),
            old(self)@.active matches Some(p) && !fits(old(self)@.board, p.spec_rotated())
                ==> final(self)@ == old(self)@,
    {
        if let Some(p) = self.active {
            if p.block_type != BlockType::O {
                let mut q = p;
                q.rotate();
                self.propose(q);
            }
        }
    }

    /// Moves the falling piece one column left, unless it would leave the
    /// board or cover an occupied cell.
    pub fn shift_left(&mut self)
        requires
            old(self).wf(),
        ensures
            final(self).wf(),
            final(self)@ == shift_next(old(self)@, -1),
            old(self)@.active matches Some(p) && !fits(old(self)@.board, p.spec_shifted(0, -1))
                ==> final(self)@ == old(self)@,
    {
        if let Some(p) = self.active {
            proof {
                lemma_anchor_in_bounds(self@.board, p);
            }
            self.propose(FallingBlock { column: p.column - 1, ..p });
        }
    }

    /// Moves the falling piece one column right, unless it would leave the
    /// board or cover an occupied cell.
    pub fn shift_right(&mut self)
        requires
            old(self).wf(),
        ensures
            final(self).wf(),
            final(self)@ == shift_next(old(self)@, 1),
            old(self)@.active matches Some(p) && !fits(old(self)@.board, p.spec_shifted(0, 1))
                ==> final(self)@ == old(self)@,
    {
        if let Some(p) = self.active {
            proof {
                lemma_anchor_in_bounds(self@.board, p);
            }
            self.propose(FallingBlock { column: p.column + 1, ..p });
        }
    }

    /// The input phase of a step.
    pub fn apply_input(&mut self, input: StepInput)
        requires
            old(self).wf(),
        ensures
            final(self).wf(),
            final(self)@ == input_next(old(self)@, input),
    {
        if input.rotate {
            self.rotate();
        }
        if input.shift_left {
            self.shift_left();
        }
        if input.shift_right {
            self.shift_right();
        }
    }

    /// Moves the falling piece one row down if it fits there; otherwise locks
    /// it into the board. Returns whether a lock happened.
    pub fn descend(&mut self) -> (locked: bool)
        requires
            old(self).wf(),
        ensures
            final(self).wf(),
            final(self)@ == descend_next(old(self)@),
            locked == (old(self)@.active.is_some() && final(self)@.active.is_none()),
    {
        if let Some(p) = self.active {
            proof {
                lemma_anchor_in_bounds(self@.board, p);
            }
            let q = FallingBlock { row: p.row + 1, ..p };
            if !collide(&self.board, &q) {
                self.active = Some(q);
                false
            } else {
                self.board.lock(&p);
                self.active = None;
                true
            }
        } else {
            false
        }
    }

    /// The gravity phase of a step; returns whether a lock happened.
    pub fn gravity_phase(&mut self, delta_ms: u32, soft_drop: bool) -> (locked: bool)
        requires
            old(self).wf(),
        ensures
            final(self).wf(),
            final(self)@ == gravity_next(old(self)@, delta_ms as int, soft_drop),
            locked == (old(self)@.active.is_some() && final(self)@.active.is_none()),
    {
        if self.active.is_none() {
            return false;
        }
        let fired = self.gravity.tick(delta_ms, soft_drop);
        if fired {
            self.descend()
        } else {
            false
        }
    }

    /// One simulation step of `delta_ms` milliseconds: spawn, then input,
    /// then gravity. `choice` is used if the spawn timer fires.
    pub fn step(&mut self, input: StepInput, delta_ms: u32, choice: SpawnChoice) -> (r: StepOutcome)
        requires
            old(self).wf(),
            0 <= choice.column < COLUMNS,
        ensures
            final(self).wf(),
            final(self)@ == step_next(old(self)@, input, delta_ms as int, choice),
            r == step_outcome(old(self)@, input, delta_ms as int, choice),
    {
        let spawned = self.spawn_phase(delta_ms, choice);
        self.apply_input(input);
        let locked = if spawned {
            false
        } else {
            self.gravity_phase(delta_ms, input.soft_drop)
        };
        StepOutcome { spawned, locked }
    }

    /// One simulation step with a freshly drawn spawn choice.
    pub fn step_random(&mut self, input: StepInput, delta_ms: u32) -> (r: StepOutcome)
        requires
            old(self).wf(),
        ensures
            final(self).wf(),
            exists|c: SpawnChoice|
                0 <= c.column < COLUMNS && final(self)@ == step_next(old(self)@, input, delta_ms as int, c)
                    && r == step_outcome(old(self)@, input, delta_ms as int, c),
    {
        let choice = random_spawn_choice();
        self.step(input, delta_ms, choice)
    }
}

} // verus!
