//! The core of a falling-block puzzle: a catalog of the seven tetromino
//! shapes and their rotation states, a board of settled cells, repeating
//! timers for spawning and gravity, and a step function that spawns,
//! rotates, shifts, drops and locks the falling piece.
//!
//! Row 0 is the top row of the board and rows grow downward. Every state
//! change of a falling piece is checked against the board first and
//! rejected whole if the piece would leave the board or cover an occupied
//! cell.
use vstd::prelude::*;

pub mod board;
pub mod game;
pub mod invariants;
pub mod piece;
pub mod random;
pub mod timer;

pub use board::{collide, Board, COLUMNS, ROWS};
pub use game::{spawn_columns, Game, SpawnChoice, StepInput, StepOutcome};
pub use piece::{BlockType, Brick, Dot, FallingBlock, MapBlock, PieceColor};
pub use random::{random_block_type, random_color, random_spawn_choice};
pub use timer::{FallingTimer, Timer, FAST_FALL_MS, NORMAL_FALL_MS, SPAWN_PERIOD_MS};

verus! {

} // verus!
