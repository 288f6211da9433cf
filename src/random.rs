use vstd::prelude::*;

use crate::board::COLUMNS;
use crate::game::{lies_within_columns, spawn_columns, SpawnChoice};
use crate::piece::{BlockType, PieceColor};

verus! {

/// Relies on `rand::thread_rng` and `rand::Rng::gen_range`: a value drawn
/// from `0..bound`, which lies in that half-open range. `gen_range` panics
/// on an empty range, so `bound` is positive.
#[verifier::external_body]
fn random_below(bound: u32) -> (r: u32)
    requires
        bound > 0,
    ensures
        r < bound,
{
    rand::Rng::gen_range(&mut rand::thread_rng(), 0..bound)
}

/// The shape numbered `k`, in the order I, J, L, O, T, S, Z.
pub open spec fn block_type_at(k: int) -> BlockType {
    if k == 0 {
        BlockType::I
    } else if k == 1 {
        BlockType::J
    } else if k == 2 {
        BlockType::L
    } else if k == 3 {
        BlockType::O
    } else if k == 4 {
        BlockType::T
    } else if k == 5 {
        BlockType::S
    } else {
        BlockType::Z
    }
}

/// The colour numbered `k`, in the order purple, gold, violet, yellow, pink,
/// tomato, aquamarine.
pub open spec fn color_at(k: int) -> PieceColor {
    if k == 0 {
        PieceColor::Purple
    } else if k == 1 {
        PieceColor::Gold
    } else if k == 2 {
        PieceColor::Violet
    } else if k == 3 {
        PieceColor::Yellow
    } else if k == 4 {
        PieceColor::Pink
    } else if k == 5 {
        PieceColor::Tomato
    } else {
        PieceColor::Aquamarine
    }
}

/// The shape numbered `k` (`k < 7`).
pub fn block_type_from_index(k: u32) -> (r: BlockType)
    requires
        k < 7,
    ensures
        r == block_type_at(k as int),
{
    match k {
        0 => BlockType::I,
        1 => BlockType::J,
        2 => BlockType::L,
        3 => BlockType::O,
        4 => BlockType::T,
        5 => BlockType::S,
        _ => BlockType::Z,
    }
}

/// The colour numbered `k` (`k < 7`).
pub fn color_from_index(k: u32) -> (r: PieceColor)
    requires
        k < 7,
    ensures
        r == color_at(k as int),
{
    match k {
        0 => PieceColor::Purple,
        1 => PieceColor::Gold,
        2 => PieceColor::Violet,
        3 => PieceColor::Yellow,
        4 => PieceColor::Pink,
        5 => PieceColor::Tomato,
        _ => PieceColor::Aquamarine,
    }
}

/// One of the seven shapes, drawn uniformly.
pub fn random_block_type() -> (r: BlockType)
    ensures
        exists|k: int| 0 <= k < 7 && r == block_type_at(k),
{
    let k = random_below(7);
    block_type_from_index(k)
}

/// One of the seven piece colours, drawn uniformly.
pub fn random_color() -> (r: PieceColor)
    ensures
        exists|k: int| 0 <= k < 7 && r == color_at(k),
{
    let k = random_below(7);
    color_from_index(k)
}

/// A spawn choice with shape and colour drawn uniformly, and the column
/// drawn uniformly among those of `[0, COLUMNS)` at which the drawn shape
/// lies within the columns of the board. A spawn that would stick out of the
/// board ends the game like one that overlaps settled cells, so only such
/// columns are drawn.
pub fn random_spawn_choice() -> (r: SpawnChoice)
    ensures
        0 <= r.column < COLUMNS,
        lies_within_columns(r.block_type, r.column as int),
{
    let block_type = random_block_type();
    let (lo, hi) = spawn_columns(block_type);
    let k = random_below((hi - lo + 1) as u32);
    let color = random_color();
    SpawnChoice { block_type, column: lo + k as i32, color }
}

} // verus!
