use vstd::prelude::*;

use crate::piece::{
    cells_of, distinct, lemma_offsets_distinct, offsets_of, small, Brick, FallingBlock, PieceColor,
};

verus! {

/// Number of rows of the board; row 0 is the top row.
pub const ROWS: i32 = 15;

/// Number of columns of the board; column 0 is the leftmost one.
pub const COLUMNS: i32 = 10;

pub open spec fn in_bounds(c: (int, int)) -> bool {
    0 <= c.0 < ROWS && 0 <= c.1 < COLUMNS
}

/// Where cell (row, column) is kept in the row-major cell sequence.
pub open spec fn cell_index(c: (int, int)) -> int {
    c.0 * COLUMNS + c.1
}

/// The state of cell `c` on a board whose cells, row by row, are `b`.
pub open spec fn cell_at(b: Seq<Option<PieceColor>>, c: (int, int)) -> Option<PieceColor> {
    b[cell_index(c)]
}

/// Piece `p` lies inside the board and covers no occupied cell.
pub open spec fn fits(b: Seq<Option<PieceColor>>, p: FallingBlock) -> bool {
    forall|i: int|
        0 <= i < 4 ==> in_bounds(#[trigger] cells_of(p)[i]) && cell_at(b, cells_of(p)[i]).is_none()
}

/// Piece `p` covers the cell stored at index `k`.
pub open spec fn covers(p: FallingBlock, k: int) -> bool {
    exists|i: int| 0 <= i < 4 && #[trigger] cell_index(cells_of(p)[i]) == k
}

/// The board after the cells of `p` are occupied in its colour.
pub open spec fn locked(b: Seq<Option<PieceColor>>, p: FallingBlock) -> Seq<Option<PieceColor>> {
    Seq::new(b.len(), |k: int| if covers(p, k) { Some(p.color) } else { b[k] })
}

/// The board indices of the cells of `p`.
pub open spec fn cell_indices(p: FallingBlock) -> Seq<int> {
    cells_of(p).map_values(|c: (int, int)| cell_index(c))
}

/// A piece that lies inside the board covers four different board cells.
pub proof fn lemma_cells_distinct(p: FallingBlock)
    requires
        p.wf(),
        forall|i: int| 0 <= i < 4 ==> in_bounds(#[trigger] cells_of(p)[i]),
    ensures
        cell_indices(p).len() == 4,
        cell_indices(p).no_duplicates(),
        forall|i: int| 0 <= i < 4 ==> 0 <= #[trigger] cell_indices(p)[i] < ROWS * COLUMNS,
{
    lemma_offsets_distinct(p.block_type, p.rotation as int);
    let o = offsets_of(p.block_type, p.rotation as int);
    let c = cells_of(p);
    let s = cell_indices(p);
    assert forall|i: int, j: int| 0 <= i < 4 && 0 <= j < 4 && i != j implies s[i] != s[j] by {
        assert(o[i] != o[j]);
        assert(in_bounds(c[i]));
        assert(in_bounds(c[j]));
    }
    assert forall|i: int| 0 <= i < 4 implies 0 <= #[trigger] s[i] < ROWS * COLUMNS by {
        assert(in_bounds(c[i]));
    }
}

/// Locking a piece that fits turns exactly its four cells from empty to
/// occupied in its colour, and leaves every other cell as it was.
pub proof fn lemma_lock_converts_four_cells(b: Seq<Option<PieceColor>>, p: FallingBlock)
    requires
        b.len() == ROWS * COLUMNS,
        p.wf(),
        fits(b, p),
    ensures
        ({
            let changed = Set::new(|k: int| 0 <= k < b.len() && locked(b, p)[k] != b[k]);
            &&& changed.finite()
            &&& changed.len() == 4
            &&& forall|k: int| #[trigger]
                changed.contains(k) ==> b[k].is_none() && locked(b, p)[k] == Some(p.color)
        }),
        locked(b, p).len() == b.len(),
        forall|k: int|
            0 <= k < b.len() && !covers(p, k) ==> #[trigger] locked(b, p)[k] == b[k],
{
    lemma_cells_distinct(p);
    let s = cell_indices(p);
    let changed = Set::new(|k: int| 0 <= k < b.len() && locked(b, p)[k] != b[k]);
    assert forall|k: int| changed.contains(k) <==> s.to_set().contains(k) by {
        if changed.contains(k) {
            let i = choose|i: int| 0 <= i < 4 && #[trigger] cell_index(cells_of(p)[i]) == k;
            assert(s[i] == k);
        }
        if s.to_set().contains(k) {
            let i = choose|i: int| 0 <= i < s.len() && s[i] == k;
            assert(cell_index(cells_of(p)[i]) == k);
            assert(in_bounds(cells_of(p)[i]));
            assert(cell_at(b, cells_of(p)[i]).is_none());
        }
    }
    assert(changed =~= s.to_set());
    s.unique_seq_to_set();
    assert forall|k: int| #[trigger] changed.contains(k) implies b[k].is_none() && locked(b, p)[k]
        == Some(p.color) by {
        let i = choose|i: int| 0 <= i < 4 && #[trigger] cell_index(cells_of(p)[i]) == k;
        assert(cell_at(b, cells_of(p)[i]).is_none());
    }
}

/// The settled cells of the game: each one empty or occupied in a colour.
pub struct Board {
    cells: Vec<Option<PieceColor>>,
}

impl View for Board {
    type V = Seq<Option<PieceColor>>;

    closed spec fn view(&self) -> Seq<Option<PieceColor>> {
        self.cells@
    }
}

impl Board {
    pub open spec fn wf(&self) -> bool {
        self@.len() == ROWS * COLUMNS
    }

    /// A board with every cell empty.
    pub fn new() -> (r: Board)
        ensures
            r.wf(),
            forall|k: int| 0 <= k < ROWS * COLUMNS ==> (#[trigger] r@[k]).is_none(),
    {
        let mut cells: Vec<Option<PieceColor>> = Vec::new();
        let n: usize = (ROWS * COLUMNS) as usize;
        while cells.len() < n
            invariant
                n == ROWS * COLUMNS,
                cells@.len() <= n,
                forall|k: int| 0 <= k < cells@.len() ==> (#[trigger] cells@[k]).is_none(),
            decreases n - cells@.len(),
        {
            cells.push(None);
        }
        Board { cells }
    }

    fn index(row: i64, column: i64) -> (r: usize)
        requires
            in_bounds((row as int, column as int)),
        ensures
            r == cell_index((row as int, column as int)),
            r < ROWS * COLUMNS,
    {
        assert(0 <= row * COLUMNS <= (ROWS - 1) * COLUMNS) by (nonlinear_arith)
            requires
                0 <= row < ROWS,
        ;
        (row * COLUMNS as i64 + column) as usize
    }

    /// Whether (`row`, `column`) is a cell of the board.
    pub fn is_within_bounds(row: i64, column: i64) -> (r: bool)
        ensures
            r == in_bounds((row as int, column as int)),
    {
        0 <= row && row < ROWS as i64 && 0 <= column && column < COLUMNS as i64
    }

    /// The state of cell (`row`, `column`).
    pub fn get(&self, row: i64, column: i64) -> (r: Option<PieceColor>)
        requires
            self.wf(),
            in_bounds((row as int, column as int)),
        ensures
            r == cell_at(self@, (row as int, column as int)),
    {
        self.cells[Board::index(row, column)]
    }

    /// Whether cell (`row`, `column`) is occupied.
    pub fn is_occupied(&self, row: i64, column: i64) -> (r: bool)
        requires
            self.wf(),
            in_bounds((row as int, column as int)),
        ensures
            r == cell_at(self@, (row as int, column as int)).is_some(),
    {
        self.get(row, column).is_some()
    }

    /// Occupies the empty cell (`row`, `column`) in `color`.
    pub fn occupy(&mut self, row: i64, column: i64, color: PieceColor)
        requires
            old(self).wf(),
            in_bounds((row as int, column as int)),
            cell_at(old(self)@, (row as int, column as int)).is_none(),
        ensures
            final(self).wf(),
            final(self)@ == old(self)@.update(cell_index((row as int, column as int)), Some(color)),
    {
        self.cells.set(Board::index(row, column), Some(color));
    }
}

impl Board {
    /// Occupies the cells of `piece`, which fits on the board, in its colour.
    pub fn lock(&mut self, piece: &FallingBlock)
        requires
            old(self).wf(),
            piece.wf(),
            fits(old(self)@, *piece),
        ensures
            final(self).wf(),
            final(self)@ == locked(old(self)@, *piece),
    {
        proof {
            lemma_cells_distinct(*piece);
        }
        let ghost b0 = self@;
        let b = Brick::of(piece.block_type, piece.rotation);
        let mut i: usize = 0;
        while i < 4
            invariant
                i <= 4,
                self.wf(),
                b0.len() == ROWS * COLUMNS,
                piece.wf(),
                fits(b0, *piece),
                cell_indices(*piece).no_duplicates(),
                b@ == offsets_of(piece.block_type, piece.rotation as int),
                b.is_small(),
                forall|k: int|
                    0 <= k < b0.len() ==> #[trigger] self@[k] == if exists|j: int|
                        0 <= j < i && cell_index(cells_of(*piece)[j]) == k {
                        Some(piece.color)
                    } else {
                        b0[k]
                    },
            decreases 4 - i,
        {
            let d = b.dots[i];
            assert(small(b@[i as int]));
            let row = piece.row as i64 + d.y as i64;
            let column = piece.column as i64 + d.x as i64;
            let ghost c = cells_of(*piece)[i as int];
            assert((row as int, column as int) == c);
            assert(in_bounds(c));
            assert(cell_at(b0, c).is_none());
            assert forall|j: int| 0 <= j < i implies cell_index(#[trigger] cells_of(*piece)[j])
                != cell_index(c) by {
                assert(cell_indices(*piece)[j] != cell_indices(*piece)[i as int]);
            }
            self.occupy(row, column, piece.color);
            i = i + 1;
        }
        assert(self@ =~= locked(b0, *piece));
    }
}

/// Whether piece `piece` leaves the board or covers an occupied cell.
pub fn collide(board: &Board, piece: &FallingBlock) -> (r: bool)
    requires
        board.wf(),
        piece.wf(),
    ensures
        r == !fits(board@, *piece),
{
    let b = Brick::of(piece.block_type, piece.rotation);
    let mut i: usize = 0;
    while i < 4
        invariant
            i <= 4,
            board.wf(),
            b@ == crate::piece::offsets_of(piece.block_type, piece.rotation as int),
            b.is_small(),
            forall|k: int|
                0 <= k < i ==> in_bounds(#[trigger] cells_of(*piece)[k]) && cell_at(
                    board@,
                    cells_of(*piece)[k],
                ).is_none(),
        decreases 4 - i,
    {
        let d = b.dots[i];
        assert(small(b@[i as int]));
        let row = piece.row as i64 + d.y as i64;
        let column = piece.column as i64 + d.x as i64;
        assert((row as int, column as int) == cells_of(*piece)[i as int]);
        if !Board::is_within_bounds(row, column) || board.is_occupied(row, column) {
            return true;
        }
        i = i + 1;
    }
    false
}

} // verus!
