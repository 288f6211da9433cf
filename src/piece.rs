use vstd::prelude::*;

verus! {

/// The seven tetromino shapes.
#[derive(Clone, Copy, PartialEq, Eq, Structural, Debug)]
pub enum BlockType {
    I,
    J,
    L,
    O,
    T,
    S,
    Z,
}

/// One cell offset of a shape, relative to the piece's anchor:
/// `x` counts columns to the right, `y` counts rows downward.
#[derive(Clone, Copy, PartialEq, Eq, Debug)]
pub struct Dot {
    pub x: i8,
    pub y: i8,
}

/// The four cell offsets of a shape in one rotation state.
#[derive(Clone, Copy, PartialEq, Eq, Debug)]
pub struct Brick {
    pub dots: [Dot; 4],
}

impl View for Brick {
    type V = Seq<(int, int)>;

    open spec fn view(&self) -> Seq<(int, int)> {
        self.dots@.map_values(|d: Dot| (d.x as int, d.y as int))
    }
}

/// Offsets of each shape in rotation state 0. Every cell lies in row 0 or 1
/// below the anchor, so a piece anchored at row 0 starts inside the board.
pub open spec fn base_offsets(t: BlockType) -> Seq<(int, int)> {
    match t {
        BlockType::I => seq![(0, 0), (1, 0), (-1, 0), (-2, 0)],
        BlockType::J => seq![(0, 0), (1, 0), (-1, 0), (1, 1)],
        BlockType::L => seq![(0, 0), (1, 0), (-1, 0), (-1, 1)],
        BlockType::O => seq![(0, 0), (1, 0), (0, 1), (1, 1)],
        BlockType::T => seq![(0, 0), (1, 0), (-1, 0), (0, 1)],
        BlockType::S => seq![(0, 0), (1, 0), (-1, 1), (0, 1)],
        BlockType::Z => seq![(0, 0), (-1, 0), (0, 1), (1, 1)],
    }
}

/// A quarter turn clockwise about the anchor (rows grow downward).
pub open spec fn turn_cw(d: (int, int)) -> (int, int) {
    (-d.1, d.0)
}

/// The catalog's rotation transform: a quarter turn of every offset, except
/// for the square, whose offsets are the same in every rotation state.
pub open spec fn turn(t: BlockType, s: Seq<(int, int)>) -> Seq<(int, int)> {
    if t == BlockType::O {
        s
    } else {
        s.map_values(|d: (int, int)| turn_cw(d))
    }
}

/// The rotation transform applied `n` times.
pub open spec fn turn_n(t: BlockType, s: Seq<(int, int)>, n: nat) -> Seq<(int, int)>
    decreases n,
{
    if n == 0 {
        s
    } else {
        turn(t, turn_n(t, s, (n - 1) as nat))
    }
}

/// The offsets of shape `t` in rotation state `rotation`.
pub open spec fn offsets_of(t: BlockType, rotation: int) -> Seq<(int, int)> {
    turn_n(t, base_offsets(t), rotation as nat)
}

pub open spec fn small(d: (int, int)) -> bool {
    -2 <= d.0 <= 2 && -2 <= d.1 <= 2
}

/// The offsets in `s` are pairwise distinct.
pub open spec fn distinct(s: Seq<(int, int)>) -> bool {
    forall|i: int, j: int| 0 <= i < s.len() && 0 <= j < s.len() && i != j ==> s[i] != s[j]
}

proof fn lemma_turn_keeps_distinct(t: BlockType, s: Seq<(int, int)>, n: nat)
    requires
        distinct(s),
    ensures
        turn_n(t, s, n).len() == s.len(),
        distinct(turn_n(t, s, n)),
    decreases n,
{
    if n > 0 {
        lemma_turn_keeps_distinct(t, s, (n - 1) as nat);
        let p = turn_n(t, s, (n - 1) as nat);
        let q = turn_n(t, s, n);
        assert forall|i: int, j: int| 0 <= i < q.len() && 0 <= j < q.len() && i != j implies q[i]
            != q[j] by {
            assert(p[i] != p[j]);
        }
    }
}

/// Within every shape and rotation state, the four offsets are pairwise
/// distinct cells.
pub proof fn lemma_offsets_distinct(t: BlockType, rotation: int)
    requires
        0 <= rotation < 4,
    ensures
        offsets_of(t, rotation).len() == 4,
        distinct(offsets_of(t, rotation)),
{
    lemma_turn_keeps_distinct(t, base_offsets(t), rotation as nat);
}

/// Applying the rotation transform four times to any rotation state gives back
/// exactly the same offsets, and the square's offsets are the same in all four
/// rotation states.
pub proof fn lemma_four_turns_identity(t: BlockType, rotation: int)
    requires
        0 <= rotation < 4,
    ensures
        turn_n(t, offsets_of(t, rotation), 4) == offsets_of(t, rotation),
        offsets_of(BlockType::O, rotation) == offsets_of(BlockType::O, 0),
{
    reveal_with_fuel(turn_n, 5);
    let s = offsets_of(t, rotation);
    assert(turn_n(t, s, 4) =~= s);
    assert(offsets_of(BlockType::O, rotation) =~= base_offsets(BlockType::O));
}

impl Brick {
    /// Every offset lies in [-2, 2] on both axes.
    pub open spec fn is_small(&self) -> bool {
        forall|i: int| 0 <= i < 4 ==> #[trigger] small(self@[i])
    }

    /// This brick after one application of the rotation transform of `t`.
    pub fn turned(&self, t: BlockType) -> (r: Brick)
        requires
            self.is_small(),
        ensures
            r@ == turn(t, self@),
            r.is_small(),
    {
        if t == BlockType::O {
            return *self;
        }
        let mut dots = self.dots;
        let mut i: usize = 0;
        while i < 4
            invariant
                i <= 4,
                self.is_small(),
                dots@.len() == 4,
                forall|k: int| 0 <= k < i ==> (dots@[k].x as int, dots@[k].y as int) == turn_cw(self@[k]),
                forall|k: int| i <= k < 4 ==> dots@[k] == self.dots@[k],
            decreases 4 - i,
        {
            let d = self.dots[i];
            assert(small(self@[i as int]));
            dots[i] = Dot { x: -d.y, y: d.x };
            i = i + 1;
        }
        let r = Brick { dots };
        assert(r@ =~= turn(t, self@));
        assert forall|k: int| 0 <= k < 4 implies #[trigger] small(r@[k]) by {
            assert(small(self@[k]));
        }
        r
    }

    /// The offsets of `t` in rotation state `rotation`.
    pub fn of(t: BlockType, rotation: u8) -> (r: Brick)
        requires
            rotation < 4,
        ensures
            r@ == offsets_of(t, rotation as int),
            r.is_small(),
    {
        let mut b = FallingBlock::brick(&t);
        let mut k: u8 = 0;
        while k < rotation
            invariant
                k <= rotation < 4,
                b@ == turn_n(t, base_offsets(t), k as nat),
                b.is_small(),
            decreases rotation - k,
        {
            b = b.turned(t);
            k = k + 1;
        }
        b
    }
}

/// The colour a piece is drawn in, and that its cells keep once locked.
#[derive(Clone, Copy, PartialEq, Eq, Structural, Debug)]
pub enum PieceColor {
    Purple,
    Gold,
    Violet,
    Yellow,
    Pink,
    Tomato,
    Aquamarine,
}

/// One cell of the board.
#[derive(Clone, Copy, PartialEq, Eq, Structural, Debug)]
pub struct MapBlock {
    pub row: i32,
    pub column: i32,
}

/// The falling piece: its shape, the board cell of its anchor, its rotation
/// state and its colour.
#[derive(Clone, Copy, PartialEq, Eq, Structural, Debug)]
pub struct FallingBlock {
    pub block_type: BlockType,
    pub row: i32,
    pub column: i32,
    pub rotation: u8,
    pub color: PieceColor,
}

/// The cells (row, column) that piece `p` covers: its anchor plus each offset
/// of its shape in its rotation state.
pub open spec fn cells_of(p: FallingBlock) -> Seq<(int, int)> {
    offsets_of(p.block_type, p.rotation as int).map_values(
        |d: (int, int)| (p.row + d.1, p.column + d.0),
    )
}

/// Every rotation state keeps the anchor itself as its first cell.
pub proof fn lemma_anchor_is_first_cell(t: BlockType, rotation: nat)
    ensures
        offsets_of(t, rotation as int).len() == 4,
        offsets_of(t, rotation as int)[0] == (0int, 0int),
    decreases rotation,
{
    if rotation > 0 {
        lemma_anchor_is_first_cell(t, (rotation - 1) as nat);
    }
}

impl FallingBlock {
    /// The offsets of `t` in rotation state 0.
    pub fn brick(piece: &BlockType) -> (r: Brick)
        ensures
            r@ == base_offsets(*piece),
            r.is_small(),
    {
        let dots = match piece {
            BlockType::I => [Dot { x: 0, y: 0 }, Dot { x: 1, y: 0 }, Dot { x: -1, y: 0 }, Dot { x: -2, y: 0 }],
            BlockType::J => [Dot { x: 0, y: 0 }, Dot { x: 1, y: 0 }, Dot { x: -1, y: 0 }, Dot { x: 1, y: 1 }],
            BlockType::L => [Dot { x: 0, y: 0 }, Dot { x: 1, y: 0 }, Dot { x: -1, y: 0 }, Dot { x: -1, y: 1 }],
            BlockType::O => [Dot { x: 0, y: 0 }, Dot { x: 1, y: 0 }, Dot { x: 0, y: 1 }, Dot { x: 1, y: 1 }],
            BlockType::T => [Dot { x: 0, y: 0 }, Dot { x: 1, y: 0 }, Dot { x: -1, y: 0 }, Dot { x: 0, y: 1 }],
            BlockType::S => [Dot { x: 0, y: 0 }, Dot { x: 1, y: 0 }, Dot { x: -1, y: 1 }, Dot { x: 0, y: 1 }],
            BlockType::Z => [Dot { x: 0, y: 0 }, Dot { x: -1, y: 0 }, Dot { x: 0, y: 1 }, Dot { x: 1, y: 1 }],
        };
        let r = Brick { dots };
        assert(r@ =~= base_offsets(*piece));
        r
    }


    /// A piece of shape `block_type` in rotation state 0 anchored at (`row`, `column`).
    pub fn new(block_type: BlockType, row: i32, column: i32, color: PieceColor) -> (r: FallingBlock)
        ensures
            r == (FallingBlock { block_type, row, column, rotation: 0, color }),
    {
        FallingBlock { block_type, row, column, rotation: 0, color }
    }

    pub open spec fn wf(&self) -> bool {
        self.rotation < 4
    }

    /// The next rotation state, clockwise, at the same anchor.
    pub open spec fn spec_rotated(&self) -> FallingBlock {
        FallingBlock { rotation: ((self.rotation + 1) % 4) as u8, ..*self }
    }

    /// The same piece with its anchor moved by (`rows`, `columns`).
    pub open spec fn spec_shifted(&self, rows: int, columns: int) -> FallingBlock {
        FallingBlock { row: (self.row + rows) as i32, column: (self.column + columns) as i32, ..*self }
    }

    /// The same piece in its next rotation state, clockwise.
    pub fn rotate(&mut self)
        requires
            old(self).wf(),
        ensures
            *final(self) == old(self).spec_rotated(),
            final(self).wf(),
    {
        self.rotation = (self.rotation + 1) % 4;
    }

    /// The four cells the piece covers, in the order of its offsets.
    pub fn cells(&self) -> (r: Vec<MapBlock>)
        requires
            self.wf(),
            i32::MIN + 2 <= self.row <= i32::MAX - 2,
            i32::MIN + 2 <= self.column <= i32::MAX - 2,
        ensures
            r@.len() == 4,
            forall|i: int| 0 <= i < 4 ==> (r@[i].row as int, r@[i].column as int) == #[trigger] cells_of(*self)[i],
    {
        let b = Brick::of(self.block_type, self.rotation);
        let mut r: Vec<MapBlock> = Vec::new();
        let mut i: usize = 0;
        while i < 4
            invariant
                i <= 4,
                r@.len() == i,
                b@ == offsets_of(self.block_type, self.rotation as int),
                b.is_small(),
                i32::MIN + 2 <= self.row <= i32::MAX - 2,
                i32::MIN + 2 <= self.column <= i32::MAX - 2,
                forall|k: int| 0 <= k < i ==> (r@[k].row as int, r@[k].column as int) == #[trigger] cells_of(*self)[k],
            decreases 4 - i,
        {
            let d = b.dots[i];
            assert(small(b@[i as int]));
            r.push(MapBlock { row: self.row + d.y as i32, column: self.column + d.x as i32 });
            i = i + 1;
        }
        r
    }
}

} // verus!
