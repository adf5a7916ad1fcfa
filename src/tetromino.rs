use vstd::prelude::*;

use crate::colors::Color;
use crate::settings::WIDTH_IN_BLOCKS;

verus! {

/// A cell position: an offset inside a shape, or an absolute board cell.
#[derive(Clone, Copy, Debug, PartialEq, Eq, Structural)]
pub struct Block {
    pub x: i32,
    pub y: i32,
}

impl Block {
    pub fn new(x: i32, y: i32) -> (r: Block)
        ensures
            r == (Block { x, y }),
    {
        Block { x, y }
    }
}

/// The four cell offsets of one rotation state of a shape.
pub type Configuration = [Block; 4];

/// The seven canonical shapes.
#[derive(Clone, Copy, Debug, PartialEq, Eq, Structural)]
pub enum Tetromino {
    I,
    J,
    L,
    O,
    S,
    T,
    Z,
}

/// Shorthand for a catalog offset.
pub open spec fn blk(x: i32, y: i32) -> Block {
    Block { x, y }
}

/// The catalog: the cell offsets of `shape` in rotation state `rotation` (0 to 3).
pub open spec fn configuration(shape: Tetromino, rotation: int) -> Seq<Block> {
    match shape {
        Tetromino::I => if rotation == 0 {
            seq![blk(0, 1), blk(1, 1), blk(2, 1), blk(3, 1)]
        } else if rotation == 1 {
            seq![blk(2, 0), blk(2, 1), blk(2, 2), blk(2, 3)]
        } else if rotation == 2 {
            seq![blk(0, 2), blk(1, 2), blk(2, 2), blk(3, 2)]
        } else {
            seq![blk(1, 0), blk(1, 1), blk(1, 2), blk(1, 3)]
        },
        Tetromino::J => if rotation == 0 {
            seq![blk(0, 0), blk(0, 1), blk(1, 1), blk(2, 1)]
        } else if rotation == 1 {
            seq![blk(2, 0), blk(1, 0), blk(1, 1), blk(1, 2)]
        } else if rotation == 2 {
            seq![blk(2, 2), blk(2, 1), blk(1, 1), blk(0, 1)]
        } else {
            seq![blk(0, 2), blk(1, 2), blk(1, 1), blk(1, 0)]
        },
        Tetromino::L => if rotation == 0 {
            seq![blk(2, 0), blk(2, 1), blk(1, 1), blk(0, 1)]
        } else if rotation == 1 {
            seq![blk(2, 2), blk(1, 2), blk(1, 1), blk(1, 0)]
        } else if rotation == 2 {
            seq![blk(0, 2), blk(0, 1), blk(1, 1), blk(2, 1)]
        } else {
            seq![blk(0, 0), blk(1, 0), blk(1, 1), blk(1, 2)]
        },
        Tetromino::O => seq![blk(1, 0), blk(1, 1), blk(2, 0), blk(2, 1)],
        Tetromino::S => if rotation == 0 {
            seq![blk(0, 1), blk(1, 1), blk(1, 0), blk(2, 0)]
        } else if rotation == 1 {
            seq![blk(1, 0), blk(1, 1), blk(2, 1), blk(2, 2)]
        } else if rotation == 2 {
            seq![blk(2, 1), blk(1, 1), blk(1, 2), blk(0, 2)]
        } else {
            seq![blk(1, 2), blk(1, 1), blk(0, 1), blk(0, 0)]
        },
        Tetromino::T => if rotation == 0 {
            seq![blk(1, 0), blk(0, 1), blk(1, 1), blk(2, 1)]
        } else if rotation == 1 {
            seq![blk(2, 1), blk(1, 0), blk(1, 1), blk(1, 2)]
        } else if rotation == 2 {
            seq![blk(1, 2), blk(2, 1), blk(1, 1), blk(0, 1)]
        } else {
            seq![blk(0, 1), blk(1, 0), blk(1, 1), blk(1, 2)]
        },
        Tetromino::Z => if rotation == 0 {
            seq![blk(0, 0), blk(1, 0), blk(1, 1), blk(2, 1)]
        } else if rotation == 1 {
            seq![blk(2, 0), blk(2, 1), blk(1, 1), blk(1, 2)]
        } else if rotation == 2 {
            seq![blk(2, 2), blk(1, 2), blk(1, 1), blk(0, 1)]
        } else {
            seq![blk(0, 2), blk(0, 1), blk(1, 1), blk(1, 0)]
        },
    }
}

/// The display colour of each shape.
pub open spec fn shape_color(shape: Tetromino) -> Color {
    match shape {
        Tetromino::I => Color::Cyan,
        Tetromino::J => Color::Blue,
        Tetromino::L => Color::Orange,
        Tetromino::O => Color::Yellow,
        Tetromino::S => Color::Lime,
        Tetromino::T => Color::Purple,
        Tetromino::Z => Color::Red,
    }
}

/// Every offset of the catalog lies in the 4 x 4 box with corner (0, 0).
pub proof fn lemma_offsets_in_box(shape: Tetromino, rotation: int)
    ensures
        configuration(shape, rotation).len() == 4,
        forall|i: int|
            0 <= i < 4 ==> {
                let b = #[trigger] configuration(shape, rotation)[i];
                0 <= b.x <= 3 && 0 <= b.y <= 3
            },
{
}

impl Tetromino {
    /// The cell offsets of this shape in the given rotation state.
    pub fn get_configuration(&self, rotation: usize) -> (r: Configuration)
        requires
            rotation < 4,
        ensures
            r@ == configuration(*self, rotation as int),
    {
        let r = match self {
            Tetromino::I => match rotation {
                0 => [Block { x: 0, y: 1 }, Block { x: 1, y: 1 }, Block { x: 2, y: 1 }, Block { x: 3, y: 1 }],
                1 => [Block { x: 2, y: 0 }, Block { x: 2, y: 1 }, Block { x: 2, y: 2 }, Block { x: 2, y: 3 }],
                2 => [Block { x: 0, y: 2 }, Block { x: 1, y: 2 }, Block { x: 2, y: 2 }, Block { x: 3, y: 2 }],
                _ => [Block { x: 1, y: 0 }, Block { x: 1, y: 1 }, Block { x: 1, y: 2 }, Block { x: 1, y: 3 }],
            },
            Tetromino::J => match rotation {
                0 => [Block { x: 0, y: 0 }, Block { x: 0, y: 1 }, Block { x: 1, y: 1 }, Block { x: 2, y: 1 }],
                1 => [Block { x: 2, y: 0 }, Block { x: 1, y: 0 }, Block { x: 1, y: 1 }, Block { x: 1, y: 2 }],
                2 => [Block { x: 2, y: 2 }, Block { x: 2, y: 1 }, Block { x: 1, y: 1 }, Block { x: 0, y: 1 }],
                _ => [Block { x: 0, y: 2 }, Block { x: 1, y: 2 }, Block { x: 1, y: 1 }, Block { x: 1, y: 0 }],
            },
            Tetromino::L => match rotation {
                0 => [Block { x: 2, y: 0 }, Block { x: 2, y: 1 }, Block { x: 1, y: 1 }, Block { x: 0, y: 1 }],
                1 => [Block { x: 2, y: 2 }, Block { x: 1, y: 2 }, Block { x: 1, y: 1 }, Block { x: 1, y: 0 }],
                2 => [Block { x: 0, y: 2 }, Block { x: 0, y: 1 }, Block { x: 1, y: 1 }, Block { x: 2, y: 1 }],
                _ => [Block { x: 0, y: 0 }, Block { x: 1, y: 0 }, Block { x: 1, y: 1 }, Block { x: 1, y: 2 }],
            },
            Tetromino::O => [Block { x: 1, y: 0 }, Block { x: 1, y: 1 }, Block { x: 2, y: 0 }, Block { x: 2, y: 1 }],
            Tetromino::S => match rotation {
                0 => [Block { x: 0, y: 1 }, Block { x: 1, y: 1 }, Block { x: 1, y: 0 }, Block { x: 2, y: 0 }],
                1 => [Block { x: 1, y: 0 }, Block { x: 1, y: 1 }, Block { x: 2, y: 1 }, Block { x: 2, y: 2 }],
                2 => [Block { x: 2, y: 1 }, Block { x: 1, y: 1 }, Block { x: 1, y: 2 }, Block { x: 0, y: 2 }],
                _ => [Block { x: 1, y: 2 }, Block { x: 1, y: 1 }, Block { x: 0, y: 1 }, Block { x: 0, y: 0 }],
            },
            Tetromino::T => match rotation {
                0 => [Block { x: 1, y: 0 }, Block { x: 0, y: 1 }, Block { x: 1, y: 1 }, Block { x: 2, y: 1 }],
                1 => [Block { x: 2, y: 1 }, Block { x: 1, y: 0 }, Block { x: 1, y: 1 }, Block { x: 1, y: 2 }],
                2 => [Block { x: 1, y: 2 }, Block { x: 2, y: 1 }, Block { x: 1, y: 1 }, Block { x: 0, y: 1 }],
                _ => [Block { x: 0, y: 1 }, Block { x: 1, y: 0 }, Block { x: 1, y: 1 }, Block { x: 1, y: 2 }],
            },
            Tetromino::Z => match rotation {
                0 => [Block { x: 0, y: 0 }, Block { x: 1, y: 0 }, Block { x: 1, y: 1 }, Block { x: 2, y: 1 }],
                1 => [Block { x: 2, y: 0 }, Block { x: 2, y: 1 }, Block { x: 1, y: 1 }, Block { x: 1, y: 2 }],
                2 => [Block { x: 2, y: 2 }, Block { x: 1, y: 2 }, Block { x: 1, y: 1 }, Block { x: 0, y: 1 }],
                _ => [Block { x: 0, y: 2 }, Block { x: 0, y: 1 }, Block { x: 1, y: 1 }, Block { x: 1, y: 0 }],
            },
        };
        assert(r@ =~= configuration(*self, rotation as int));
        r
    }

    /// The display colour of this shape.
    pub fn get_color(&self) -> (r: Color)
        ensures
            r == shape_color(*self),
    {
        match self {
            Tetromino::I => Color::Cyan,
            Tetromino::J => Color::Blue,
            Tetromino::L => Color::Orange,
            Tetromino::O => Color::Yellow,
            Tetromino::S => Color::Lime,
            Tetromino::T => Color::Purple,
            Tetromino::Z => Color::Red,
        }
    }
}

/// A direction in which a piece can be translated.
#[derive(Clone, Copy, Debug, PartialEq, Eq, Structural)]
pub enum Direction {
    Left,
    Right,
    Down,
}

pub open spec fn min_int(a: int, b: int) -> int {
    if a <= b {
        a
    } else {
        b
    }
}

pub open spec fn max_int(a: int, b: int) -> int {
    if a >= b {
        a
    } else {
        b
    }
}

/// A shape placed on the board: an anchor position and a rotation state.
/// Its cells are the anchor plus each offset of the current rotation state.
#[derive(Clone, Copy, Debug, PartialEq, Eq, Structural)]
pub struct Piece {
    pub x: i32,
    pub y: i32,
    pub ptype: Tetromino,
    pub rotation: usize,
}

impl Piece {
    /// The rotation state is one of the four of the catalog.
    pub open spec fn wf(self) -> bool {
        self.rotation < 4
    }

    /// The anchor leaves room in `i32` for every offset of the catalog.
    pub open spec fn coords_fit_i32(self) -> bool {
        self.x + 3 <= i32::MAX && self.y + 3 <= i32::MAX
    }

    /// The `i`-th absolute cell, as (column, row).
    pub open spec fn cell(self, i: int) -> (int, int) {
        let b = configuration(self.ptype, self.rotation as int)[i];
        (self.x + b.x, self.y + b.y)
    }

    /// The four absolute cells, in catalog order.
    pub open spec fn cells(self) -> Seq<(int, int)> {
        Seq::new(4, |i: int| self.cell(i))
    }

    /// The leftmost column among the first `n` cells (at least the first one).
    pub open spec fn min_col_upto(self, n: int) -> int
        decreases n,
    {
        if n <= 1 {
            self.cell(0).0
        } else {
            min_int(self.min_col_upto(n - 1), self.cell(n - 1).0)
        }
    }

    /// The rightmost column among the first `n` cells (at least the first one).
    pub open spec fn max_col_upto(self, n: int) -> int
        decreases n,
    {
        if n <= 1 {
            self.cell(0).0
        } else {
            max_int(self.max_col_upto(n - 1), self.cell(n - 1).0)
        }
    }

    /// The leftmost column among the piece's cells.
    pub open spec fn min_col(self) -> int {
        self.min_col_upto(4)
    }

    /// The rightmost column among the piece's cells.
    pub open spec fn max_col(self) -> int {
        self.max_col_upto(4)
    }

    /// How far the piece must move left (negative: right) so that its columns
    /// lie within the board: the left edge is corrected first, the right edge otherwise.
    pub open spec fn kick(self) -> int {
        if self.min_col() < 0 {
            self.min_col()
        } else if self.max_col() >= WIDTH_IN_BLOCKS {
            self.max_col() - WIDTH_IN_BLOCKS + 1
        } else {
            0
        }
    }

    /// Every column of the piece lies on the board.
    pub open spec fn within_columns(self) -> bool {
        0 <= self.min_col() && self.max_col() < WIDTH_IN_BLOCKS
    }

    /// The piece at the same anchor in rotation state `rotation`.
    pub open spec fn in_state(self, rotation: int) -> Piece {
        Piece { rotation: rotation as usize, ..self }
    }

    /// The next rotation state at the same anchor, then shifted by the wall kick.
    pub open spec fn turned(self) -> Piece {
        let t = Piece { rotation: ((self.rotation + 1) % 4) as usize, ..self };
        Piece { x: (t.x - t.kick()) as i32, ..t }
    }

    /// The piece translated by one cell: left, right or down.
    pub open spec fn shifted(self, direction: Direction) -> Piece {
        match direction {
            Direction::Left => Piece { x: (self.x - 1) as i32, ..self },
            Direction::Right => Piece { x: (self.x + 1) as i32, ..self },
            Direction::Down => Piece { y: (self.y + 1) as i32, ..self },
        }
    }

    /// A move in `direction` stays within `i32`.
    pub open spec fn can_shift(self, direction: Direction) -> bool {
        match direction {
            Direction::Left => self.x > i32::MIN,
            Direction::Right => self.x < i32::MAX,
            Direction::Down => self.y < i32::MAX,
        }
    }

    /// A fresh piece: horizontally centred on the top row, rotation state 0.
    pub open spec fn spawned(shape: Tetromino) -> Piece {
        Piece { x: (WIDTH_IN_BLOCKS / 2 - 2) as i32, y: 0, ptype: shape, rotation: 0 }
    }

    pub fn create(ptype: Tetromino) -> (r: Piece)
        ensures
            r == Piece::spawned(ptype),
            r.wf(),
            r.coords_fit_i32(),
    {
        let x: i32 = (WIDTH_IN_BLOCKS / 2) as i32 - 2;
        Piece::new(x, 0, ptype, 0)
    }

    fn new(x: i32, y: i32, ptype: Tetromino, rotation: usize) -> (r: Piece)
        ensures
            r == (Piece { x, y, ptype, rotation }),
    {
        Piece { x: x, y: y, ptype: ptype, rotation: rotation }
    }

    /// The absolute cells the piece occupies, in catalog order.
    pub fn occupied_cells(&self) -> (r: [Block; 4])
        requires
            self.wf(),
            self.coords_fit_i32(),
        ensures
            forall|i: int| 0 <= i < 4 ==> (#[trigger] r@[i]).x == self.cell(i).0 && r@[i].y == self.cell(i).1,
    {
        let c = self.ptype.get_configuration(self.rotation);
        proof {
            lemma_offsets_in_box(self.ptype, self.rotation as int);
        }
        let r = [
            Block { x: self.x + c[0].x, y: self.y + c[0].y },
            Block { x: self.x + c[1].x, y: self.y + c[1].y },
            Block { x: self.x + c[2].x, y: self.y + c[2].y },
            Block { x: self.x + c[3].x, y: self.y + c[3].y },
        ];
        r
    }

    pub fn blocks_iter(&self) -> (r: BlockIterator)
        requires
            self.wf(),
            self.coords_fit_i32(),
        ensures
            r.x == self.x,
            r.y == self.y,
            r.index == 0,
            r.blocks@ == configuration(self.ptype, self.rotation as int),
            r.wf(),
    {
        let configuration = self.ptype.get_configuration(self.rotation);
        proof {
            lemma_offsets_in_box(self.ptype, self.rotation as int);
        }
        BlockIterator::new(self.x, self.y, &configuration)
    }

    /// The piece in the next rotation state (modulo 4), at the same anchor
    /// shifted horizontally back within the board's columns.
    pub fn rotated(&self) -> (r: Piece)
        requires
            self.wf(),
            self.coords_fit_i32(),
        ensures
            r == self.turned(),
            r.wf(),
    {
        let new_rotation = (self.rotation + 1) % 4;
        let mut rotated = Self::new(self.x, self.y, self.ptype, new_rotation);
        let kick = rotated.wall_kick_translation();
        proof {
            lemma_column_range(rotated);
        }
        rotated.x = rotated.x - kick;
        rotated
    }

    pub fn moved(&self, direction: Direction) -> (r: Piece)
        requires
            self.can_shift(direction),
        ensures
            r == self.shifted(direction),
    {
        let (trans_x, trans_y): (i32, i32) = match direction {
            Direction::Left => (-1, 0),
            Direction::Right => (1, 0),
            Direction::Down => (0, 1),
        };
        Self::new(self.x + trans_x, self.y + trans_y, self.ptype, self.rotation)
    }

    /// The horizontal correction of the wall kick: the leftmost column when it
    /// is negative, else the overflow past the last column, else 0.
    pub fn wall_kick_translation(&self) -> (r: i32)
        requires
            self.wf(),
            self.coords_fit_i32(),
        ensures
            r == self.kick(),
    {
        let cells = self.occupied_cells();
        let mut min_x = cells[0].x;
        let mut max_x = cells[0].x;
        let mut i: usize = 1;
        while i < 4
            invariant
                1 <= i <= 4,
                forall|k: int| 0 <= k < 4 ==> (#[trigger] cells@[k]).x == self.cell(k).0,
                min_x == self.min_col_upto(i as int),
                max_x == self.max_col_upto(i as int),
            decreases 4 - i,
        {
            if cells[i].x < min_x {
                min_x = cells[i].x;
            }
            if cells[i].x > max_x {
                max_x = cells[i].x;
            }
            i = i + 1;
        }
        if min_x < 0 {
            min_x
        } else if max_x >= WIDTH_IN_BLOCKS as i32 {
            max_x - WIDTH_IN_BLOCKS as i32 + 1
        } else {
            0
        }
    }

    pub fn get_color(&self) -> (r: Color)
        ensures
            r == shape_color(self.ptype),
    {
        self.ptype.get_color()
    }
}

/// Four rotations bring a piece back to its rotation state, row and shape;
/// when none of the four rotation states at its anchor needs a wall kick,
/// back to its column as well, so to the very same piece.
pub proof fn lemma_four_rotations(p: Piece)
    requires
        p.wf(),
    ensures
        p.turned().turned().turned().turned().rotation == p.rotation,
        p.turned().turned().turned().turned().y == p.y,
        p.turned().turned().turned().turned().ptype == p.ptype,
        (forall|r: int| 0 <= r < 4 ==> #[trigger] p.in_state(r).within_columns())
            ==> p.turned().turned().turned().turned() == p,
{
    if forall|r: int| 0 <= r < 4 ==> #[trigger] p.in_state(r).within_columns() {
        let r0 = p.rotation as int;
        let p1 = p.turned();
        let p2 = p1.turned();
        let p3 = p2.turned();
        let p4 = p3.turned();
        assert(p.in_state((r0 + 1) % 4).within_columns());
        assert(p1 == p.in_state((r0 + 1) % 4));
        assert(p.in_state((r0 + 2) % 4).within_columns());
        assert(p2 == p.in_state((r0 + 2) % 4));
        assert(p.in_state((r0 + 3) % 4).within_columns());
        assert(p3 == p.in_state((r0 + 3) % 4));
        assert(p.in_state(r0).within_columns());
        assert(p4 == p.in_state(r0));
    }
}

/// A piece's columns lie between its anchor column and three columns to the right.
pub proof fn lemma_column_range(p: Piece)
    ensures
        p.x <= p.min_col() <= p.max_col() <= p.x + 3,
{
    lemma_offsets_in_box(p.ptype, p.rotation as int);
    reveal_with_fuel(Piece::min_col_upto, 4);
    reveal_with_fuel(Piece::max_col_upto, 4);
}

/// Moving a piece sideways by `d` moves its leftmost and rightmost columns by `d`.
pub proof fn lemma_shifted_columns(p: Piece, d: int, n: int)
    requires
        i32::MIN <= p.x + d <= i32::MAX,
    ensures
        (Piece { x: (p.x + d) as i32, ..p }).min_col_upto(n) == p.min_col_upto(n) + d,
        (Piece { x: (p.x + d) as i32, ..p }).max_col_upto(n) == p.max_col_upto(n) + d,
    decreases n,
{
    if n > 1 {
        lemma_shifted_columns(p, d, n - 1);
    }
}

/// A rotation whose new state would reach past the right edge moves the piece
/// left by exactly the overflow, so that its rightmost cell sits in the last
/// column; one that would reach past the left edge moves it right by exactly
/// the overflow, so that its leftmost cell sits in column 0.
pub proof fn lemma_wall_kick(p: Piece)
    requires
        p.wf(),
    ensures
        ({
            let t = p.in_state((p.rotation + 1) % 4);
            t.min_col() >= 0 && t.max_col() > WIDTH_IN_BLOCKS - 1 ==> {
                &&& p.turned().x == p.x - (t.max_col() - (WIDTH_IN_BLOCKS - 1))
                &&& p.turned().max_col() == WIDTH_IN_BLOCKS - 1
            }
        }),
        ({
            let t = p.in_state((p.rotation + 1) % 4);
            t.min_col() < 0 ==> {
                &&& p.turned().x == p.x + (0 - t.min_col())
                &&& p.turned().min_col() == 0
            }
        }),
{
    let t = p.in_state((p.rotation + 1) % 4);
    lemma_column_range(t);
    lemma_shifted_columns(t, -t.kick(), 4);
    assert(p.turned() == Piece { x: (t.x - t.kick()) as i32, ..t });
}

/// Walks the absolute cells of a configuration placed at (x, y).
pub struct BlockIterator {
    pub x: i32,
    pub y: i32,
    pub index: usize,
    pub blocks: Configuration,
}

impl BlockIterator {
    /// The position stays within the four blocks and every cell is an `i32` pair.
    pub open spec fn wf(self) -> bool {
        &&& self.index <= 4
        &&& forall|i: int|
            0 <= i < 4 ==> i32::MIN <= self.x + (#[trigger] self.blocks@[i]).x <= i32::MAX && i32::MIN
                <= self.y + self.blocks@[i].y <= i32::MAX
    }

    pub fn new(x: i32, y: i32, blocks: &Configuration) -> (r: BlockIterator)
        requires
            forall|i: int|
                0 <= i < 4 ==> i32::MIN <= x + (#[trigger] blocks@[i]).x <= i32::MAX && i32::MIN <= y
                    + blocks@[i].y <= i32::MAX,
        ensures
            r == (BlockIterator { x, y, index: 0, blocks: *blocks }),
            r.wf(),
    {
        BlockIterator { x: x, y: y, index: 0, blocks: *blocks }
    }

    /// The next absolute cell, or `None` once all four have been produced.
    pub fn next(&mut self) -> (r: Option<Block>)
        requires
            old(self).wf(),
        ensures
            final(self).wf(),
            old(self).index < 4 ==> {
                let b = old(self).blocks@[old(self).index as int];
                &&& r == Some(Block { x: (old(self).x + b.x) as i32, y: (old(self).y + b.y) as i32 })
                &&& *final(self) == (BlockIterator { index: (old(self).index + 1) as usize, ..*old(self) })
            },
            old(self).index >= 4 ==> r is None && *final(self) == *old(self),
    {
        if self.index >= 4 {
            return None;
        }
        let block = self.blocks[self.index];
        self.index = self.index + 1;
        let translated_x = self.x + block.x;
        let translated_y = self.y + block.y;
        Some(Block { x: translated_x, y: translated_y })
    }
}

} // verus!
