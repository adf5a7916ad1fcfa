use vstd::prelude::*;

use crate::colors::Color;
use crate::settings::{HEIGHT_IN_BLOCKS, WIDTH_IN_BLOCKS};
use crate::tetromino::{lemma_offsets_in_box, shape_color, Block, Piece};

verus! {

/// What a board cell holds: nothing, or a block of a locked piece with its colour.
#[derive(Clone, Copy, Debug, PartialEq, Eq, Structural)]
pub enum CellState {
    Empty,
    Block(Color),
}

/// One row of the board, indexed by column.
pub type GridRow = [CellState; WIDTH_IN_BLOCKS];

/// Every cell of the row holds a block.
pub open spec fn row_full(row: GridRow) -> bool {
    forall|x: int| 0 <= x < WIDTH_IN_BLOCKS ==> #[trigger] row@[x] != CellState::Empty
}

/// No cell of the row holds a block.
pub open spec fn row_clear(row: GridRow) -> bool {
    forall|x: int| 0 <= x < WIDTH_IN_BLOCKS ==> #[trigger] row@[x] == CellState::Empty
}

/// A row of empty cells.
pub open spec fn empty_row() -> GridRow {
    [CellState::Empty; WIDTH_IN_BLOCKS]
}

/// The rows that are not full, top to bottom, in their original order.
pub open spec fn unfilled_rows(rows: Seq<GridRow>) -> Seq<GridRow>
    decreases rows.len(),
{
    if rows.len() == 0 {
        Seq::empty()
    } else if row_full(rows.last()) {
        unfilled_rows(rows.drop_last())
    } else {
        unfilled_rows(rows.drop_last()).push(rows.last())
    }
}

/// How many rows are full.
pub open spec fn full_row_count(rows: Seq<GridRow>) -> nat
    decreases rows.len(),
{
    if rows.len() == 0 {
        0
    } else if row_full(rows.last()) {
        full_row_count(rows.drop_last()) + 1
    } else {
        full_row_count(rows.drop_last())
    }
}

/// The rows after the full ones are removed: that many empty rows on top,
/// then the remaining rows in their order.
pub open spec fn cleared(rows: Seq<GridRow>) -> Seq<GridRow> {
    Seq::new(full_row_count(rows), |i: int| empty_row()) + unfilled_rows(rows)
}

/// Indexes below `n` of the full rows, from the bottom up.
pub open spec fn full_row_indexes(rows: Seq<GridRow>, n: int) -> Seq<usize>
    decreases n,
{
    if n <= 0 {
        Seq::empty()
    } else if row_full(rows[n - 1]) {
        seq![(n - 1) as usize] + full_row_indexes(rows, n - 1)
    } else {
        full_row_indexes(rows, n - 1)
    }
}

/// Column `x` and row `y` lie on the board.
pub open spec fn in_bounds(x: int, y: int) -> bool {
    0 <= x < WIDTH_IN_BLOCKS && 0 <= y < HEIGHT_IN_BLOCKS
}

/// Each row is either kept or counted as full.
pub proof fn lemma_unfilled_len(rows: Seq<GridRow>)
    ensures
        unfilled_rows(rows).len() + full_row_count(rows) == rows.len(),
    decreases rows.len(),
{
    if rows.len() > 0 {
        lemma_unfilled_len(rows.drop_last());
    }
}

/// With no full row, nothing is removed and the rows stay as they are.
pub proof fn lemma_no_full_rows(rows: Seq<GridRow>)
    requires
        forall|i: int| 0 <= i < rows.len() ==> !row_full(#[trigger] rows[i]),
    ensures
        full_row_count(rows) == 0,
        unfilled_rows(rows) == rows,
        cleared(rows) == rows,
    decreases rows.len(),
{
    if rows.len() > 0 {
        let prefix = rows.drop_last();
        assert forall|i: int| 0 <= i < prefix.len() implies !row_full(#[trigger] prefix[i]) by {
            assert(prefix[i] == rows[i]);
        }
        lemma_no_full_rows(prefix);
        assert(!row_full(rows[rows.len() - 1]));
        assert(prefix.push(rows.last()) =~= rows);
    }
    assert(cleared(rows) =~= rows);
}

/// With exactly one full row, at `j`, one row is removed: the rows are those
/// of `rows` without row `j`.
pub proof fn lemma_one_full_row(rows: Seq<GridRow>, j: int)
    requires
        0 <= j < rows.len(),
        row_full(rows[j]),
        forall|i: int| 0 <= i < rows.len() && i != j ==> !row_full(#[trigger] rows[i]),
    ensures
        full_row_count(rows) == 1,
        unfilled_rows(rows) == rows.remove(j),
    decreases rows.len(),
{
    let prefix = rows.drop_last();
    if j == rows.len() - 1 {
        assert forall|i: int| 0 <= i < prefix.len() implies !row_full(#[trigger] prefix[i]) by {
            assert(prefix[i] == rows[i]);
        }
        lemma_no_full_rows(prefix);
        assert(rows.remove(j) =~= prefix);
    } else {
        assert forall|i: int| 0 <= i < prefix.len() && i != j implies !row_full(#[trigger] prefix[i]) by {
            assert(prefix[i] == rows[i]);
        }
        assert(prefix[j] == rows[j]);
        lemma_one_full_row(prefix, j);
        assert(!row_full(rows[rows.len() - 1]));
        assert(prefix.remove(j).push(rows.last()) =~= rows.remove(j));
    }
}

/// With exactly two full rows, at `i` above `j`, two rows are removed: the
/// rows are those of `rows` without rows `i` and `j`.
pub proof fn lemma_two_full_rows(rows: Seq<GridRow>, i: int, j: int)
    requires
        0 <= i < j < rows.len(),
        row_full(rows[i]),
        row_full(rows[j]),
        forall|k: int| 0 <= k < rows.len() && k != i && k != j ==> !row_full(#[trigger] rows[k]),
    ensures
        full_row_count(rows) == 2,
        unfilled_rows(rows) == rows.remove(j).remove(i),
    decreases rows.len(),
{
    let prefix = rows.drop_last();
    assert(prefix[i] == rows[i]);
    if j == rows.len() - 1 {
        assert forall|k: int| 0 <= k < prefix.len() && k != i implies !row_full(#[trigger] prefix[k]) by {
            assert(prefix[k] == rows[k]);
        }
        lemma_one_full_row(prefix, i);
        assert(rows.remove(j) =~= prefix);
    } else {
        assert forall|k: int| 0 <= k < prefix.len() && k != i && k != j implies !row_full(#[trigger] prefix[k]) by {
            assert(prefix[k] == rows[k]);
        }
        assert(prefix[j] == rows[j]);
        lemma_two_full_rows(prefix, i, j);
        assert(!row_full(rows[rows.len() - 1]));
        assert(prefix.remove(j).remove(i).push(rows.last()) =~= rows.remove(j).remove(i));
    }
}

/// Clearing a board whose cells are all empty removes no row and leaves the
/// board as it was.
pub proof fn lemma_clear_empty_board(board: Board)
    requires
        board.wf(),
        forall|x: int, y: int| in_bounds(x, y) ==> #[trigger] board.cell(x, y) == CellState::Empty,
    ensures
        full_row_count(board.grid@) == 0,
        cleared(board.grid@) == board.grid@,
{
    assert forall|y: int| 0 <= y < board.grid@.len() implies !row_full(#[trigger] board.grid@[y]) by {
        assert(board.cell(0, y) == CellState::Empty);
    }
    lemma_no_full_rows(board.grid@);
}

/// When the bottom row is the only full one, clearing removes one row: an
/// empty row comes in on top and every other row moves down by one.
pub proof fn lemma_clear_bottom_row(board: Board)
    requires
        board.wf(),
        row_full(board.grid@[HEIGHT_IN_BLOCKS - 1]),
        forall|y: int| 0 <= y < HEIGHT_IN_BLOCKS - 1 ==> !row_full(#[trigger] board.grid@[y]),
    ensures
        full_row_count(board.grid@) == 1,
        cleared(board.grid@) == seq![empty_row()] + board.grid@.drop_last(),
{
    let rows = board.grid@;
    lemma_one_full_row(rows, HEIGHT_IN_BLOCKS - 1);
    assert(rows.remove(HEIGHT_IN_BLOCKS - 1) =~= rows.drop_last());
    assert(cleared(rows) =~= seq![empty_row()] + rows.drop_last());
}

/// When rows `i` and `j` (i above j) are the only full ones, clearing removes
/// two rows: two empty rows come in on top, the other rows keep their order,
/// and each row above `i` moves down by two with its cells unchanged.
pub proof fn lemma_clear_two_rows(board: Board, i: int, j: int)
    requires
        board.wf(),
        0 <= i < j < HEIGHT_IN_BLOCKS,
        row_full(board.grid@[i]),
        row_full(board.grid@[j]),
        forall|k: int|
            0 <= k < HEIGHT_IN_BLOCKS && k != i && k != j ==> !row_full(#[trigger] board.grid@[k]),
    ensures
        full_row_count(board.grid@) == 2,
        cleared(board.grid@) == seq![empty_row(), empty_row()] + board.grid@.remove(j).remove(i),
        forall|k: int| 0 <= k < i ==> #[trigger] cleared(board.grid@)[k + 2] == board.grid@[k],
{
    let rows = board.grid@;
    lemma_two_full_rows(rows, i, j);
    assert(cleared(rows) =~= seq![empty_row(), empty_row()] + rows.remove(j).remove(i));
    assert forall|k: int| 0 <= k < i implies #[trigger] cleared(rows)[k + 2] == rows[k] by {
        assert(rows.remove(j).remove(i)[k] == rows[k]);
    }
}

/// `after` is `before` with every cell of `piece` holding the piece's colour.
pub open spec fn placed(before: Board, piece: Piece, after: Board) -> bool {
    &&& after.wf()
    &&& forall|x: int, y: int|
        in_bounds(x, y) ==> #[trigger] after.cell(x, y) == if piece.cells().contains((x, y)) {
            CellState::Block(shape_color(piece.ptype))
        } else {
            before.cell(x, y)
        }
}

/// The playfield: `HEIGHT_IN_BLOCKS` rows of `WIDTH_IN_BLOCKS` cells, row 0 on top.
pub struct Board {
    pub grid: Vec<GridRow>,
}

impl Board {
    /// The number of rows never changes.
    pub open spec fn wf(&self) -> bool {
        self.grid@.len() == HEIGHT_IN_BLOCKS
    }

    /// The cell in column `x` of row `y`.
    pub open spec fn cell(&self, x: int, y: int) -> CellState {
        self.grid@[y]@[x]
    }

    /// Every cell of `piece` lies on the board and is empty.
    pub open spec fn can_hold(&self, piece: Piece) -> bool {
        forall|i: int|
            0 <= i < 4 ==> in_bounds(#[trigger] piece.cell(i).0, piece.cell(i).1) && self.cell(
                piece.cell(i).0,
                piece.cell(i).1,
            ) == CellState::Empty
    }

    pub fn new() -> (r: Board)
        ensures
            r.wf(),
            r.grid@ == Seq::new(HEIGHT_IN_BLOCKS as nat, |i: int| empty_row()),
    {
        Board { grid: Self::create_empty_grid() }
    }

    /// Writes the piece's colour into each of its cells, whatever they held.
    pub fn set_piece(&mut self, piece: &Piece)
        requires
            old(self).wf(),
            piece.wf(),
            forall|i: int| 0 <= i < 4 ==> in_bounds(#[trigger] piece.cell(i).0, piece.cell(i).1),
        ensures
            placed(*old(self), *piece, *final(self)),
    {
        proof {
            lemma_offsets_in_box(piece.ptype, piece.rotation as int);
            assert(in_bounds(piece.cell(0).0, piece.cell(0).1));
        }
        let cells = piece.occupied_cells();
        let state = CellState::Block(piece.get_color());
        let mut i: usize = 0;
        while i < 4
            invariant
                i <= 4,
                self.wf(),
                old(self).wf(),
                piece.wf(),
                state == CellState::Block(shape_color(piece.ptype)),
                forall|k: int|
                    0 <= k < 4 ==> (#[trigger] cells@[k]).x == piece.cell(k).0 && cells@[k].y
                        == piece.cell(k).1,
                forall|k: int| 0 <= k < 4 ==> in_bounds(#[trigger] piece.cell(k).0, piece.cell(k).1),
                forall|x: int, y: int|
                    in_bounds(x, y) ==> #[trigger] self.cell(x, y) == if piece.cells().subrange(
                        0,
                        i as int,
                    ).contains((x, y)) {
                        state
                    } else {
                        old(self).cell(x, y)
                    },
            decreases 4 - i,
        {
            proof {
                assert(in_bounds(piece.cell(i as int).0, piece.cell(i as int).1));
            }
            let ghost pre = *self;
            self.set_cell_state(cells[i], state);
            proof {
                let before = piece.cells().subrange(0, i as int);
                let after = piece.cells().subrange(0, i + 1);
                assert(after =~= before.push(piece.cell(i as int)));
                assert forall|x: int, y: int| in_bounds(x, y) implies #[trigger] self.cell(x, y) == if after.contains((x, y)) {
                    state
                } else {
                    old(self).cell(x, y)
                } by {
                    assert(pre.cell(x, y) == if before.contains((x, y)) {
                        state
                    } else {
                        old(self).cell(x, y)
                    });
                    if x == cells@[i as int].x && y == cells@[i as int].y {
                        assert(after[i as int] == (x, y));
                    } else {
                        if after.contains((x, y)) {
                            let k = choose|k: int| 0 <= k < after.len() && after[k] == (x, y);
                            assert(before[k] == (x, y));
                        }
                        if before.contains((x, y)) {
                            let k = choose|k: int| 0 <= k < before.len() && before[k] == (x, y);
                            assert(after[k] == (x, y));
                        }
                    }
                }
            }
            i = i + 1;
        }
        proof {
            assert(piece.cells().subrange(0, 4) =~= piece.cells());
        }
    }

    /// Whether the cell of `block` holds a block. The cell must lie on the board.
    pub fn is_space_occupied(&self, block: Block) -> (r: bool)
        requires
            self.wf(),
            in_bounds(block.x as int, block.y as int),
        ensures
            r == (self.cell(block.x as int, block.y as int) != CellState::Empty),
    {
        match self.get_cell_state(block.x, block.y) {
            CellState::Block(_) => true,
            CellState::Empty => false,
        }
    }

    /// Removes every full row; the rows above each move down to close the gap
    /// and empty rows come in on top. Returns how many rows were removed.
    pub fn remove_completed_rows(&mut self) -> (n: u32)
        requires
            old(self).wf(),
        ensures
            final(self).wf(),
            final(self).grid@ == cleared(old(self).grid@),
            n == full_row_count(old(self).grid@),
    {
        let mut kept: Vec<GridRow> = Vec::new();
        let mut y: usize = 0;
        while y < HEIGHT_IN_BLOCKS
            invariant
                self.wf(),
                y <= HEIGHT_IN_BLOCKS,
                kept@ == unfilled_rows(self.grid@.subrange(0, y as int)),
            decreases HEIGHT_IN_BLOCKS - y,
        {
            let row = self.grid[y];
            proof {
                assert(self.grid@.subrange(0, y + 1).drop_last() =~= self.grid@.subrange(0, y as int));
            }
            if !Self::row_is_complete(&row) {
                kept.push(row);
            }
            y = y + 1;
        }
        proof {
            assert(self.grid@.subrange(0, HEIGHT_IN_BLOCKS as int) =~= self.grid@);
            lemma_unfilled_len(self.grid@);
        }
        let removed: usize = HEIGHT_IN_BLOCKS - kept.len();
        let mut grid: Vec<GridRow> = Vec::new();
        let mut k: usize = 0;
        while k < removed
            invariant
                k <= removed,
                grid@ == Seq::new(k as nat, |i: int| empty_row()),
            decreases removed - k,
        {
            grid.push(Self::create_empty_row());
            k = k + 1;
            proof {
                assert(grid@ =~= Seq::new(k as nat, |i: int| empty_row()));
            }
        }
        let mut j: usize = 0;
        while j < kept.len()
            invariant
                j <= kept.len(),
                grid@ == Seq::new(removed as nat, |i: int| empty_row()) + kept@.subrange(0, j as int),
            decreases kept.len() - j,
        {
            grid.push(kept[j]);
            j = j + 1;
            proof {
                assert(grid@ =~= Seq::new(removed as nat, |i: int| empty_row()) + kept@.subrange(0, j as int));
            }
        }
        proof {
            assert(kept@.subrange(0, kept@.len() as int) =~= kept@);
        }
        self.grid = grid;
        removed as u32
    }

    /// Indexes of the full rows, from the bottom row up.
    pub fn find_completed_row_indexes(&self) -> (r: Vec<usize>)
        requires
            self.wf(),
        ensures
            r@ == full_row_indexes(self.grid@, HEIGHT_IN_BLOCKS as int),
    {
        let mut completed_row_indexes: Vec<usize> = Vec::new();
        let mut n: usize = HEIGHT_IN_BLOCKS;
        while n > 0
            invariant
                self.wf(),
                n <= HEIGHT_IN_BLOCKS,
                full_row_indexes(self.grid@, HEIGHT_IN_BLOCKS as int) == completed_row_indexes@
                    + full_row_indexes(self.grid@, n as int),
            decreases n,
        {
            let grid_index = n - 1;
            if Self::row_is_complete(&self.grid[grid_index]) {
                completed_row_indexes.push(grid_index);
                proof {
                    assert(completed_row_indexes@ + full_row_indexes(self.grid@, grid_index as int)
                        =~= completed_row_indexes@.drop_last() + (seq![grid_index] + full_row_indexes(self.grid@, grid_index as int)));
                }
            }
            n = grid_index;
        }
        proof {
            assert(completed_row_indexes@ + Seq::<usize>::empty() =~= completed_row_indexes@);
        }
        completed_row_indexes
    }

    /// The state of the cell in column `x` of row `y`, which must lie on the board.
    pub fn get_cell_state(&self, x: i32, y: i32) -> (r: CellState)
        requires
            self.wf(),
            in_bounds(x as int, y as int),
        ensures
            r == self.cell(x as int, y as int),
    {
        self.grid[y as usize][x as usize]
    }

    /// Overwrites the cell of `block`, which must lie on the board.
    pub fn set_cell_state(&mut self, block: Block, cell_state: CellState)
        requires
            old(self).wf(),
            in_bounds(block.x as int, block.y as int),
        ensures
            final(self).wf(),
            forall|x: int, y: int|
                in_bounds(x, y) ==> #[trigger] final(self).cell(x, y) == if x == block.x && y
                    == block.y {
                    cell_state
                } else {
                    old(self).cell(x, y)
                },
    {
        let mut row = self.grid[block.y as usize];
        row[block.x as usize] = cell_state;
        self.grid[block.y as usize] = row;
    }

    /// A board of empty rows.
    pub fn create_empty_grid() -> (r: Vec<GridRow>)
        ensures
            r@ == Seq::new(HEIGHT_IN_BLOCKS as nat, |i: int| empty_row()),
    {
        let mut grid: Vec<GridRow> = Vec::with_capacity(HEIGHT_IN_BLOCKS);
        let mut k: usize = 0;
        while k < HEIGHT_IN_BLOCKS
            invariant
                k <= HEIGHT_IN_BLOCKS,
                grid@ == Seq::new(k as nat, |i: int| empty_row()),
            decreases HEIGHT_IN_BLOCKS - k,
        {
            grid.push(Self::create_empty_row());
            k = k + 1;
            proof {
                assert(grid@ =~= Seq::new(k as nat, |i: int| empty_row()));
            }
        }
        grid
    }

    pub fn create_empty_row() -> (r: GridRow)
        ensures
            r == empty_row(),
            row_clear(r),
    {
        [CellState::Empty; WIDTH_IN_BLOCKS]
    }

    pub fn row_is_empty(row: &GridRow) -> (r: bool)
        ensures
            r == row_clear(*row),
    {
        let mut x: usize = 0;
        while x < WIDTH_IN_BLOCKS
            invariant
                x <= WIDTH_IN_BLOCKS,
                forall|k: int| 0 <= k < x ==> #[trigger] row@[k] == CellState::Empty,
            decreases WIDTH_IN_BLOCKS - x,
        {
            if row[x] != CellState::Empty {
                return false;
            }
            x = x + 1;
        }
        true
    }

    pub fn row_is_complete(row: &GridRow) -> (r: bool)
        ensures
            r == row_full(*row),
    {
        let mut x: usize = 0;
        while x < WIDTH_IN_BLOCKS
            invariant
                x <= WIDTH_IN_BLOCKS,
                forall|k: int| 0 <= k < x ==> #[trigger] row@[k] != CellState::Empty,
            decreases WIDTH_IN_BLOCKS - x,
        {
            if row[x] == CellState::Empty {
                return false;
            }
            x = x + 1;
        }
        true
    }
}

} // verus!
