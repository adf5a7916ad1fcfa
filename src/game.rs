use vstd::prelude::*;

use crate::board::{cleared, empty_row, full_row_count, in_bounds, placed, row_clear, Board, CellState};
use crate::randomizer::{recorded, Randomizer};
use crate::settings::{HEIGHT_IN_BLOCKS, MAX_GAME_LEVEL, WIDTH_IN_BLOCKS};
use crate::stats::{capped_add, level_for, scored_lines, GameStats};
use crate::tetromino::{lemma_column_range, lemma_offsets_in_box, Direction, Piece, Tetromino};

verus! {

/// The gravity delay per level step, in microseconds (a tenth of a second).
pub const DELAY_STEP_MICROS: u64 = 100_000;

#[derive(Clone, Copy, Debug, PartialEq, Eq, Structural)]
pub enum GameState {
    Playing,
    Paused,
    GameOver,
}

/// A discrete input command.
#[derive(Clone, Copy, Debug, PartialEq, Eq, Structural)]
pub enum Command {
    Rotate,
    MoveLeft,
    MoveRight,
    SoftDrop,
    HardDrop,
    TogglePause,
}

/// The gravity delay, in microseconds, at the level reached after `lines` rows.
pub open spec fn drop_delay_for(lines: u32) -> int {
    (MAX_GAME_LEVEL + 1 - level_for(lines)) * DELAY_STEP_MICROS
}

/// Where `piece` comes to rest when it falls straight down on `board`.
pub open spec fn landing(board: Board, piece: Piece) -> Piece
    decreases HEIGHT_IN_BLOCKS - piece.y,
{
    let below = piece.shifted(Direction::Down);
    if piece.y < HEIGHT_IN_BLOCKS && board.can_hold(below) {
        landing(board, below)
    } else {
        piece
    }
}

/// A piece that the board holds lies within three cells of the board.
pub proof fn lemma_held_piece_bounds(board: Board, piece: Piece)
    requires
        piece.wf(),
        board.can_hold(piece),
    ensures
        -3 <= piece.x < WIDTH_IN_BLOCKS,
        -3 <= piece.y < HEIGHT_IN_BLOCKS,
        piece.coords_fit_i32(),
{
    lemma_offsets_in_box(piece.ptype, piece.rotation as int);
    assert(in_bounds(piece.cell(0).0, piece.cell(0).1));
}

/// A falling piece keeps its column, shape and rotation and only moves down.
pub proof fn lemma_landing_below(board: Board, piece: Piece)
    ensures
        landing(board, piece).y >= piece.y,
        landing(board, piece).x == piece.x,
        landing(board, piece).ptype == piece.ptype,
        landing(board, piece).rotation == piece.rotation,
    decreases HEIGHT_IN_BLOCKS - piece.y,
{
    let below = piece.shifted(Direction::Down);
    if piece.y < HEIGHT_IN_BLOCKS && board.can_hold(below) {
        lemma_landing_below(board, below);
    }
}

/// A new piece fits on a board of empty rows.
pub proof fn lemma_spawn_fits_empty_board(board: Board, shape: Tetromino)
    requires
        board.grid@ == Seq::new(HEIGHT_IN_BLOCKS as nat, |i: int| empty_row()),
    ensures
        board.can_hold(Piece::spawned(shape)),
{
    let p = Piece::spawned(shape);
    lemma_offsets_in_box(shape, 0);
    assert(row_clear(empty_row()));
    assert forall|i: int| 0 <= i < 4 implies in_bounds(#[trigger] p.cell(i).0, p.cell(i).1)
        && board.cell(p.cell(i).0, p.cell(i).1) == CellState::Empty by {
        assert(board.grid@[p.cell(i).1] == empty_row());
    }
}

/// The game: the board, the falling piece, the queued one, the randomizer
/// that supplies pieces, the statistics, the gravity timer and the state.
pub struct Rustris {
    pub board: Board,
    pub randomizer: Randomizer,
    pub current_piece: Piece,
    pub next_piece: Piece,
    pub stats: GameStats,
    /// Time since the piece last fell, in microseconds.
    pub time_since_moved: u64,
    pub state: GameState,
}

/// The queued piece becomes current if it fits on `new`'s board, and a fresh
/// piece is queued behind it; otherwise the game is over and the pieces stay.
pub open spec fn promoted(old: Rustris, new: Rustris) -> bool {
    &&& new.time_since_moved == old.time_since_moved
    &&& if new.board.can_hold(old.next_piece) {
        &&& new.state == old.state
        &&& new.current_piece == old.next_piece
        &&& new.next_piece == Piece::spawned(new.next_piece.ptype)
        &&& new.randomizer.history@ == recorded(old.randomizer.history@, new.next_piece.ptype)
    } else {
        &&& new.state == GameState::GameOver
        &&& new.current_piece == old.current_piece
        &&& new.next_piece == old.next_piece
        &&& new.randomizer.history@ == old.randomizer.history@
    }
}

/// `new` is `old` after its current piece locks: the piece is written into
/// the board, the full rows are removed and scored, and the queued piece is
/// promoted.
pub open spec fn locked(old: Rustris, new: Rustris) -> bool {
    exists|with_piece: Board|
        {
            &&& #[trigger] placed(old.board, old.current_piece, with_piece)
            &&& new.board.grid@ == cleared(with_piece.grid@)
            &&& new.stats == scored_lines(old.stats, full_row_count(with_piece.grid@) as u32)
            &&& promoted(old, new)
        }
}

/// One step of gravity: the piece moves down a row if the board holds it
/// there, else it locks.
pub open spec fn fell(old: Rustris, new: Rustris) -> bool {
    let below = old.current_piece.shifted(Direction::Down);
    if old.board.can_hold(below) {
        new == Rustris { current_piece: below, ..old }
    } else {
        locked(old, new)
    }
}

/// `new` is `old` after `elapsed` microseconds. Only a game in play keeps
/// time; once the time reaches the drop delay, the delay is taken off (the
/// rest carries over) and gravity acts once.
pub open spec fn ticked(old: Rustris, elapsed: u64, new: Rustris) -> bool {
    if old.state != GameState::Playing {
        new == old
    } else {
        let t = old.time_since_moved.saturating_add(elapsed);
        let delay = drop_delay_for(old.stats.lines);
        if t < delay {
            new == Rustris { time_since_moved: t, ..old }
        } else {
            fell(Rustris { time_since_moved: (t - delay) as u64, ..old }, new)
        }
    }
}

/// The current piece becomes `candidate` if the board holds it; otherwise
/// nothing changes.
pub open spec fn moved_if_free(old: Rustris, candidate: Piece, new: Rustris) -> bool {
    if old.board.can_hold(candidate) {
        new == Rustris { current_piece: candidate, ..old }
    } else {
        new == old
    }
}

/// The piece falls to where it comes to rest, earns two points per row
/// fallen, and locks there.
pub open spec fn hard_dropped(old: Rustris, new: Rustris) -> bool {
    let resting = landing(old.board, old.current_piece);
    let rows = resting.y - old.current_piece.y;
    locked(
        Rustris {
            current_piece: resting,
            stats: GameStats { score: capped_add(old.stats.score, 2 * rows), ..old.stats },
            ..old
        },
        new,
    )
}

/// `new` is `old` after `command`.
pub open spec fn handled(old: Rustris, command: Command, new: Rustris) -> bool {
    match old.state {
        GameState::Playing => match command {
            Command::TogglePause => new == Rustris { state: GameState::Paused, ..old },
            Command::Rotate => moved_if_free(old, old.current_piece.turned(), new),
            Command::MoveLeft => moved_if_free(old, old.current_piece.shifted(Direction::Left), new),
            Command::MoveRight => moved_if_free(old, old.current_piece.shifted(Direction::Right), new),
            Command::SoftDrop => {
                let below = old.current_piece.shifted(Direction::Down);
                if old.board.can_hold(below) {
                    new == Rustris {
                        current_piece: below,
                        time_since_moved: 0,
                        stats: GameStats { score: old.stats.score.saturating_add(1), ..old.stats },
                        ..old
                    }
                } else {
                    new == old
                }
            },
            Command::HardDrop => hard_dropped(old, new),
        },
        GameState::Paused => if command == Command::TogglePause {
            new == Rustris { state: GameState::Playing, ..old }
        } else {
            new == old
        },
        GameState::GameOver => new == old,
    }
}

/// A game as it starts: empty board, zero statistics and timer, in play, with
/// two pieces drawn from a fresh randomizer.
pub open spec fn started(game: Rustris) -> bool {
    let seed = seq![Tetromino::Z, Tetromino::S, Tetromino::Z, Tetromino::S];
    &&& game.board.grid@ == Seq::new(HEIGHT_IN_BLOCKS as nat, |i: int| empty_row())
    &&& game.stats == (GameStats { score: 0, lines: 0 })
    &&& game.time_since_moved == 0
    &&& game.state == GameState::Playing
    &&& game.current_piece == Piece::spawned(game.current_piece.ptype)
    &&& game.next_piece == Piece::spawned(game.next_piece.ptype)
    &&& game.randomizer.history@ == recorded(
        recorded(seed, game.current_piece.ptype),
        game.next_piece.ptype,
    )
}

/// A queued piece with a cell off the board or on an occupied cell is not
/// promoted: the game is over and both pieces and the randomizer stay.
pub proof fn lemma_blocked_piece_not_promoted(old: Rustris, new: Rustris)
    requires
        promoted(old, new),
        exists|i: int|
            0 <= i < 4 && {
                let c = #[trigger] old.next_piece.cell(i);
                !in_bounds(c.0, c.1) || new.board.cell(c.0, c.1) != CellState::Empty
            },
    ensures
        new.state == GameState::GameOver,
        new.current_piece == old.current_piece,
        new.next_piece == old.next_piece,
        new.randomizer.history@ == old.randomizer.history@,
        new.time_since_moved == old.time_since_moved,
{
    let i = choose|i: int|
        0 <= i < 4 && {
            let c = #[trigger] old.next_piece.cell(i);
            !in_bounds(c.0, c.1) || new.board.cell(c.0, c.1) != CellState::Empty
        };
    assert(!new.board.can_hold(old.next_piece)) by {
        if new.board.can_hold(old.next_piece) {
            assert(in_bounds(old.next_piece.cell(i).0, old.next_piece.cell(i).1));
        }
    }
}

/// When the cells where the queued piece appears are already taken after a
/// lock, the game goes from play to over, and a later tick leaves the game,
/// its board included, as it was.
pub proof fn lemma_blocked_spawn_ends_game(
    before: Rustris,
    after: Rustris,
    elapsed: u64,
    later: Rustris,
)
    requires
        before.wf(),
        before.state == GameState::Playing,
        locked(before, after),
        exists|i: int|
            0 <= i < 4 && #[trigger] after.board.cell(
                before.next_piece.cell(i).0,
                before.next_piece.cell(i).1,
            ) != CellState::Empty,
        ticked(after, elapsed, later),
    ensures
        after.state == GameState::GameOver,
        later == after,
        later.board.grid@ == after.board.grid@,
{
    let i = choose|i: int|
        0 <= i < 4 && #[trigger] after.board.cell(
            before.next_piece.cell(i).0,
            before.next_piece.cell(i).1,
        ) != CellState::Empty;
    assert(!after.board.can_hold(before.next_piece)) by {
        if after.board.can_hold(before.next_piece) {
            assert(in_bounds(before.next_piece.cell(i).0, before.next_piece.cell(i).1));
        }
    }
}

impl Rustris {
    /// The board has its rows, the pieces their rotation states, the queued
    /// piece waits at the spawn position, and unless the game is over the
    /// board holds the current piece.
    pub open spec fn wf(&self) -> bool {
        &&& self.board.wf()
        &&& self.randomizer.wf()
        &&& self.current_piece.wf()
        &&& self.next_piece == Piece::spawned(self.next_piece.ptype)
        &&& self.state != GameState::GameOver ==> self.board.can_hold(self.current_piece)
    }

    pub fn new() -> (r: Rustris)
        ensures
            r.wf(),
            started(r),
    {
        let mut randomizer = Randomizer::new();
        let current_piece = randomizer.create_piece();
        let next_piece = randomizer.create_piece();
        let r = Rustris {
            board: Board::new(),
            randomizer: randomizer,
            current_piece: current_piece,
            next_piece: next_piece,
            stats: GameStats::new(),
            time_since_moved: 0,
            state: GameState::Playing,
        };
        proof {
            lemma_spawn_fits_empty_board(r.board, current_piece.ptype);
        }
        r
    }

    /// Starts over: new board, randomizer, statistics, pieces and timer, in play.
    pub fn reset(&mut self)
        ensures
            final(self).wf(),
            started(*final(self)),
    {
        self.board = Board::new();
        let mut randomizer = Randomizer::new();
        self.current_piece = randomizer.create_piece();
        self.next_piece = randomizer.create_piece();
        self.randomizer = randomizer;
        self.stats = GameStats::new();
        self.time_since_moved = 0;
        self.state = GameState::Playing;
        proof {
            lemma_spawn_fits_empty_board(self.board, self.current_piece.ptype);
        }
    }

    pub fn get_game_stats(&self) -> (r: &GameStats)
        ensures
            *r == self.stats,
    {
        &self.stats
    }

    /// Replaces the current piece; unless the game is over the board must hold it.
    pub fn set_current_piece(&mut self, piece: Piece)
        requires
            old(self).wf(),
            piece.wf(),
            old(self).state != GameState::GameOver ==> old(self).board.can_hold(piece),
        ensures
            final(self).wf(),
            *final(self) == (Rustris { current_piece: piece, ..*old(self) }),
    {
        self.current_piece = piece;
    }

    pub fn is_playing(&self) -> (r: bool)
        ensures
            r == (self.state == GameState::Playing),
    {
        self.state == GameState::Playing
    }

    pub fn is_paused(&self) -> (r: bool)
        ensures
            r == (self.state == GameState::Paused),
    {
        self.state == GameState::Paused
    }

    pub fn is_game_over(&self) -> (r: bool)
        ensures
            r == (self.state == GameState::GameOver),
    {
        self.state == GameState::GameOver
    }

    /// Switches the state; a game that is over stays over until `reset`.
    pub fn set_game_state(&mut self, state: GameState)
        requires
            old(self).wf(),
            old(self).state == GameState::GameOver ==> state == GameState::GameOver,
        ensures
            final(self).wf(),
            *final(self) == (Rustris { state: state, ..*old(self) }),
    {
        self.state = state;
    }

    /// The gravity delay at the current level, in microseconds: one step per
    /// level below the maximum, plus one.
    pub fn drop_delay(&self) -> (r: u64)
        ensures
            r == drop_delay_for(self.stats.lines),
    {
        let level = self.stats.get_level();
        ((MAX_GAME_LEVEL + 1) - level) as u64 * DELAY_STEP_MICROS
    }

    /// Whether every cell of `piece` lies on the board and is empty.
    pub fn is_valid_board_position(&self, piece: &Piece) -> (r: bool)
        requires
            self.board.wf(),
            piece.wf(),
            piece.coords_fit_i32(),
        ensures
            r == self.board.can_hold(*piece),
    {
        let cells = piece.occupied_cells();
        let mut i: usize = 0;
        while i < 4
            invariant
                i <= 4,
                self.board.wf(),
                forall|k: int|
                    0 <= k < 4 ==> (#[trigger] cells@[k]).x == piece.cell(k).0 && cells@[k].y
                        == piece.cell(k).1,
                forall|k: int|
                    0 <= k < i ==> in_bounds(#[trigger] piece.cell(k).0, piece.cell(k).1)
                        && self.board.cell(piece.cell(k).0, piece.cell(k).1) == CellState::Empty,
            decreases 4 - i,
        {
            let block = cells[i];
            if !(block.x >= 0 && block.x < WIDTH_IN_BLOCKS as i32 && block.y >= 0 && block.y
                < HEIGHT_IN_BLOCKS as i32 && !self.board.is_space_occupied(block)) {
                proof {
                    assert(cells@[i as int].x == piece.cell(i as int).0);
                }
                return false;
            }
            i = i + 1;
        }
        true
    }

    /// Writes the current piece into the board, removes and scores the full
    /// rows, and promotes the queued piece.
    fn lock_current_piece(&mut self)
        requires
            old(self).wf(),
            old(self).state != GameState::GameOver,
        ensures
            final(self).wf(),
            locked(*old(self), *final(self)),
    {
        proof {
            lemma_held_piece_bounds(self.board, self.current_piece);
        }
        self.board.set_piece(&self.current_piece);
        let ghost with_piece = self.board;
        self.remove_completed_lines();
        self.get_new_piece();
        proof {
            assert(placed(old(self).board, old(self).current_piece, with_piece));
        }
    }

    fn remove_completed_lines(&mut self)
        requires
            old(self).board.wf(),
        ensures
            final(self).board.wf(),
            final(self).board.grid@ == cleared(old(self).board.grid@),
            final(self).stats == scored_lines(old(self).stats, full_row_count(old(self).board.grid@) as u32),
            final(self).randomizer == old(self).randomizer,
            final(self).current_piece == old(self).current_piece,
            final(self).next_piece == old(self).next_piece,
            final(self).time_since_moved == old(self).time_since_moved,
            final(self).state == old(self).state,
    {
        let number_removed = self.board.remove_completed_rows();
        self.stats.score_completed_lines(number_removed);
    }

    /// Where the current piece would come to rest if it fell straight down.
    pub fn calculate_ghost_piece(&self) -> (r: Piece)
        requires
            self.wf(),
            self.state != GameState::GameOver,
        ensures
            r == landing(self.board, self.current_piece),
            r.wf(),
            self.board.can_hold(r),
    {
        let mut lowest = self.current_piece;
        loop
            invariant
                self.wf(),
                self.state != GameState::GameOver,
                lowest.wf(),
                self.board.can_hold(lowest),
                landing(self.board, lowest) == landing(self.board, self.current_piece),
            ensures
                lowest.wf(),
                self.board.can_hold(lowest),
                lowest == landing(self.board, self.current_piece),
            decreases HEIGHT_IN_BLOCKS - lowest.y,
        {
            proof {
                lemma_held_piece_bounds(self.board, lowest);
            }
            let below = lowest.moved(Direction::Down);
            if self.is_valid_board_position(&below) {
                lowest = below;
            } else {
                break;
            }
        }
        lowest
    }

    /// Promotes the queued piece if the board holds it, queueing a fresh one;
    /// otherwise the game is over.
    fn get_new_piece(&mut self)
        requires
            old(self).board.wf(),
            old(self).randomizer.wf(),
            old(self).next_piece == Piece::spawned(old(self).next_piece.ptype),
        ensures
            final(self).board == old(self).board,
            final(self).stats == old(self).stats,
            final(self).randomizer.wf(),
            final(self).next_piece == Piece::spawned(final(self).next_piece.ptype),
            promoted(*old(self), *final(self)),
    {
        let next = self.next_piece;
        if self.is_valid_board_position(&next) {
            self.current_piece = next;
            self.next_piece = self.randomizer.create_piece();
        } else {
            self.state = GameState::GameOver;
        }
    }

    /// One step of gravity.
    fn update(&mut self)
        requires
            old(self).wf(),
            old(self).state == GameState::Playing,
        ensures
            final(self).wf(),
            fell(*old(self), *final(self)),
    {
        proof {
            lemma_held_piece_bounds(self.board, self.current_piece);
        }
        let moved = self.current_piece.moved(Direction::Down);
        if !self.is_valid_board_position(&moved) {
            self.lock_current_piece();
        } else {
            self.current_piece = moved;
        }
    }

    fn handle_playing_input(&mut self, command: Command)
        requires
            old(self).wf(),
            old(self).state == GameState::Playing,
        ensures
            final(self).wf(),
            handled(*old(self), command, *final(self)),
    {
        proof {
            lemma_held_piece_bounds(self.board, self.current_piece);
            lemma_column_range(self.current_piece.in_state((self.current_piece.rotation + 1) % 4));
        }
        let mut moved: Option<Piece> = None;
        match command {
            Command::Rotate => {
                moved = Some(self.current_piece.rotated());
            },
            Command::SoftDrop => {
                let move_down = self.current_piece.moved(Direction::Down);
                if self.is_valid_board_position(&move_down) {
                    self.time_since_moved = 0;
                    self.stats.score_soft_drop();
                    self.current_piece = move_down;
                }
            },
            Command::MoveLeft => {
                moved = Some(self.current_piece.moved(Direction::Left));
            },
            Command::MoveRight => {
                moved = Some(self.current_piece.moved(Direction::Right));
            },
            Command::HardDrop => {
                let resting = self.calculate_ghost_piece();
                proof {
                    lemma_landing_below(self.board, self.current_piece);
                    lemma_held_piece_bounds(self.board, resting);
                }
                let rows_dropped = (resting.y - self.current_piece.y) as u32;
                self.stats.score_hard_drop(rows_dropped);
                self.current_piece = resting;
                self.lock_current_piece();
            },
            Command::TogglePause => {
                self.state = GameState::Paused;
            },
        }
        if let Some(piece) = moved {
            if self.is_valid_board_position(&piece) {
                self.current_piece = piece;
            }
        }
    }

    fn handle_paused_input(&mut self, command: Command)
        requires
            old(self).wf(),
            old(self).state == GameState::Paused,
        ensures
            final(self).wf(),
            handled(*old(self), command, *final(self)),
    {
        match command {
            Command::TogglePause => {
                self.state = GameState::Playing;
            },
            _ => {},
        }
    }

    /// Applies one input command; only a game in play or paused reacts.
    pub fn on_input(&mut self, command: Command)
        requires
            old(self).wf(),
        ensures
            final(self).wf(),
            handled(*old(self), command, *final(self)),
    {
        match self.state {
            GameState::Playing => self.handle_playing_input(command),
            GameState::Paused => self.handle_paused_input(command),
            _ => {},
        }
    }

    /// Advances the gravity timer by `elapsed_micros` microseconds.
    pub fn on_update(&mut self, elapsed_micros: u64)
        requires
            old(self).wf(),
        ensures
            final(self).wf(),
            ticked(*old(self), elapsed_micros, *final(self)),
    {
        match self.state {
            GameState::Playing => {
                self.time_since_moved = self.time_since_moved.saturating_add(elapsed_micros);
                let delay = self.drop_delay();
                if self.time_since_moved >= delay {
                    self.time_since_moved = self.time_since_moved - delay;
                    self.update();
                }
            },
            _ => {},
        }
    }
}

} // verus!
