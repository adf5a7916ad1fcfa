use rustris::board::{Board, CellState};
use rustris::colors::Color;
use rustris::settings::{HEIGHT_IN_BLOCKS, WIDTH_IN_BLOCKS};
use rustris::tetromino::{Block, Piece, Tetromino};

const RED: Color = Color::Red;
const CYAN: Color = Color::Cyan;

#[test]
fn test_set_piece() {
    let mut board = Board::new();
    let piece = Piece::create(Tetromino::I);
    board.set_piece(&piece);
    assert_eq!(board.get_cell_state(2, 1), CellState::Empty);
    assert_eq!(board.get_cell_state(3, 1), CellState::Block(CYAN));
    assert_eq!(board.get_cell_state(4, 1), CellState::Block(CYAN));
    assert_eq!(board.get_cell_state(5, 1), CellState::Block(CYAN));
    assert_eq!(board.get_cell_state(6, 1), CellState::Block(CYAN));
    assert_eq!(board.get_cell_state(7, 1), CellState::Empty);
}

#[test]
fn test_is_space_occupied() {
    let mut board = Board::new();
    let block = Block { x: 2, y: 2 };
    board.set_cell_state(block, CellState::Block(RED));
    assert!(board.is_space_occupied(block));
    assert!(!board.is_space_occupied(Block { x: 0, y: 0 }));
}

#[test]
fn test_set_cell_state() {
    let mut board = Board::new();
    assert_eq!(board.get_cell_state(0, 0), CellState::Empty);
    board.set_cell_state(Block { x: 2, y: 2 }, CellState::Block(RED));
    assert_eq!(board.get_cell_state(2, 2), CellState::Block(RED));
}

#[test]
fn test_row_is_empty() {
    let mut empty_row = [CellState::Empty; WIDTH_IN_BLOCKS as usize];
    assert!(Board::row_is_empty(&empty_row));
    empty_row[1] = CellState::Block(RED);
    assert!(!Board::row_is_empty(&empty_row));
}

#[test]
fn test_row_is_complete() {
    let mut complete_row = [CellState::Block(RED); WIDTH_IN_BLOCKS as usize];
    assert!(Board::row_is_complete(&complete_row));
    complete_row[1] = CellState::Empty;
    assert!(!Board::row_is_complete(&complete_row));
}

#[test]
fn test_create_empty_row() {
    let row = Board::create_empty_row();
    assert!(Board::row_is_empty(&row));
}

#[test]
fn test_find_completed_row_indexes_simple() {
    let i = (HEIGHT_IN_BLOCKS - 1) as usize;
    let mut board = Board::new();
    let complete_row = [CellState::Block(RED); WIDTH_IN_BLOCKS as usize];
    board.grid[i] = complete_row;
    let result = board.find_completed_row_indexes();
    let expected = vec![i];
    assert_eq!(result, expected);
}

#[test]
fn test_find_completed_row_indexes_multiple() {
    let i = (HEIGHT_IN_BLOCKS - 1) as usize;
    let mut board = Board::new();
    let complete_row = [CellState::Block(RED); WIDTH_IN_BLOCKS as usize];
    board.grid[i] = complete_row;
    board.grid[i - 1] = complete_row;
    let result = board.find_completed_row_indexes();
    let expected = vec![i, i - 1];
    assert_eq!(result, expected);
}

#[test]
fn test_find_completed_row_indexes_skip_row() {
    let i = (HEIGHT_IN_BLOCKS - 1) as usize;
    let mut board = Board::new();
    let complete_row = [CellState::Block(RED); WIDTH_IN_BLOCKS as usize];
    let mut incomplete_row = complete_row;
    incomplete_row[4] = CellState::Empty;
    board.grid[i] = complete_row;
    board.grid[i - 1] = incomplete_row;
    board.grid[i - 2] = complete_row;
    let result = board.find_completed_row_indexes();
    let expected = vec![i, i - 2];
    assert_eq!(result, expected);
}

#[test]
fn test_remove_completed_rows_simple() {
    let i = (HEIGHT_IN_BLOCKS - 1) as usize;
    let mut board = Board::new();
    let complete_row = [CellState::Block(RED); WIDTH_IN_BLOCKS as usize];
    board.grid[i] = complete_row;
    let n = board.remove_completed_rows();

    assert_eq!(n, 1);
    assert_eq!(board.grid, Board::create_empty_grid());
}

#[test]
fn test_remove_completed_rows_moves_down() {
    let i = (HEIGHT_IN_BLOCKS - 1) as usize;
    let mut board = Board::new();
    let complete_row = [CellState::Block(RED); WIDTH_IN_BLOCKS as usize];
    board.grid[i] = complete_row;
    board.grid[i - 1][0] = CellState::Block(RED);
    let n = board.remove_completed_rows();

    let mut expected_grid = Board::create_empty_grid();
    expected_grid[i][0] = CellState::Block(RED);

    assert_eq!(n, 1);
    assert_eq!(board.grid, expected_grid);
}

#[test]
fn test_remove_completed_rows_moves_two_down() {
    let i = (HEIGHT_IN_BLOCKS - 1) as usize;
    let mut board = Board::new();
    let complete_row = [CellState::Block(RED); WIDTH_IN_BLOCKS as usize];
    board.grid[i] = complete_row;
    board.grid[i - 1][0] = CellState::Block(RED);
    board.grid[i - 2] = complete_row;
    board.grid[i - 3][1] = CellState::Block(RED);
    let n = board.remove_completed_rows();

    let mut expected_grid = Board::create_empty_grid();
    expected_grid[i][0] = CellState::Block(RED);
    expected_grid[i - 1][1] = CellState::Block(RED);

    assert_eq!(n, 2);
    assert_eq!(board.grid, expected_grid);
}

#[test]
fn clearing_an_empty_board_changes_nothing() {
    let mut board = Board::new();
    assert_eq!(board.remove_completed_rows(), 0);
    assert_eq!(board.grid, Board::create_empty_grid());
    assert_eq!(board.grid.len(), HEIGHT_IN_BLOCKS);
}

#[test]
fn clearing_without_full_rows_changes_nothing() {
    let mut board = Board::new();
    let mut row = [CellState::Block(RED); WIDTH_IN_BLOCKS];
    row[9] = CellState::Empty;
    board.grid[19] = row;
    board.grid[5][3] = CellState::Block(CYAN);
    let before = board.grid.clone();
    assert_eq!(board.remove_completed_rows(), 0);
    assert_eq!(board.grid, before);
}

#[test]
fn bottom_row_cleared_shifts_everything_down_one() {
    let mut board = Board::new();
    board.grid[19] = [CellState::Block(RED); WIDTH_IN_BLOCKS];
    board.grid[18][4] = CellState::Block(CYAN);
    board.grid[3][9] = CellState::Block(RED);
    board.grid[0][0] = CellState::Block(CYAN);
    assert_eq!(board.remove_completed_rows(), 1);
    let mut expected = Board::create_empty_grid();
    expected[19][4] = CellState::Block(CYAN);
    expected[4][9] = CellState::Block(RED);
    expected[1][0] = CellState::Block(CYAN);
    assert_eq!(board.grid, expected);
}

#[test]
fn two_separate_full_rows_are_removed_in_one_call() {
    let mut board = Board::new();
    board.grid[19] = [CellState::Block(RED); WIDTH_IN_BLOCKS];
    board.grid[18][2] = CellState::Block(CYAN);
    board.grid[17][5] = CellState::Block(CYAN);
    board.grid[16] = [CellState::Block(CYAN); WIDTH_IN_BLOCKS];
    board.grid[15][7] = CellState::Block(RED);
    board.grid[15][8] = CellState::Block(RED);
    assert_eq!(board.remove_completed_rows(), 2);
    let mut expected = Board::create_empty_grid();
    expected[19][2] = CellState::Block(CYAN);
    expected[18][5] = CellState::Block(CYAN);
    expected[17][7] = CellState::Block(RED);
    expected[17][8] = CellState::Block(RED);
    assert_eq!(board.grid, expected);
}

#[test]
fn full_rows_above_an_empty_row_are_removed_too() {
    let mut board = Board::new();
    board.grid[10] = [CellState::Block(RED); WIDTH_IN_BLOCKS];
    assert_eq!(board.find_completed_row_indexes(), vec![10]);
    assert_eq!(board.remove_completed_rows(), 1);
    assert_eq!(board.grid, Board::create_empty_grid());
}

#[test]
fn a_completely_full_board_clears_entirely() {
    let mut board = Board::new();
    for y in 0..HEIGHT_IN_BLOCKS {
        board.grid[y] = [CellState::Block(RED); WIDTH_IN_BLOCKS];
    }
    assert_eq!(board.remove_completed_rows(), HEIGHT_IN_BLOCKS as u32);
    assert_eq!(board.grid, Board::create_empty_grid());
}

#[test]
fn placing_overwrites_occupied_cells() {
    let mut board = Board::new();
    board.set_cell_state(Block::new(4, 1), CellState::Block(RED));
    board.set_piece(&Piece::create(Tetromino::I));
    assert_eq!(board.get_cell_state(4, 1), CellState::Block(CYAN));
    assert!(board.is_space_occupied(Block::new(6, 1)));
    assert!(!board.is_space_occupied(Block::new(6, 2)));
}
