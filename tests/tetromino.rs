use rustris::colors::Color;
use rustris::tetromino::{Block, BlockIterator, Direction, Piece, Tetromino};

const ALL: [Tetromino; 7] = [
    Tetromino::I,
    Tetromino::J,
    Tetromino::L,
    Tetromino::O,
    Tetromino::S,
    Tetromino::T,
    Tetromino::Z,
];

#[test]
fn test_piece_rotated() {
    let original = Piece::create(Tetromino::I);
    assert_eq!(original.rotation, 0);
    let mut rotated = original.rotated();
    assert_eq!(rotated.rotation, 1);
    assert_eq!(original.x, rotated.x);
    rotated = rotated.rotated();
    assert_eq!(rotated.rotation, 2);
    assert_eq!(original.x, rotated.x);
    rotated = rotated.rotated();
    assert_eq!(rotated.rotation, 3);
    assert_eq!(original.x, rotated.x);
    rotated = rotated.rotated();
    assert_eq!(rotated.rotation, 0);
    assert_eq!(original.x, rotated.x);
}

#[test]
fn test_piece_rotated_kicked() {
    let mut p = Piece::create(Tetromino::I);
    p.x = 9;
    let rotated = p.rotated();
    assert_eq!(rotated.x, 7)
}

#[test]
fn test_piece_moved_left() {
    let p = Piece::create(Tetromino::Z);
    let result = p.moved(Direction::Left);
    assert_eq!(result.x, p.x - 1);
}

#[test]
fn test_piece_moved_right() {
    let p = Piece::create(Tetromino::Z);
    let result = p.moved(Direction::Right);
    assert_eq!(result.x, p.x + 1);
}

#[test]
fn test_wall_kick_in_bounds() {
    let p = Piece::create(Tetromino::I);
    let kicked_translation = p.wall_kick_translation();
    assert_eq!(kicked_translation, 0);
}

#[test]
fn test_wall_kick_out_of_bounds_right() {
    let mut p = Piece::create(Tetromino::I);
    p.x = 9;
    let kicked_translation = p.wall_kick_translation();
    assert_eq!(kicked_translation, 3);
}

#[test]
fn test_wall_kick_out_of_bounds_left() {
    let mut p = Piece::create(Tetromino::I);
    p.x = -2;
    let kicked_translation = p.wall_kick_translation();
    assert_eq!(kicked_translation, -2);
}

#[test]
fn test_block_iterator() {
    let mut block_iter = BlockIterator::new(2, 2, &Tetromino::I.get_configuration(0));
    assert_eq!(block_iter.next(), Some(Block { x: 2, y: 3 }));
    assert_eq!(block_iter.next(), Some(Block { x: 3, y: 3 }));
    assert_eq!(block_iter.next(), Some(Block { x: 4, y: 3 }));
    assert_eq!(block_iter.next(), Some(Block { x: 5, y: 3 }));
    assert_eq!(block_iter.next(), None);
}

#[test]
fn four_rotations_restore_every_shape() {
    for shape in ALL {
        let p = Piece::create(shape);
        let back = p.rotated().rotated().rotated().rotated();
        assert_eq!(back, p);
    }
}

#[test]
fn four_rotations_restore_rotation_even_when_kicked() {
    let mut p = Piece::create(Tetromino::I);
    p.x = 9;
    let back = p.rotated().rotated().rotated().rotated();
    assert_eq!(back.rotation, 0);
    assert_eq!(back.y, p.y);
    assert_ne!(back.x, p.x);
}

#[test]
fn rotation_past_left_wall_is_kicked_right_by_the_overflow() {
    // vertical I in column x + 1; its next state spans columns x .. x + 3
    let mut p = Piece::create(Tetromino::I).rotated().rotated().rotated();
    assert_eq!(p.rotation, 3);
    p.x = -1;
    let rotated = p.rotated();
    assert_eq!(rotated.rotation, 0);
    assert_eq!(rotated.x, 0);
    let cells = rotated.occupied_cells();
    assert_eq!(cells[0], Block::new(0, 1));
    assert_eq!(cells[3], Block::new(3, 1));
}

#[test]
fn rotation_past_right_wall_is_kicked_left_by_the_overflow() {
    let mut p = Piece::create(Tetromino::I).rotated();
    p.x = 7;
    // next state spans columns 7 .. 10, one past the last column
    let rotated = p.rotated();
    assert_eq!(rotated.x, 6);
    assert_eq!(rotated.occupied_cells()[3], Block::new(9, 2));
}

#[test]
fn moving_down_keeps_the_column() {
    let p = Piece::create(Tetromino::T);
    let q = p.moved(Direction::Down);
    assert_eq!(q.y, p.y + 1);
    assert_eq!(q.x, p.x);
    assert_eq!(q.rotation, p.rotation);
}

#[test]
fn spawned_piece_is_centred_on_top() {
    let p = Piece::create(Tetromino::I);
    assert_eq!((p.x, p.y, p.rotation), (3, 0, 0));
    let cells = p.occupied_cells();
    assert_eq!(
        cells,
        [Block::new(3, 1), Block::new(4, 1), Block::new(5, 1), Block::new(6, 1)]
    );
    let mut it = p.blocks_iter();
    for expected in cells {
        assert_eq!(it.next(), Some(expected));
    }
    assert_eq!(it.next(), None);
}

#[test]
fn every_shape_has_its_colour() {
    let colours = [
        Color::Cyan,
        Color::Blue,
        Color::Orange,
        Color::Yellow,
        Color::Lime,
        Color::Purple,
        Color::Red,
    ];
    for (shape, colour) in ALL.iter().zip(colours.iter()) {
        assert_eq!(shape.get_color(), *colour);
        assert_eq!(Piece::create(*shape).get_color(), *colour);
    }
}

#[test]
fn catalog_offsets_lie_in_a_four_by_four_box() {
    for shape in ALL {
        for rotation in 0..4 {
            for b in shape.get_configuration(rotation) {
                assert!((0..4).contains(&b.x) && (0..4).contains(&b.y));
            }
        }
    }
    assert_eq!(
        Tetromino::T.get_configuration(2),
        [Block::new(1, 2), Block::new(2, 1), Block::new(1, 1), Block::new(0, 1)]
    );
}
