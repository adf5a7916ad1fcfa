use vstd::prelude::*;

verus! {

/// Display colour of a tetromino and of the cells it leaves on the board.
/// The game rules never look at it; it is a hint for whoever draws the board.
#[derive(Clone, Copy, Debug, PartialEq, Eq, Structural)]
pub enum Color {
    Cyan,
    Blue,
    Orange,
    Yellow,
    Lime,
    Purple,
    Red,
}

} // verus!
