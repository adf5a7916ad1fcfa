use vstd::prelude::*;

verus! {

/// Number of columns of the playfield.
pub const WIDTH_IN_BLOCKS: usize = 10;

/// Number of rows of the playfield; row 0 is the top.
pub const HEIGHT_IN_BLOCKS: usize = 20;

/// The level never rises above this value.
pub const MAX_GAME_LEVEL: u32 = 10;

} // verus!
