use vstd::prelude::*;

pub mod board;
pub mod colors;
pub mod game;
pub mod randomizer;
pub mod settings;
pub mod stats;
pub mod tetromino;

verus! {

} // verus!
