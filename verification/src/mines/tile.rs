//! One cell of the Mines board.

use vstd::prelude::*;

verus! {

/// A cell: what it hides is fixed when the board is laid out, and once it is
/// revealed it stays revealed.
#[derive(Clone, Copy, PartialEq, Eq, Structural, Debug)]
pub struct Tile {
    pub is_bomb: bool,
    pub revealed: bool,
}

impl Tile {
    /// A hidden cell.
    pub fn new(is_bomb: bool) -> (tile: Tile)
        ensures
            tile == (Tile { is_bomb, revealed: false }),
    {
        Tile { is_bomb, revealed: false }
    }
}

} // verus!
