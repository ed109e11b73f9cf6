//! One cell of the Memory board.

use vstd::prelude::*;

verus! {

/// A cell: its face is fixed when the board is laid out, and once it is
/// matched it stays matched.
#[derive(Clone, Copy, Debug)]
pub struct Tile {
    pub emoji: &'static str,
    pub matched: bool,
}

impl Tile {
    /// A cell that has not been matched.
    pub fn new(emoji: &'static str) -> (tile: Tile)
        ensures
            tile == (Tile { emoji, matched: false }),
    {
        Tile { emoji, matched: false }
    }
}

} // verus!
