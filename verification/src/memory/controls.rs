//! What the message of a game shows: the buttons of the board.

use super::game_state::{MemoryGameState, MemoryView};
use vstd::prelude::*;

verus! {

/// How a button of the board is shown.
#[derive(Clone, Copy, PartialEq, Eq, Structural, Debug)]
pub enum TileLook {
    /// Face down: the tile can be clicked.
    Hidden,
    /// Face up, as the first tile of an attempt.
    Pending,
    /// Face up, as one of a pair that did not match.
    Mismatched,
    /// Face up for good.
    Matched,
}

/// How the tile at `index` is shown: a matched tile as matched, one of the
/// pair that just failed as mismatched, the open first tile as pending, and
/// any other face down.
pub open spec fn tile_look_spec(state: MemoryView, index: int, mismatch: Option<[usize; 2]>) -> TileLook {
    if state.tiles[index].matched {
        TileLook::Matched
    } else if mismatch matches Some(pair) && (pair[0] == index || pair[1] == index) {
        TileLook::Mismatched
    } else if state.pending == Some(index as usize) {
        TileLook::Pending
    } else {
        TileLook::Hidden
    }
}

impl TileLook {
    /// Whether the button can be clicked.
    pub open spec fn clickable(self) -> bool {
        self == TileLook::Hidden
    }

    /// Whether the button can be clicked.
    pub fn is_clickable(&self) -> (clickable: bool)
        ensures
            clickable == self.clickable(),
    {
        match self {
            TileLook::Hidden => true,
            _ => false,
        }
    }
}

/// How the tile at `index` is shown.
pub fn tile_look(state: &MemoryGameState, index: usize, mismatch: Option<[usize; 2]>) -> (look:
    TileLook)
    requires
        index < state@.tiles.len(),
    ensures
        look == tile_look_spec(state@, index as int, mismatch),
{
    let in_mismatch: bool = match mismatch {
        Some(pair) => pair[0] == index || pair[1] == index,
        None => false,
    };
    let is_pending: bool = match state.pending {
        Some(first) => first == index,
        None => false,
    };
    if state.tiles[index].matched {
        TileLook::Matched
    } else if in_mismatch {
        TileLook::Mismatched
    } else if is_pending {
        TileLook::Pending
    } else {
        TileLook::Hidden
    }
}

/// How every tile of the board is shown. Once the game is over no button can
/// be clicked.
pub fn board_looks(state: &MemoryGameState, mismatch: Option<[usize; 2]>) -> (looks: Vec<TileLook>)
    ensures
        looks@.len() == state@.tiles.len(),
        forall|i: int|
            0 <= i < looks@.len() ==> #[trigger] looks@[i] == tile_look_spec(state@, i, mismatch),
        state@.completed() ==> forall|i: int|
            0 <= i < looks@.len() ==> !(#[trigger] looks@[i]).clickable(),
{
    let mut looks: Vec<TileLook> = Vec::new();
    let mut i: usize = 0;
    while i < state.tiles.len()
        invariant
            i <= state.tiles.len(),
            looks@.len() == i,
            forall|j: int| 0 <= j < i ==> #[trigger] looks@[j] == tile_look_spec(state@, j, mismatch),
        decreases state.tiles.len() - i,
    {
        looks.push(tile_look(state, i, mismatch));
        i += 1;
    }
    proof {
        if state@.completed() {
            assert forall|i: int| 0 <= i < looks@.len() implies !(#[trigger] looks@[i]).clickable() by {
                assert(state@.tiles[i].matched);
            }
        }
    }
    looks
}

} // verus!
