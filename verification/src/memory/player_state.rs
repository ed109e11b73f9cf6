//! A player of Memory and the pairs found so far.

use vstd::prelude::*;

verus! {

/// A player: who it is, and how many pairs it has found.
#[derive(Clone, Copy, PartialEq, Eq, Structural, Debug)]
pub struct PlayerState {
    pub user_id: u64,
    pub score: u32,
}

impl PlayerState {
    /// A player who has found nothing yet.
    pub fn new(user_id: u64) -> (player: PlayerState)
        ensures
            player == (PlayerState { user_id, score: 0 }),
    {
        PlayerState { user_id, score: 0 }
    }
}

} // verus!
