//! JoKenPo: rock, paper, scissors against the house or another player.

use vstd::prelude::*;

pub mod game_move;
pub mod solo;
pub mod versus;

verus! {

/// Seconds that the player has to choose against the house.
pub const SOLO_TIMEOUT_SECS: u64 = 30;

/// Seconds without a choice after which a match of two is cancelled.
pub const VERSUS_ROUND_TIMEOUT_SECS: u64 = 60;

/// Seconds that an invited opponent has to accept.
pub const CONFIRMATION_TIMEOUT_SECS: u64 = 45;

} // verus!
