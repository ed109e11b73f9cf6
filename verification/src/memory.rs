//! Memory: pairs of faces hidden on a board, for one player or two.

use vstd::prelude::*;

pub mod controls;
pub mod game_mode;
pub mod game_state;
pub mod player_state;
pub mod session;
pub mod tile;

verus! {

/// Tiles in one row of the board.
pub const BOARD_COLUMNS: usize = 4;

/// Pairs hidden on the board.
pub const BOARD_PAIRS: usize = 8;

/// Faces that a board is drawn from.
pub const POOL_SIZE: usize = 40;

/// Seconds for which a pair that does not match stays open, with the board
/// locked.
pub const MISMATCH_DELAY_SECS: u64 = 2;

/// Seconds without a click after which a game is abandoned.
pub const GAME_TIMEOUT_SECS: u64 = 300;

/// Seconds that an invited opponent has to accept.
pub const CONFIRMATION_TIMEOUT_SECS: u64 = 45;

} // verus!
