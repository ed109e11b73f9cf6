//! Mines: a wager on a hidden board of diamonds and bombs.

use vstd::prelude::*;

pub mod controls;
pub mod game_state;
pub mod session;
pub mod tile;
pub mod wager;

verus! {

/// Tiles in one row of the board.
pub const BOARD_COLUMNS: usize = 4;

/// Rows of the board.
pub const BOARD_ROWS: usize = 4;

/// Bombs hidden on the board.
pub const TOTAL_BOMBS: usize = 5;

/// Diamonds that must be found before the wager can be cashed out.
pub const CASHOUT_STEP: usize = 3;

/// Diamonds at which the round cashes out by itself.
pub const FORCE_CASHOUT_AFTER: usize = 9;

/// What each diamond adds to the payout multiplier, in hundredths.
pub const MULTIPLIER_STEP_HUNDREDTHS: u64 = 18;

/// The highest payout multiplier, in hundredths.
pub const MAX_MULTIPLIER_HUNDREDTHS: u64 = 420;

/// The smallest wager that opens a round.
pub const MIN_WAGER: i64 = 50;

/// The largest wager that opens a round.
pub const MAX_WAGER: i64 = 50_000;

/// Seconds without a click after which a round is abandoned.
pub const GAME_TIMEOUT_SECS: u64 = 180;

} // verus!
