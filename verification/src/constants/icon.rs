//! The ids of the emoji that mark the lines of a message.

use vstd::prelude::*;

verus! {

/// Something went well.
pub const CHECK: u64 = 1434940349326954647;

/// Something went wrong or was turned down.
pub const ERROR: u64 = 1434940351642079242;

/// A notice.
pub const BELL: u64 = 1434941392651550824;

/// Something technical.
pub const GEAR: u64 = 1434940839779631204;

/// Something came in.
pub const PLUS: u64 = 1434953088409534544;

/// Something went out or is missing.
pub const MINUS: u64 = 1434953090326462637;

/// A gift or a payout.
pub const GIFT: u64 = 1436430668425859253;

/// Coins.
pub const DOLLAR: u64 = 1436430666366586912;

/// Diamonds.
pub const DIAMOND: u64 = 1436430663476842659;

/// A point in time.
pub const ALARM: u64 = 1436442458849284127;

/// A span of time.
pub const TIMER: u64 = 1436442461022195753;

/// A connection.
pub const RSS: u64 = 1436674873433915412;

/// A number or a score.
pub const HASTAG: u64 = 1434940827263832096;

/// The first page.
pub const HOUSE: u64 = 1437055578047516722;

/// The next page.
pub const CARET_RIGHT: u64 = 1437055575790981162;

/// The page before.
pub const CARET_LEFT: u64 = 1437055573689372672;

/// The last page.
pub const CARET_DOUBLE_RIGHT: u64 = 1437055570417811507;

/// The first page, from afar.
pub const CARET_DOUBLE_LEFT: u64 = 1437055566500331593;

} // verus!
