//! The economy: periodic rewards and the history of an account.

use crate::clock::ResetTime;
use vstd::prelude::*;

pub mod reward_kind;
pub mod rewards;
pub mod transactions;

verus! {

/// Rows that the history command asks the ledger for.
pub const TRANSACTION_FETCH_LIMIT: i64 = 50;

/// Rows on one page of the history.
pub const TRANSACTION_PAGE_SIZE: usize = 5;

/// Seconds without a click after which the history stops turning pages.
pub const TRANSACTION_TIMEOUT_SECS: u64 = 180;

/// Seconds without a click after which the reward buttons are taken away.
pub const REWARDS_TIMEOUT_SECS: u64 = 90;

/// Of how many claims one also brings diamonds.
pub const DIAMOND_ODDS: u32 = 5;

/// The fewest diamonds that a claim brings, if it brings any.
pub const MIN_DIAMONDS: i64 = 1;

/// The most diamonds that a claim brings.
pub const MAX_DIAMONDS: i64 = 5;

/// When the rewards reset: nine in the evening, Brasília time.
pub fn reset_config() -> (config: ResetTime)
    ensures
        config == (ResetTime { hour: 21, minute: 0, timezone_offset_secs: -10_800i32 }),
        config.valid(),
{
    ResetTime::new(21, 0, -3 * 60 * 60)
}

} // verus!
