//! The animal race: players pick an animal in a lobby, then the animals run.

use vstd::prelude::*;

pub mod channels;
pub mod lobby;
pub mod progress_message;
pub mod state;

verus! {

/// The fewest participants with which a race can start.
pub const MIN_PARTICIPANTS: usize = 2;

/// The length of the track, in squares.
pub const TRACK_LENGTH: usize = 40;

/// Seconds without a click after which the lobby is closed.
pub const LOBBY_TIMEOUT_SECS: u64 = 120;

/// Milliseconds between two rounds.
pub const ROUND_DELAY_MILLIS: u64 = 1800;

/// The fewest squares that an animal is drawn to advance in a round, before
/// its speed and luck are counted in.
pub const MIN_STEP_PER_ROUND: usize = 1;

/// The most squares that an animal is drawn to advance in a round, before its
/// speed and luck are counted in.
pub const MAX_STEP_PER_ROUND: usize = 3;

/// The most animals that a lobby offers.
pub const MAX_ANIMALS_PER_RACE: usize = 8;

} // verus!
