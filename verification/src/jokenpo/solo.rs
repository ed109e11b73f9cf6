//! A round against the house.

use super::game_move::{judge, judge_spec, move_for, GameMove, RoundResult};
use rand::rngs::StdRng;
use vstd::prelude::*;

verus! {

/// What a click on the move picker came to.
#[derive(Clone, Copy, PartialEq, Eq, Structural, Debug)]
pub enum SoloOutcome {
    /// The button names no move.
    UnknownMove,
    /// The round was played; `result` is seen from the player's side.
    Played { user_move: GameMove, bot_move: GameMove, result: RoundResult },
}

/// What a click came to, given the move the house drew.
pub open spec fn settle_spec(custom_id: Seq<char>, bot_move: GameMove) -> SoloOutcome {
    match move_for(custom_id) {
        None => SoloOutcome::UnknownMove,
        Some(user_move) => SoloOutcome::Played {
            user_move,
            bot_move,
            result: judge_spec(user_move, bot_move),
        },
    }
}

/// Settles the player's click against the move that the house drew.
pub fn settle(custom_id: &str, bot_move: GameMove) -> (outcome: SoloOutcome)
    ensures
        outcome == settle_spec(custom_id@, bot_move),
{
    match GameMove::from_custom_id(custom_id) {
        None => SoloOutcome::UnknownMove,
        Some(user_move) => SoloOutcome::Played {
            user_move,
            bot_move,
            result: judge(user_move, bot_move),
        },
    }
}

/// Plays the player's click against a move drawn at random. The house draws
/// only once the player's move is known.
pub fn play(custom_id: &str, rng: &mut StdRng) -> (outcome: SoloOutcome)
    ensures
        move_for(custom_id@) is None ==> outcome == SoloOutcome::UnknownMove,
        move_for(custom_id@) is Some ==> exists|bot_move: GameMove|
            outcome == settle_spec(custom_id@, bot_move),
{
    match GameMove::from_custom_id(custom_id) {
        None => SoloOutcome::UnknownMove,
        Some(_) => {
            let bot_move = GameMove::random(rng);
            settle(custom_id, bot_move)
        },
    }
}

} // verus!
