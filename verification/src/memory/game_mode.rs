//! Who plays a game of Memory, and whose turn it is.

use super::player_state::PlayerState;
use vstd::prelude::*;

verus! {

/// One player alone, or two who take turns.
#[derive(Clone, Copy, Debug)]
pub enum Mode {
    Solo { player: PlayerState },
    Versus { players: [PlayerState; 2], current_turn: usize },
}

/// How a finished game stands.
#[derive(Clone, Copy, PartialEq, Eq, Structural, Debug)]
pub enum Standing {
    /// The one player found every pair.
    SoloComplete { player: u64 },
    /// Both players found as many pairs.
    Draw { left: u64, right: u64, score: u32 },
    /// One player found more pairs than the other.
    Won { winner: u64, winner_score: u32, loser: u64, loser_score: u32 },
}

impl Mode {
    /// In a game of two the turn points at one of them.
    pub open spec fn wf(self) -> bool {
        match self {
            Mode::Solo { .. } => true,
            Mode::Versus { players, current_turn } => current_turn < 2 && players[0].user_id
                != players[1].user_id,
        }
    }

    /// Whether `user_id` takes part in the game.
    pub open spec fn is_allowed_spec(self, user_id: u64) -> bool {
        match self {
            Mode::Solo { player } => player.user_id == user_id,
            Mode::Versus { players, .. } => players[0].user_id == user_id || players[1].user_id
                == user_id,
        }
    }

    /// The player whose turn it is.
    pub open spec fn active_player(self) -> u64 {
        match self {
            Mode::Solo { player } => player.user_id,
            Mode::Versus { players, current_turn } => players[current_turn as int].user_id,
        }
    }

    /// The pairs that all players have found together.
    pub open spec fn total_score(self) -> int {
        match self {
            Mode::Solo { player } => player.score as int,
            Mode::Versus { players, .. } => players[0].score + players[1].score,
        }
    }

    /// The mode after `user_id` has found a pair: the score of that player is
    /// one higher, or nothing has changed if no such player takes part. In a
    /// game of two the first seat that the id holds is credited.
    pub open spec fn register_match_spec(self, user_id: u64) -> Mode {
        match self {
            Mode::Solo { player } => if player.user_id == user_id {
                Mode::Solo {
                    player: PlayerState { score: (player.score + 1) as u32, ..player },
                }
            } else {
                self
            },
            Mode::Versus { players, current_turn } => if players[0].user_id == user_id {
                Mode::Versus {
                    players: [
                        PlayerState { score: (players[0].score + 1) as u32, ..players[0] },
                        players[1],
                    ],
                    current_turn,
                }
            } else if players[1].user_id == user_id {
                Mode::Versus {
                    players: [
                        players[0],
                        PlayerState { score: (players[1].score + 1) as u32, ..players[1] },
                    ],
                    current_turn,
                }
            } else {
                self
            },
        }
    }

    /// The mode after the turn has passed on: in a game of two to the other
    /// player, in a game of one to nobody else.
    pub open spec fn advance_turn_spec(self) -> Mode {
        match self {
            Mode::Solo { .. } => self,
            Mode::Versus { players, current_turn } => Mode::Versus {
                players,
                current_turn: ((current_turn + 1) % 2) as usize,
            },
        }
    }

    /// How the game stands once it is over.
    pub open spec fn standing_spec(self) -> Standing {
        match self {
            Mode::Solo { player } => Standing::SoloComplete { player: player.user_id },
            Mode::Versus { players, .. } => {
                let left = players[0];
                let right = players[1];
                if left.score == right.score {
                    Standing::Draw { left: left.user_id, right: right.user_id, score: left.score }
                } else if left.score > right.score {
                    Standing::Won {
                        winner: left.user_id,
                        winner_score: left.score,
                        loser: right.user_id,
                        loser_score: right.score,
                    }
                } else {
                    Standing::Won {
                        winner: right.user_id,
                        winner_score: right.score,
                        loser: left.user_id,
                        loser_score: left.score,
                    }
                }
            },
        }
    }

    /// A game for one player.
    pub fn solo(user_id: u64) -> (mode: Mode)
        ensures
            mode == (Mode::Solo { player: PlayerState { user_id, score: 0 } }),
            mode.wf(),
    {
        Mode::Solo { player: PlayerState::new(user_id) }
    }

    /// A game for two different players; the challenger moves first.
    pub fn versus(challenger: u64, opponent: u64) -> (mode: Mode)
        requires
            challenger != opponent,
        ensures
            mode.wf(),
            mode matches Mode::Versus { players, current_turn } && current_turn == 0 && players[0]
                == (PlayerState { user_id: challenger, score: 0 }) && players[1] == (PlayerState {
                user_id: opponent,
                score: 0,
            }),
    {
        Mode::Versus {
            players: [PlayerState::new(challenger), PlayerState::new(opponent)],
            current_turn: 0,
        }
    }

    /// Whether `user_id` takes part in the game.
    pub fn is_allowed(&self, user_id: u64) -> (allowed: bool)
        ensures
            allowed == self.is_allowed_spec(user_id),
    {
        match self {
            Mode::Solo { player } => player.user_id == user_id,
            Mode::Versus { players, .. } => players[0].user_id == user_id || players[1].user_id
                == user_id,
        }
    }

    /// Whether it is the turn of `user_id`.
    pub fn is_current_player(&self, user_id: u64) -> (current: bool)
        requires
            self.wf(),
        ensures
            current == (self.active_player() == user_id),
    {
        self.active_player_id() == user_id
    }

    /// Whether only one player may ever click.
    pub fn is_strict_single_player(&self) -> (single: bool)
        ensures
            single == (*self is Solo),
    {
        match self {
            Mode::Solo { .. } => true,
            Mode::Versus { .. } => false,
        }
    }

    /// The player whose turn it is.
    pub fn active_player_id(&self) -> (user_id: u64)
        requires
            self.wf(),
        ensures
            user_id == self.active_player(),
    {
        match self {
            Mode::Solo { player } => player.user_id,
            Mode::Versus { players, current_turn } => players[*current_turn].user_id,
        }
    }

    /// Counts a pair for `user_id`, if that player takes part.
    pub fn register_match(&mut self, user_id: u64)
        requires
            old(self).wf(),
            old(self).total_score() < u32::MAX,
        ensures
            *final(self) == old(self).register_match_spec(user_id),
            final(self).wf(),
            final(self).total_score() == old(self).total_score() + if old(self).is_allowed_spec(
                user_id,
            ) {
                1int
            } else {
                0int
            },
    {
        match self {
            Mode::Solo { player } => {
                if player.user_id == user_id {
                    player.score += 1;
                }
            },
            Mode::Versus { players, .. } => {
                if players[0].user_id == user_id {
                    players[0].score += 1;
                } else if players[1].user_id == user_id {
                    players[1].score += 1;
                }
            },
        }
        proof {
            let wanted = old(self).register_match_spec(user_id);
            match (*self, wanted) {
                (Mode::Versus { players: got, .. }, Mode::Versus { players: want, .. }) => {
                    assert(got =~= want);
                },
                _ => {},
            }
        }
    }

    /// Passes the turn on to the other player, where there is one.
    pub fn advance_turn(&mut self)
        requires
            old(self).wf(),
        ensures
            *final(self) == old(self).advance_turn_spec(),
            final(self).wf(),
            final(self).total_score() == old(self).total_score(),
    {
        match self {
            Mode::Solo { .. } => {},
            Mode::Versus { current_turn, .. } => {
                *current_turn = (*current_turn + 1) % 2;
            },
        }
    }

    /// How the game stands once it is over.
    pub fn standing(&self) -> (standing: Standing)
        ensures
            standing == self.standing_spec(),
    {
        match self {
            Mode::Solo { player } => Standing::SoloComplete { player: player.user_id },
            Mode::Versus { players, .. } => {
                let left = players[0];
                let right = players[1];
                if left.score == right.score {
                    Standing::Draw { left: left.user_id, right: right.user_id, score: left.score }
                } else if left.score > right.score {
                    Standing::Won {
                        winner: left.user_id,
                        winner_score: left.score,
                        loser: right.user_id,
                        loser_score: right.score,
                    }
                } else {
                    Standing::Won {
                        winner: right.user_id,
                        winner_score: right.score,
                        loser: left.user_id,
                        loser_score: left.score,
                    }
                }
            },
        }
    }
}

} // verus!
