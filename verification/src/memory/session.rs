//! The Memory session: whose click counts, which tiles may be opened, and how
//! the turn passes.

use super::game_state::{MemoryGameState, MemoryView, SelectionResult};
use crate::session::OutcomeClass;
use vstd::prelude::*;

verus! {

/// What a click did.
#[derive(Clone, Copy, PartialEq, Eq, Debug)]
pub enum MemoryOutcome {
    /// The one who clicked takes no part in the game.
    NotParticipant,
    /// A pair that did not match is still being shown.
    BoardLocked,
    /// The tile is matched, is the open first tile, or is not on the board.
    TileUsed,
    /// It is the other player's turn.
    NotYourTurn,
    /// The other player has an attempt under way.
    AttemptInProgress,
    /// The first tile of an attempt lies open.
    FirstReveal,
    /// A pair was found; `finished` says whether it was the last.
    Matched { finished: bool },
    /// The two tiles differ. The board is locked until [`resume`] is called.
    Mismatch { pair: [usize; 2] },
}

impl MemoryOutcome {
    /// The class of the outcome.
    pub open spec fn class_spec(self) -> OutcomeClass {
        match self {
            MemoryOutcome::FirstReveal | MemoryOutcome::Mismatch { .. } => OutcomeClass::Progress,
            MemoryOutcome::Matched { finished } => if finished {
                OutcomeClass::Settlement
            } else {
                OutcomeClass::Progress
            },
            _ => OutcomeClass::Rejected,
        }
    }

    /// The class of the outcome.
    pub fn class(&self) -> (class: OutcomeClass)
        ensures
            class == self.class_spec(),
    {
        match self {
            MemoryOutcome::FirstReveal => OutcomeClass::Progress,
            MemoryOutcome::Mismatch { .. } => OutcomeClass::Progress,
            MemoryOutcome::Matched { finished } => if *finished {
                OutcomeClass::Settlement
            } else {
                OutcomeClass::Progress
            },
            _ => OutcomeClass::Rejected,
        }
    }
}

impl MemoryView {
    /// The game has ended: every pair has been found.
    pub open spec fn finished(self) -> bool {
        self.matches == self.total_pairs()
    }

    /// Beyond the board's own invariant: an attempt under way belongs to the
    /// player whose turn it is, the board is locked only between attempts, and
    /// every pair found has been scored.
    pub open spec fn session_wf(self) -> bool {
        &&& self.wf()
        &&& self.pending is Some ==> self.pending_owner == Some(self.mode.active_player())
        &&& self.pending is None ==> self.pending_owner is None
        &&& self.locked ==> self.pending is None
        &&& self.mode.total_score() == self.matches
    }

    /// The game after `actor` has clicked the tile at `index`, and what the
    /// click did.
    pub open spec fn click(self, actor: u64, index: usize) -> (MemoryView, MemoryOutcome) {
        if !self.mode.is_allowed_spec(actor) {
            (self, MemoryOutcome::NotParticipant)
        } else if self.locked {
            (self, MemoryOutcome::BoardLocked)
        } else if !self.is_selectable(index as int) {
            (self, MemoryOutcome::TileUsed)
        } else if self.pending is None && self.mode.active_player() != actor {
            (self, MemoryOutcome::NotYourTurn)
        } else if self.pending is Some && self.pending_owner != Some(actor) {
            (self, MemoryOutcome::AttemptInProgress)
        } else {
            let owned = MemoryView { pending_owner: Some(actor), ..self };
            let (opened, result) = owned.select(index);
            match result {
                SelectionResult::FirstReveal => (opened, MemoryOutcome::FirstReveal),
                SelectionResult::Matched { finished } => (
                    MemoryView { mode: opened.mode.register_match_spec(actor), ..opened },
                    MemoryOutcome::Matched { finished },
                ),
                SelectionResult::Mismatch { pair } => (
                    MemoryView { locked: true, ..opened },
                    MemoryOutcome::Mismatch { pair },
                ),
            }
        }
    }

    /// The game after a pair that did not match has been hidden again: the
    /// board is unlocked and the turn has passed on.
    pub open spec fn resume(self) -> MemoryView {
        if self.locked {
            MemoryView { locked: false, mode: self.mode.advance_turn_spec(), ..self }
        } else {
            self
        }
    }
}

/// Whether a game has grown out of another: every tile shows the face it
/// showed, every tile that was matched is matched, and neither the pairs
/// found nor the attempts made have become fewer.
pub open spec fn grown_from(after: MemoryView, before: MemoryView) -> bool {
    &&& after.tiles.len() == before.tiles.len()
    &&& forall|i: int|
        0 <= i < before.tiles.len() ==> (#[trigger] after.tiles[i]).emoji == before.tiles[i].emoji
            && (before.tiles[i].matched ==> after.tiles[i].matched)
    &&& after.matches >= before.matches
    &&& after.attempts >= before.attempts
}

/// Whoever clicks whatever, and whenever a pair is hidden again, no tile
/// changes its face, no matched tile comes loose, and the counters never
/// fall.
pub proof fn lemma_games_only_grow(game: MemoryView, actor: u64, index: usize)
    requires
        game.wf(),
    ensures
        grown_from(game.click(actor, index).0, game),
        grown_from(game.resume(), game),
{
}

/// Whether the game has ended.
pub fn is_finished(state: &MemoryGameState) -> (finished: bool)
    ensures
        finished == state@.finished(),
{
    state.matches == state.total_pairs()
}

/// Applies a click of `actor` on the tile at `index`. A click that is not
/// legal changes nothing, and once the game has ended no click is legal.
pub fn select(state: &mut MemoryGameState, actor: u64, index: usize) -> (outcome: MemoryOutcome)
    requires
        old(state)@.session_wf(),
        old(state).attempts < u32::MAX,
    ensures
        final(state)@.session_wf(),
        final(state)@ == old(state)@.click(actor, index).0,
        outcome == old(state)@.click(actor, index).1,
        old(state)@.finished() ==> final(state)@ == old(state)@ && outcome.class_spec()
            == OutcomeClass::Rejected,
        outcome.class_spec() == OutcomeClass::Rejected ==> final(state)@ == old(state)@,
        outcome.class_spec() == OutcomeClass::Settlement <==> final(state)@.finished() && !old(
            state,
        )@.finished(),
        outcome is Matched ==> final(state)@.mode.active_player() == actor,
{
    proof {
        super::game_state::lemma_pairs(state@);
    }
    if !state.mode.is_allowed(actor) {
        return MemoryOutcome::NotParticipant;
    }
    if state.locked {
        return MemoryOutcome::BoardLocked;
    }
    if !state.is_selectable(index) {
        return MemoryOutcome::TileUsed;
    }
    if state.pending.is_none() {
        if !state.mode.is_current_player(actor) {
            return MemoryOutcome::NotYourTurn;
        }
        state.pending_owner = Some(actor);
    } else {
        let owned: bool = match state.pending_owner {
            Some(owner) => owner == actor,
            None => false,
        };
        if !owned {
            return MemoryOutcome::AttemptInProgress;
        }
    }
    assert(state@ == (MemoryView { pending_owner: Some(actor), ..old(state)@ }));
    match state.select(index) {
        SelectionResult::FirstReveal => MemoryOutcome::FirstReveal,
        SelectionResult::Matched { finished } => {
            state.mode.register_match(actor);
            proof {
                super::game_state::lemma_pairs(state@);
            }
            MemoryOutcome::Matched { finished }
        },
        SelectionResult::Mismatch { pair } => {
            state.locked = true;
            MemoryOutcome::Mismatch { pair }
        },
    }
}

/// Hides a pair that did not match: unlocks the board and passes the turn on.
/// Where the board is not locked nothing changes.
pub fn resume(state: &mut MemoryGameState)
    requires
        old(state)@.session_wf(),
    ensures
        final(state)@.session_wf(),
        final(state)@ == old(state)@.resume(),
{
    if state.locked {
        state.locked = false;
        state.mode.advance_turn();
    }
}

} // verus!
