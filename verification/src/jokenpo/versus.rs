//! A round between two players who choose in secret, in any order.

use super::game_move::{judge, judge_spec, move_for, GameMove, RoundResult};
use crate::session::OutcomeClass;
use std::collections::HashMap;
use vstd::prelude::*;

verus! {

/// What a click on the move picker did.
#[derive(Clone, Copy, PartialEq, Eq, Structural, Debug)]
pub enum SubmitOutcome {
    /// The one who clicked is neither of the two players.
    NotAPlayer,
    /// The button names no move.
    UnknownMove,
    /// The player had chosen before; the first choice stands.
    AlreadyChosen,
    /// The choice was recorded and the other player's is awaited.
    Registered { chosen: GameMove },
    /// The choice was recorded and both are in: the round is decided.
    /// `result` is seen from the challenger's side.
    Resolved { challenger_move: GameMove, opponent_move: GameMove, result: RoundResult },
}

/// A round of two and the choices made so far.
pub struct VersusMatch {
    pub challenger: u64,
    pub opponent: u64,
    pub selections: HashMap<u64, GameMove>,
}

/// The round as a mathematical value.
pub struct VersusView {
    pub challenger: u64,
    pub opponent: u64,
    pub selections: Map<u64, GameMove>,
}

impl View for VersusMatch {
    type V = VersusView;

    open spec fn view(&self) -> VersusView {
        VersusView {
            challenger: self.challenger,
            opponent: self.opponent,
            selections: self.selections@,
        }
    }
}

impl SubmitOutcome {
    /// The class of the outcome.
    pub open spec fn class_spec(self) -> OutcomeClass {
        match self {
            SubmitOutcome::Registered { .. } => OutcomeClass::Progress,
            SubmitOutcome::Resolved { .. } => OutcomeClass::Settlement,
            _ => OutcomeClass::Rejected,
        }
    }

    /// The class of the outcome.
    pub fn class(&self) -> (class: OutcomeClass)
        ensures
            class == self.class_spec(),
    {
        match self {
            SubmitOutcome::Registered { .. } => OutcomeClass::Progress,
            SubmitOutcome::Resolved { .. } => OutcomeClass::Settlement,
            _ => OutcomeClass::Rejected,
        }
    }
}

impl VersusView {
    /// The players differ and only they have chosen.
    pub open spec fn wf(self) -> bool {
        &&& self.challenger != self.opponent
        &&& forall|actor: u64| #[trigger]
            self.selections.contains_key(actor) ==> actor == self.challenger || actor
                == self.opponent
    }

    /// Both players have chosen.
    pub open spec fn finished(self) -> bool {
        self.selections.contains_key(self.challenger) && self.selections.contains_key(
            self.opponent,
        )
    }

    /// The round after `actor` has clicked the button `custom_id`, and what
    /// the click did.
    pub open spec fn submit(self, actor: u64, custom_id: Seq<char>) -> (VersusView, SubmitOutcome) {
        if actor != self.challenger && actor != self.opponent {
            (self, SubmitOutcome::NotAPlayer)
        } else if move_for(custom_id) is None {
            (self, SubmitOutcome::UnknownMove)
        } else if self.selections.contains_key(actor) {
            (self, SubmitOutcome::AlreadyChosen)
        } else {
            let chosen = move_for(custom_id)->0;
            let recorded = VersusView { selections: self.selections.insert(actor, chosen), ..self };
            if recorded.finished() {
                (
                    recorded,
                    SubmitOutcome::Resolved {
                        challenger_move: recorded.selections[self.challenger],
                        opponent_move: recorded.selections[self.opponent],
                        result: judge_spec(
                            recorded.selections[self.challenger],
                            recorded.selections[self.opponent],
                        ),
                    },
                )
            } else {
                (recorded, SubmitOutcome::Registered { chosen })
            }
        }
    }
}

impl VersusMatch {
    /// The round's invariant, read off its view.
    pub open spec fn wf(&self) -> bool {
        self@.wf()
    }

    /// A round between two different players in which nobody has chosen.
    pub fn new(challenger: u64, opponent: u64) -> (round: VersusMatch)
        requires
            challenger != opponent,
        ensures
            round.wf(),
            round@ == (VersusView { challenger, opponent, selections: Map::empty() }),
    {
        VersusMatch { challenger, opponent, selections: HashMap::new() }
    }

    /// Whether both players have chosen.
    pub fn is_finished(&self) -> (finished: bool)
        ensures
            finished == self@.finished(),
    {
        self.selections.contains_key(&self.challenger) && self.selections.contains_key(
            &self.opponent,
        )
    }

    /// The move that `actor` has chosen, if any.
    pub fn choice_of(&self, actor: u64) -> (choice: Option<GameMove>)
        ensures
            choice == if self@.selections.contains_key(actor) {
                Some(self@.selections[actor])
            } else {
                None
            },
    {
        match self.selections.get(&actor) {
            Some(chosen) => Some(*chosen),
            None => None,
        }
    }

    /// Applies a click of `actor` on the button `custom_id`. A player's first
    /// choice stands: a second one is turned away and changes nothing, nor
    /// does any click once both have chosen.
    pub fn submit(&mut self, actor: u64, custom_id: &str) -> (outcome: SubmitOutcome)
        requires
            old(self).wf(),
        ensures
            final(self).wf(),
            final(self)@ == old(self)@.submit(actor, custom_id@).0,
            outcome == old(self)@.submit(actor, custom_id@).1,
            old(self)@.finished() ==> final(self)@ == old(self)@ && outcome.class_spec()
                == OutcomeClass::Rejected,
            outcome.class_spec() == OutcomeClass::Rejected ==> final(self)@ == old(self)@,
            outcome.class_spec() == OutcomeClass::Settlement <==> final(self)@.finished() && !old(
                self,
            )@.finished(),
    {
        if actor != self.challenger && actor != self.opponent {
            return SubmitOutcome::NotAPlayer;
        }
        let chosen = match GameMove::from_custom_id(custom_id) {
            Some(chosen) => chosen,
            None => {
                return SubmitOutcome::UnknownMove;
            },
        };
        if self.selections.contains_key(&actor) {
            return SubmitOutcome::AlreadyChosen;
        }
        self.selections.insert(actor, chosen);
        let challenger_move = self.choice_of(self.challenger);
        let opponent_move = self.choice_of(self.opponent);
        match (challenger_move, opponent_move) {
            (Some(challenger_move), Some(opponent_move)) => SubmitOutcome::Resolved {
                challenger_move,
                opponent_move,
                result: judge(challenger_move, opponent_move),
            },
            _ => SubmitOutcome::Registered { chosen },
        }
    }
}

/// If a player submits twice before the other has submitted once, the second
/// submission is turned away and the first choice stands; it is the one that
/// the round is decided with when the other player chooses.
pub proof fn lemma_first_choice_stands(
    round: VersusView,
    first: u64,
    second: u64,
    once: Seq<char>,
    again: Seq<char>,
    reply: Seq<char>,
)
    requires
        round.wf(),
        round.selections == Map::<u64, GameMove>::empty(),
        first == round.challenger && second == round.opponent || first == round.opponent
            && second == round.challenger,
        move_for(once) is Some,
        move_for(reply) is Some,
    ensures
        round.submit(first, once).1 == (SubmitOutcome::Registered { chosen: move_for(once)->0 }),
        round.submit(first, once).0.submit(first, again).0 == round.submit(first, once).0,
        round.submit(first, once).0.submit(first, again).1.class_spec() == OutcomeClass::Rejected,
        round.submit(first, once).0.submit(first, again).0.submit(second, reply).1 matches SubmitOutcome::Resolved {
            challenger_move,
            opponent_move,
            ..
        } && (if first == round.challenger {
            challenger_move == move_for(once)->0 && opponent_move == move_for(reply)->0
        } else {
            opponent_move == move_for(once)->0 && challenger_move == move_for(reply)->0
        }),
{
    let chosen = move_for(once)->0;
    let one = round.submit(first, once).0;
    assert(one.selections =~= round.selections.insert(first, chosen));
    assert(one.selections.contains_key(first));
    assert(!one.selections.contains_key(second));
    assert(!one.finished());
    if move_for(again) is Some {
        assert(one.submit(first, again).1 == SubmitOutcome::AlreadyChosen);
    } else {
        assert(one.submit(first, again).1 == SubmitOutcome::UnknownMove);
    }
    let two = one.submit(first, again).0;
    assert(two == one);
    let three = two.submit(second, reply).0;
    assert(three.selections.contains_key(first));
    assert(three.selections.contains_key(second));
}

} // verus!
