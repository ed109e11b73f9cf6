//! The three moves and which beats which.

use crate::random::random_range;
use crate::text::str_eq;
use rand::rngs::StdRng;
use vstd::prelude::*;

verus! {

/// A move of the game.
#[derive(Clone, Copy, PartialEq, Eq, Structural, Debug)]
pub enum GameMove {
    Rock,
    Paper,
    Scissors,
}

/// How a round between two moves ends.
#[derive(Clone, Copy, PartialEq, Eq, Structural, Debug)]
pub enum RoundResult {
    Draw,
    FirstWins,
    SecondWins,
}

/// How a button of the move picker is drawn.
#[derive(Clone, Copy, PartialEq, Eq, Structural, Debug)]
pub enum ButtonTone {
    /// A move that was played in the round.
    Highlighted,
    /// A move that can no longer be chosen.
    Muted,
    /// A move that can be chosen.
    Active,
}

/// The move that a button id names, if it names one.
pub open spec fn move_for(id: Seq<char>) -> Option<GameMove> {
    if id == "jkp_rock"@ {
        Some(GameMove::Rock)
    } else if id == "jkp_paper"@ {
        Some(GameMove::Paper)
    } else if id == "jkp_scissors"@ {
        Some(GameMove::Scissors)
    } else {
        None
    }
}

/// The move at a place of the list of moves, if the list has that place.
pub open spec fn move_at(index: int) -> Option<GameMove> {
    if index == 0 {
        Some(GameMove::Rock)
    } else if index == 1 {
        Some(GameMove::Paper)
    } else if index == 2 {
        Some(GameMove::Scissors)
    } else {
        None
    }
}

/// How a round between `first` and `second` ends.
pub open spec fn judge_spec(first: GameMove, second: GameMove) -> RoundResult {
    if first == second {
        RoundResult::Draw
    } else if first.beats_spec(second) {
        RoundResult::FirstWins
    } else {
        RoundResult::SecondWins
    }
}

impl GameMove {
    /// Every move, in the order of the buttons.
    pub const ALL: [GameMove; 3] = [GameMove::Rock, GameMove::Paper, GameMove::Scissors];

    /// The id of the button that chooses the move.
    pub open spec fn custom_id_spec(self) -> Seq<char> {
        match self {
            GameMove::Rock => "jkp_rock"@,
            GameMove::Paper => "jkp_paper"@,
            GameMove::Scissors => "jkp_scissors"@,
        }
    }

    /// The move as it is written on its button and in messages.
    pub open spec fn label_spec(self) -> Seq<char> {
        match self {
            GameMove::Rock => "🪨 Pedra"@,
            GameMove::Paper => "📄 Papel"@,
            GameMove::Scissors => "✂️ Tesoura"@,
        }
    }

    /// Rock beats scissors, paper beats rock, scissors beat paper.
    pub open spec fn beats_spec(self, other: GameMove) -> bool {
        match (self, other) {
            (GameMove::Rock, GameMove::Scissors) => true,
            (GameMove::Paper, GameMove::Rock) => true,
            (GameMove::Scissors, GameMove::Paper) => true,
            _ => false,
        }
    }

    /// The id of the button that chooses this move.
    pub fn custom_id(self) -> (id: &'static str)
        ensures
            id@ == self.custom_id_spec(),
    {
        match self {
            GameMove::Rock => "jkp_rock",
            GameMove::Paper => "jkp_paper",
            GameMove::Scissors => "jkp_scissors",
        }
    }

    /// The text on the button that chooses this move.
    pub fn label(self) -> (label: &'static str)
        ensures
            label@ == self.label_spec(),
    {
        match self {
            GameMove::Rock => "🪨 Pedra",
            GameMove::Paper => "📄 Papel",
            GameMove::Scissors => "✂️ Tesoura",
        }
    }

    /// The move as it is written in a message.
    pub fn to_string(&self) -> (text: String)
        ensures
            text@ == self.label_spec(),
    {
        String::from_str(self.label())
    }

    /// Whether this move beats `other`.
    pub fn beats(self, other: GameMove) -> (wins: bool)
        ensures
            wins == self.beats_spec(other),
    {
        match (self, other) {
            (GameMove::Rock, GameMove::Scissors) => true,
            (GameMove::Paper, GameMove::Rock) => true,
            (GameMove::Scissors, GameMove::Paper) => true,
            _ => false,
        }
    }

    /// The move that a button id names.
    pub fn from_custom_id(id: &str) -> (chosen: Option<GameMove>)
        ensures
            chosen == move_for(id@),
    {
        if str_eq(id, GameMove::Rock.custom_id()) {
            Some(GameMove::Rock)
        } else if str_eq(id, GameMove::Paper.custom_id()) {
            Some(GameMove::Paper)
        } else if str_eq(id, GameMove::Scissors.custom_id()) {
            Some(GameMove::Scissors)
        } else {
            None
        }
    }

    /// The move at a place of the list of moves: the first place is 0, and
    /// past the third there is none.
    pub fn from_index(index: u64) -> (chosen: Option<GameMove>)
        ensures
            chosen == move_at(index as int),
    {
        if index == 0 {
            Some(GameMove::Rock)
        } else if index == 1 {
            Some(GameMove::Paper)
        } else if index == 2 {
            Some(GameMove::Scissors)
        } else {
            None
        }
    }

    /// A move drawn at random: the generator picks one of the three places of
    /// the list of moves, and the move at that place is drawn. Which place it
    /// picks is the generator's affair, so any of the three moves may come.
    pub fn random(rng: &mut StdRng) -> (drawn: GameMove)
        ensures
            exists|index: int| 0 <= index <= 2 && move_at(index) == Some(drawn),
    {
        let index: u64 = random_range(rng, 0, 2);
        let chosen = GameMove::from_index(index);
        assert(move_at(index as int) == chosen);
        chosen.unwrap()
    }
}

/// Decides a round between two moves.
pub fn judge(first: GameMove, second: GameMove) -> (result: RoundResult)
    ensures
        result == judge_spec(first, second),
{
    if first == second {
        RoundResult::Draw
    } else if first.beats(second) {
        RoundResult::FirstWins
    } else {
        RoundResult::SecondWins
    }
}

/// How the button of `mv` is drawn: a move among `highlights` stands out,
/// and of the others those that can no longer be chosen are muted.
pub fn button_tone(mv: GameMove, disabled: bool, highlights: &Vec<GameMove>) -> (tone: ButtonTone)
    ensures
        tone == if highlights@.contains(mv) {
            ButtonTone::Highlighted
        } else if disabled {
            ButtonTone::Muted
        } else {
            ButtonTone::Active
        },
{
    let mut i: usize = 0;
    while i < highlights.len()
        invariant
            i <= highlights.len(),
            forall|j: int| 0 <= j < i ==> highlights@[j] != mv,
        decreases highlights.len() - i,
    {
        if highlights[i] == mv {
            return ButtonTone::Highlighted;
        }
        i += 1;
    }
    if disabled {
        ButtonTone::Muted
    } else {
        ButtonTone::Active
    }
}

/// No move beats itself, and of two different moves exactly one beats the
/// other.
pub proof fn lemma_beats_is_a_cycle(first: GameMove, second: GameMove)
    ensures
        !first.beats_spec(first),
        first != second ==> (first.beats_spec(second) <==> !second.beats_spec(first)),
{
}

} // verus!
