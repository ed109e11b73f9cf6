//! The race itself: where each animal stands, and how a round moves it.

use crate::format::discord::{mention, mention_text};
use crate::random::{random_range, random_ratio, shuffle};
use crate::text::{join_lines, joined, push_repeated, repeated};
use rand::rngs::StdRng;
use vstd::prelude::*;

verus! {

/// The ids of the animals that can run.
pub const ANIMAL_IDS: [&'static str; 12] = [
    "cat", "dog", "fox", "turtle", "fish", "dragon", "rabbit", "panda", "penguin", "unicorn",
    "horse", "frog",
];

/// The emoji of the animals, in the order of their ids.
pub const ANIMAL_EMOJIS: [&'static str; 12] = [
    "🐈", "🐕", "🦊", "🐢", "🐟", "🐉", "🐇", "🐼", "🐧", "🦄", "🐎", "🐸",
];

/// The slowest an animal can be, in hundredths of the drawn step.
pub const MIN_SPEED_BIAS: u32 = 65;

/// The fastest an animal can be, in hundredths of the drawn step.
pub const MAX_SPEED_BIAS: u32 = 135;

/// How far luck can swing a step either way, in hundredths of a square.
pub const VARIANCE_SWING: u32 = 125;

/// In how many rounds of a hundred an animal surges.
pub const SURGE_CHANCE_PERCENT: u32 = 18;

/// The fewest squares that a surge adds.
pub const SURGE_BONUS_MIN: usize = 2;

/// The most squares that a surge adds.
pub const SURGE_BONUS_MAX: usize = 4;

/// In how many rounds of a hundred an animal slips.
pub const SLIP_CHANCE_PERCENT: u32 = 15;

/// The fewest squares that a slip takes.
pub const SLIP_PENALTY_MIN: usize = 1;

/// The most squares that a slip takes.
pub const SLIP_PENALTY_MAX: usize = 3;

/// The most squares that an animal advances in a round.
pub const MAX_STEP_CAP: usize = 9;

/// The fewest squares that an animal advances in a round.
pub const MINIMUM_STEP: usize = 1;

/// An animal that can run.
#[derive(Clone, Copy, Debug)]
pub struct RaceAnimal {
    pub id: &'static str,
    pub emoji: &'static str,
}

/// A participant and the animal that runs for it.
#[derive(Clone, Copy, Debug)]
pub struct RaceContestant {
    pub user_id: u64,
    pub animal: RaceAnimal,
}

/// Where a participant ended up.
#[derive(Clone, Copy, Debug)]
pub struct RaceResultEntry {
    pub user_id: u64,
    pub animal: RaceAnimal,
    pub position: usize,
    pub finished_round: Option<usize>,
}

/// A participant in the race.
#[derive(Clone, Copy, Debug)]
pub struct RacerState {
    pub contestant: RaceContestant,
    pub position: usize,
    /// How fast the animal is, in hundredths of the drawn step.
    pub speed_bias: u32,
    pub finished_round: Option<usize>,
}

/// A race under way.
pub struct RaceState {
    racers: Vec<RacerState>,
    track_length: usize,
    rounds_elapsed: usize,
}

/// The race as a mathematical value.
pub struct RaceView {
    pub racers: Seq<RacerState>,
    pub track_length: nat,
    pub rounds_elapsed: nat,
}

impl View for RaceState {
    type V = RaceView;

    closed spec fn view(&self) -> RaceView {
        RaceView {
            racers: self.racers@,
            track_length: self.track_length as nat,
            rounds_elapsed: self.rounds_elapsed as nat,
        }
    }
}

/// What luck adds to a round of one animal.
#[derive(Clone, Copy, PartialEq, Eq, Structural, Debug)]
pub struct StepDraw {
    /// The squares drawn, before speed and luck are counted in.
    pub base: usize,
    /// The swing, in hundredths of a square, shifted so that it is not
    /// negative: zero stands for the full swing backwards.
    pub swing: u32,
    /// The squares that a surge adds, if the animal surges.
    pub surge: Option<usize>,
    /// The squares that a slip takes, if the animal slips.
    pub slip: Option<usize>,
}

/// The squares of an optional bonus or penalty.
pub open spec fn squares(extra: Option<usize>) -> int {
    match extra {
        Some(count) => count as int,
        None => 0,
    }
}

/// What a round is worth to an animal before rounding and clamping, in
/// hundredths of a square: the drawn step times the animal's speed, the
/// swing, a surge and a slip.
pub open spec fn raw_step_hundredths(draw: StepDraw, speed_bias: u32) -> int {
    draw.base * speed_bias + (draw.swing - VARIANCE_SWING) + 100 * squares(draw.surge) - 100
        * squares(draw.slip)
}

/// Rounds hundredths to whole squares, halves away from zero.
pub open spec fn rounded(hundredths: int) -> int {
    if hundredths >= 0 {
        (hundredths + 50) / 100
    } else {
        -((-hundredths + 50) / 100)
    }
}

/// The squares that an animal advances in a round: the rounded worth of the
/// round, but at least [`MINIMUM_STEP`] and at most [`MAX_STEP_CAP`].
pub open spec fn step_spec(draw: StepDraw, speed_bias: u32) -> int {
    let whole = rounded(raw_step_hundredths(draw, speed_bias));
    if whole < MINIMUM_STEP {
        MINIMUM_STEP as int
    } else if whole > MAX_STEP_CAP {
        MAX_STEP_CAP as int
    } else {
        whole
    }
}

/// Whether the round `first` was finished in comes before `second`: an
/// earlier round before a later one, and any round before none.
pub open spec fn finished_before(first: Option<usize>, second: Option<usize>) -> bool {
    match (first, second) {
        (Some(one), Some(other)) => one < other,
        (Some(_), None) => true,
        _ => false,
    }
}

/// Whether `first` ranks strictly above `second`: by the square reached, and
/// among those on the same square by the round they finished in.
pub open spec fn ranks_above(first: RaceResultEntry, second: RaceResultEntry) -> bool {
    first.position > second.position || (first.position == second.position && finished_before(
        first.finished_round,
        second.finished_round,
    ))
}

/// The entry of a racer in the ranking.
pub open spec fn entry_of(racer: RacerState) -> RaceResultEntry {
    RaceResultEntry {
        user_id: racer.contestant.user_id,
        animal: racer.contestant.animal,
        position: racer.position,
        finished_round: racer.finished_round,
    }
}

/// The racer after a round in which it advanced `step` squares.
pub open spec fn moved(racer: RacerState, step: int, track_length: nat, round: nat) -> RacerState {
    let position = if racer.position + step < track_length {
        racer.position + step
    } else {
        track_length as int
    };
    RacerState {
        position: position as usize,
        finished_round: if position >= track_length && racer.finished_round is None {
            Some(round as usize)
        } else {
            racer.finished_round
        },
        ..racer
    }
}

/// The earliest round in which one of `racers` finished, if any has.
pub open spec fn earliest(racers: Seq<RacerState>) -> Option<usize>
    decreases racers.len(),
{
    if racers.len() == 0 {
        None
    } else {
        match (earliest(racers.drop_last()), racers.last().finished_round) {
            (None, round) => round,
            (Some(best), None) => Some(best),
            (Some(best), Some(round)) => Some(
                if round < best {
                    round
                } else {
                    best
                },
            ),
        }
    }
}

/// The contestants among `racers` that finished in the round `best`, in
/// their order.
pub open spec fn finishers(racers: Seq<RacerState>, best: usize) -> Seq<RaceContestant>
    decreases racers.len(),
{
    if racers.len() == 0 {
        Seq::empty()
    } else if racers.last().finished_round == Some(best) {
        finishers(racers.drop_last(), best).push(racers.last().contestant)
    } else {
        finishers(racers.drop_last(), best)
    }
}

/// Whether the racer at place `first` comes before the one at place `second`
/// in the ranking: it ranks above it, or ranks the same and stood before it
/// in the line-up.
pub open spec fn precedes(racers: Seq<RacerState>, first: int, second: int) -> bool {
    ranks_above(entry_of(racers[first]), entry_of(racers[second])) || (!ranks_above(
        entry_of(racers[second]),
        entry_of(racers[first]),
    ) && first < second)
}

/// Whether `order` lists every place of `racers` once, in the order of the
/// ranking.
pub open spec fn is_ranking(racers: Seq<RacerState>, order: Seq<int>) -> bool {
    &&& order.len() == racers.len()
    &&& forall|k: int| 0 <= k < order.len() ==> 0 <= #[trigger] order[k] < racers.len()
    &&& forall|k: int, l: int|
        0 <= k < l < order.len() ==> precedes(racers, #[trigger] order[k], #[trigger] order[l])
}

/// Whether `first` ranks strictly above `second` when the round finished in
/// is looked at first and the square reached second.
pub open spec fn ranks_above_by_round(first: RaceResultEntry, second: RaceResultEntry) -> bool {
    finished_before(first.finished_round, second.finished_round) || (!finished_before(
        second.finished_round,
        first.finished_round,
    ) && first.position > second.position)
}

/// A lane of the track as the closing picture shows it: a dash for every
/// square run, the animal, a dot for every square ahead, the flag, and a
/// note for an animal that has arrived.
pub open spec fn lane_text(position: nat, track_length: nat, emoji: Seq<char>) -> Seq<char> {
    let progress = if position < track_length {
        position
    } else {
        track_length
    };
    repeated('-', progress) + emoji + repeated('.', (track_length - progress) as nat) + "🏁"@
        + if progress >= track_length {
        " (chegou!)"@
    } else {
        Seq::empty()
    }
}

/// A lane of the track as it is shown during the race: a dash for every
/// square run, and the animal.
pub open spec fn simple_lane_text(position: nat, track_length: nat, emoji: Seq<char>) -> Seq<char> {
    repeated(
        '-',
        if position < track_length {
            position
        } else {
            track_length
        },
    ) + emoji
}

/// The line of a racer in the closing picture.
pub open spec fn track_line(racer: RacerState, track_length: nat) -> Seq<char> {
    racer.contestant.animal.emoji@ + " "@ + mention_text(racer.contestant.user_id) + " | "@
        + lane_text(racer.position as nat, track_length, racer.contestant.animal.emoji@) + "\n"@
}

/// The lines of the first `count` racers in the closing picture.
pub open spec fn track_lines(racers: Seq<RacerState>, track_length: nat, count: nat) -> Seq<char>
    decreases count,
{
    if count == 0 {
        Seq::empty()
    } else {
        track_lines(racers, track_length, (count - 1) as nat) + track_line(
            racers[count - 1],
            track_length,
        )
    }
}

impl RaceView {
    /// No animal is past the line; one that is marked finished stands on the
    /// line and was marked in a round that was run; and once a round was run,
    /// every animal on the line is marked.
    pub open spec fn wf(self) -> bool {
        forall|i: int|
            0 <= i < self.racers.len() ==> {
                let racer = #[trigger] self.racers[i];
                &&& racer.position <= self.track_length
                &&& racer.finished_round matches Some(round) ==> 1 <= round <= self.rounds_elapsed
                    && racer.position == self.track_length
                &&& self.rounds_elapsed >= 1 && racer.position == self.track_length
                    ==> racer.finished_round is Some
            }
    }

    /// Some animal has reached the line.
    pub open spec fn someone_finished(self) -> bool {
        exists|i: int| 0 <= i < self.racers.len() && (#[trigger] self.racers[i]).position
            >= self.track_length
    }

    /// The race after a round in which the animals advanced by `steps`.
    pub open spec fn advance(self, steps: Seq<int>) -> RaceView {
        RaceView {
            racers: Seq::new(
                self.racers.len(),
                |i: int| moved(self.racers[i], steps[i], self.track_length, self.rounds_elapsed + 1),
            ),
            rounds_elapsed: self.rounds_elapsed + 1,
            ..self
        }
    }

    /// The earliest round in which an animal finished, if any has.
    pub open spec fn best_round(self) -> Option<usize> {
        earliest(self.racers)
    }

    /// The contestants who finished in the earliest round, in their order:
    /// all of them win together.
    pub open spec fn winners(self) -> Seq<RaceContestant> {
        match self.best_round() {
            Some(best) => finishers(self.racers, best),
            None => Seq::empty(),
        }
    }

    /// The closing picture of the track.
    pub open spec fn track_text(self) -> Seq<char> {
        "🏁 Corrida dos Animais\n"@ + "Acompanhe o avanço dos participantes:\n\n"@ + track_lines(
            self.racers,
            self.track_length,
            self.racers.len(),
        )
    }

    /// The picture of the track during the race: one lane per line.
    pub open spec fn simple_track_text(self) -> Seq<char> {
        joined(
            Seq::new(
                self.racers.len(),
                |i: int|
                    simple_lane_text(
                        self.racers[i].position as nat,
                        self.track_length,
                        self.racers[i].contestant.animal.emoji@,
                    ),
            ),
            "\n"@,
        )
    }
}

/// The earliest round is one that an animal finished in, and no animal
/// finished in an earlier one; there is none exactly when no animal has
/// finished.
pub proof fn lemma_earliest(racers: Seq<RacerState>)
    ensures
        match earliest(racers) {
            Some(best) => (exists|i: int|
                0 <= i < racers.len() && (#[trigger] racers[i]).finished_round == Some(best))
                && forall|j: int|
                0 <= j < racers.len() && (#[trigger] racers[j]).finished_round is Some ==> best
                    <= racers[j].finished_round->0,
            None => forall|j: int|
                0 <= j < racers.len() ==> (#[trigger] racers[j]).finished_round is None,
        },
    decreases racers.len(),
{
    if racers.len() > 0 {
        let shorter = racers.drop_last();
        lemma_earliest(shorter);
        assert forall|j: int| 0 <= j < shorter.len() implies shorter[j] == racers[j] by {}
        let last = racers.len() - 1;
        match earliest(racers) {
            Some(best) => {
                if racers[last].finished_round == Some(best) {
                    assert(racers[last].finished_round == Some(best));
                } else {
                    let i = choose|i: int|
                        0 <= i < shorter.len() && (#[trigger] shorter[i]).finished_round == Some(
                            best,
                        );
                    assert(racers[i].finished_round == Some(best));
                }
                assert forall|j: int|
                    0 <= j < racers.len() && (#[trigger] racers[j]).finished_round is Some implies best
                    <= racers[j].finished_round->0 by {
                    if j < last {
                        assert(shorter[j].finished_round is Some);
                    }
                }
            },
            None => {
                assert forall|j: int| 0 <= j < racers.len() implies (#[trigger] racers[j]).finished_round
                    is None by {
                    if j < last {
                        assert(shorter[j].finished_round is None);
                    }
                }
            },
        }
    }
}

/// In a race it makes no difference whether the ranking looks at the square
/// first or at the round: an animal that has finished stands on the line,
/// ahead of every animal that has not.
pub proof fn lemma_ranking_by_round_is_the_same(race: RaceView, first: int, second: int)
    requires
        race.wf(),
        0 <= first < race.racers.len(),
        0 <= second < race.racers.len(),
    ensures
        ranks_above(entry_of(race.racers[first]), entry_of(race.racers[second]))
            == ranks_above_by_round(entry_of(race.racers[first]), entry_of(race.racers[second])),
{
}

/// A round moves no animal back and leaves the round in which an animal
/// finished as it was.
pub proof fn lemma_rounds_only_advance(race: RaceView, steps: Seq<int>)
    requires
        race.wf(),
        race.track_length <= usize::MAX,
        race.rounds_elapsed < usize::MAX,
        steps.len() == race.racers.len(),
        forall|i: int| 0 <= i < steps.len() ==> 0 <= #[trigger] steps[i],
    ensures
        race.advance(steps).wf(),
        race.advance(steps).rounds_elapsed == race.rounds_elapsed + 1,
        forall|i: int|
            0 <= i < race.racers.len() ==> {
                let before = race.racers[i];
                let after = #[trigger] race.advance(steps).racers[i];
                &&& after.contestant == before.contestant
                &&& after.speed_bias == before.speed_bias
                &&& after.position >= before.position
                &&& before.finished_round is Some ==> after.finished_round == before.finished_round
            },
{
    let after = race.advance(steps);
    assert forall|i: int| 0 <= i < after.racers.len() implies {
        let racer = #[trigger] after.racers[i];
        &&& racer.position <= after.track_length
        &&& racer.finished_round matches Some(round) ==> 1 <= round <= after.rounds_elapsed
            && racer.position == after.track_length
        &&& after.rounds_elapsed >= 1 && racer.position == after.track_length
            ==> racer.finished_round is Some
    } by {
        assert(race.racers[i].position <= race.track_length);
        assert(steps[i] >= 0);
    }
}

/// A ranking names every participant exactly once.
pub proof fn lemma_ranking_lists_each_once(racers: Seq<RacerState>, order: Seq<int>)
    requires
        is_ranking(racers, order),
    ensures
        forall|k: int, l: int| 0 <= k < l < order.len() ==> order[k] != order[l],
{
    assert forall|k: int, l: int| 0 <= k < l < order.len() implies order[k] != order[l] by {
        assert(precedes(racers, order[k], order[l]));
    }
}

/// Of two different participants exactly one comes before the other, so
/// that the ranking of a race is one order and no other.
pub proof fn lemma_precedes_is_total(racers: Seq<RacerState>, first: int, second: int)
    requires
        first != second,
    ensures
        precedes(racers, first, second) != precedes(racers, second, first),
{
}

impl RaceAnimal {
    /// The animal with the given id and emoji.
    pub fn new(id: &'static str, emoji: &'static str) -> (animal: RaceAnimal)
        ensures
            animal == (RaceAnimal { id, emoji }),
    {
        RaceAnimal { id, emoji }
    }

    /// Every animal that can run.
    pub open spec fn all_spec() -> Seq<RaceAnimal> {
        Seq::new(12, |i: int| RaceAnimal { id: ANIMAL_IDS[i], emoji: ANIMAL_EMOJIS[i] })
    }

    /// Every animal that can run.
    pub fn all() -> (animals: Vec<RaceAnimal>)
        ensures
            animals@ == RaceAnimal::all_spec(),
    {
        let mut animals: Vec<RaceAnimal> = Vec::new();
        let mut i: usize = 0;
        while i < 12
            invariant
                i <= 12,
                animals@.len() == i,
                forall|j: int|
                    0 <= j < i ==> animals@[j] == (RaceAnimal {
                        id: ANIMAL_IDS[j],
                        emoji: ANIMAL_EMOJIS[j],
                    }),
            decreases 12 - i,
        {
            animals.push(RaceAnimal::new(ANIMAL_IDS[i], ANIMAL_EMOJIS[i]));
            i += 1;
        }
        assert(animals@ =~= RaceAnimal::all_spec());
        animals
    }
}

/// Picks `count` different animals at random, or all of them if `count` is
/// more than there are.
pub fn random_animals(count: usize, rng: &mut StdRng) -> (animals: Vec<RaceAnimal>)
    ensures
        animals@.len() == if count < 12 {
            count
        } else {
            12
        },
        exists|order: Seq<RaceAnimal>|
            order.to_multiset() == RaceAnimal::all_spec().to_multiset() && #[trigger] order.take(
                animals@.len() as int,
            ) == animals@,
{
    let mut animals = RaceAnimal::all();
    proof {
        RaceAnimal::all_spec().to_multiset_ensures();
    }
    shuffle(&mut animals, rng);
    proof {
        animals@.to_multiset_ensures();
    }
    let ghost order = animals@;
    let keep: usize = if count < animals.len() {
        count
    } else {
        animals.len()
    };
    animals.truncate(keep);
    assert(animals@ =~= order.take(keep as int));
    animals
}

/// Computes the squares that an animal advances in a round from what was
/// drawn for it.
pub fn step_from(draw: StepDraw, speed_bias: u32) -> (step: usize)
    requires
        draw.swing <= 2 * VARIANCE_SWING,
    ensures
        step == step_spec(draw, speed_bias),
        MINIMUM_STEP <= step <= MAX_STEP_CAP,
{
    let surge: i128 = match draw.surge {
        Some(count) => count as i128,
        None => 0,
    };
    let slip: i128 = match draw.slip {
        Some(count) => count as i128,
        None => 0,
    };
    assert(0 <= (draw.base as int) * (speed_bias as int) <= 0xFFFF_FFFF_FFFF_FFFF * 0xFFFF_FFFF)
        by (nonlinear_arith)
        requires
            0 <= draw.base <= 0xFFFF_FFFF_FFFF_FFFF,
            0 <= speed_bias <= 0xFFFF_FFFF,
    ;
    let worth: i128 = (draw.base as i128) * (speed_bias as i128);
    let hundredths: i128 = worth + (draw.swing as i128 - VARIANCE_SWING as i128) + 100 * surge - 100
        * slip;
    let whole: i128 = if hundredths >= 0 {
        (hundredths + 50) / 100
    } else {
        -((-hundredths + 50) / 100)
    };
    if whole < MINIMUM_STEP as i128 {
        MINIMUM_STEP
    } else if whole > MAX_STEP_CAP as i128 {
        MAX_STEP_CAP
    } else {
        whole as usize
    }
}

/// Draws what luck adds to a round of one animal.
pub fn draw_step(rng: &mut StdRng, min_step: usize, max_step: usize) -> (draw: StepDraw)
    requires
        min_step <= max_step,
    ensures
        min_step <= draw.base <= max_step,
        draw.swing <= 2 * VARIANCE_SWING,
        draw.surge matches Some(bonus) ==> SURGE_BONUS_MIN <= bonus <= SURGE_BONUS_MAX,
        draw.slip matches Some(penalty) ==> SLIP_PENALTY_MIN <= penalty <= SLIP_PENALTY_MAX,
{
    let base: usize = if min_step == max_step {
        min_step
    } else {
        random_range(rng, min_step as u64, max_step as u64) as usize
    };
    let swing: u32 = random_range(rng, 0, 2 * VARIANCE_SWING as u64) as u32;
    let surge: Option<usize> = if random_ratio(rng, SURGE_CHANCE_PERCENT, 100) {
        Some(random_range(rng, SURGE_BONUS_MIN as u64, SURGE_BONUS_MAX as u64) as usize)
    } else {
        None
    };
    let slip: Option<usize> = if random_ratio(rng, SLIP_CHANCE_PERCENT, 100) {
        Some(random_range(rng, SLIP_PENALTY_MIN as u64, SLIP_PENALTY_MAX as u64) as usize)
    } else {
        None
    };
    StepDraw { base, swing, surge, slip }
}

/// Draws how fast an animal is.
pub fn random_speed_bias(rng: &mut StdRng) -> (bias: u32)
    ensures
        MIN_SPEED_BIAS <= bias <= MAX_SPEED_BIAS,
{
    random_range(rng, MIN_SPEED_BIAS as u64, MAX_SPEED_BIAS as u64) as u32
}

impl RaceState {
    /// The race's invariant, read off its view.
    pub open spec fn wf(&self) -> bool {
        self@.wf()
    }

    /// A race that is about to start, with the given speed for each
    /// participant.
    pub fn with_speeds(participants: Vec<RaceContestant>, speeds: &Vec<u32>, track_length: usize) -> (race:
        RaceState)
        requires
            speeds@.len() == participants@.len(),
        ensures
            race.wf(),
            race@.track_length == track_length,
            race@.rounds_elapsed == 0,
            race@.racers.len() == participants@.len(),
            forall|i: int|
                0 <= i < participants@.len() ==> #[trigger] race@.racers[i] == (RacerState {
                    contestant: participants@[i],
                    position: 0,
                    speed_bias: speeds@[i],
                    finished_round: None,
                }),
    {
        let mut racers: Vec<RacerState> = Vec::new();
        let mut i: usize = 0;
        while i < participants.len()
            invariant
                i <= participants.len(),
                speeds@.len() == participants@.len(),
                racers@.len() == i,
                forall|j: int|
                    0 <= j < i ==> #[trigger] racers@[j] == (RacerState {
                        contestant: participants@[j],
                        position: 0,
                        speed_bias: speeds@[j],
                        finished_round: None,
                    }),
            decreases participants.len() - i,
        {
            racers.push(
                RacerState {
                    contestant: participants[i],
                    position: 0,
                    speed_bias: speeds[i],
                    finished_round: None,
                },
            );
            i += 1;
        }
        RaceState { racers, track_length, rounds_elapsed: 0 }
    }

    /// A race that is about to start: every animal stands at the start and is
    /// given a speed at random.
    pub fn new(participants: Vec<RaceContestant>, track_length: usize, rng: &mut StdRng) -> (race:
        RaceState)
        ensures
            race.wf(),
            race@.track_length == track_length,
            race@.rounds_elapsed == 0,
            race@.racers.len() == participants@.len(),
            forall|i: int|
                0 <= i < participants@.len() ==> {
                    let racer = #[trigger] race@.racers[i];
                    &&& racer.contestant == participants@[i]
                    &&& racer.position == 0
                    &&& racer.finished_round is None
                    &&& MIN_SPEED_BIAS <= racer.speed_bias <= MAX_SPEED_BIAS
                },
    {
        let mut speeds: Vec<u32> = Vec::new();
        let mut i: usize = 0;
        while i < participants.len()
            invariant
                i <= participants.len(),
                speeds@.len() == i,
                forall|j: int| 0 <= j < i ==> MIN_SPEED_BIAS <= #[trigger] speeds@[j] <= MAX_SPEED_BIAS,
            decreases participants.len() - i,
        {
            speeds.push(random_speed_bias(rng));
            i += 1;
        }
        RaceState::with_speeds(participants, &speeds, track_length)
    }

    /// The participants and where they stand.
    pub fn racers(&self) -> (racers: &Vec<RacerState>)
        ensures
            racers@ == self@.racers,
    {
        &self.racers
    }

    /// The length of the track.
    pub fn track_length(&self) -> (length: usize)
        ensures
            length == self@.track_length,
    {
        self.track_length
    }

    /// The rounds run so far.
    pub fn rounds_elapsed(&self) -> (rounds: usize)
        ensures
            rounds == self@.rounds_elapsed,
    {
        self.rounds_elapsed
    }

    /// Whether some animal has reached the line.
    pub fn is_finished(&self) -> (finished: bool)
        ensures
            finished == self@.someone_finished(),
    {
        let mut i: usize = 0;
        while i < self.racers.len()
            invariant
                i <= self.racers.len(),
                forall|j: int| 0 <= j < i ==> self.racers@[j].position < self.track_length,
            decreases self.racers.len() - i,
        {
            if self.racers[i].position >= self.track_length {
                return true;
            }
            i += 1;
        }
        false
    }

    /// Runs a round in which the animals advance by the given steps, and says
    /// whether some animal stands on the line afterwards.
    pub fn advance_by(&mut self, steps: &Vec<usize>) -> (someone_finished: bool)
        requires
            old(self).wf(),
            steps@.len() == old(self)@.racers.len(),
            old(self)@.rounds_elapsed < usize::MAX,
        ensures
            final(self).wf(),
            final(self)@ == old(self)@.advance(steps@.map_values(|step: usize| step as int)),
            someone_finished == final(self)@.someone_finished(),
    {
        self.rounds_elapsed += 1;
        let current_round: usize = self.rounds_elapsed;
        let mut someone_finished: bool = false;
        let ghost wanted = old(self)@.advance(steps@.map_values(|step: usize| step as int));
        let mut i: usize = 0;
        while i < self.racers.len()
            invariant
                i <= self.racers.len(),
                self.racers.len() == old(self).racers.len(),
                steps@.len() == self.racers.len(),
                self.track_length == old(self).track_length,
                self.rounds_elapsed == current_round,
                current_round == old(self).rounds_elapsed + 1,
                old(self).wf(),
                wanted == old(self)@.advance(steps@.map_values(|step: usize| step as int)),
                forall|j: int| 0 <= j < i ==> self.racers@[j] == wanted.racers[j],
                forall|j: int| i <= j < self.racers.len() ==> self.racers@[j] == old(self).racers@[j],
                someone_finished == exists|j: int|
                    0 <= j < i && (#[trigger] self.racers@[j]).position >= self.track_length,
            decreases self.racers.len() - i,
        {
            let step: usize = steps[i];
            let racer = self.racers[i];
            let ghost before = self.racers@;
            assert(racer == old(self)@.racers[i as int]);
            let position: usize = if step < self.track_length - racer.position {
                racer.position + step
            } else {
                self.track_length
            };
            self.racers[i].position = position;
            if position >= self.track_length {
                someone_finished = true;
                if racer.finished_round.is_none() {
                    self.racers[i].finished_round = Some(current_round);
                }
            }
            proof {
                assert(steps@.map_values(|step: usize| step as int)[i as int] == step as int);
                assert(self.racers@[i as int] == wanted.racers[i as int]);
                assert forall|j: int| 0 <= j < i implies self.racers@[j] == before[j] by {}
                if position >= self.track_length {
                    assert(self.racers@[i as int].position >= self.track_length);
                } else if someone_finished {
                    let j = choose|j: int|
                        0 <= j < i && (#[trigger] before[j]).position >= self.track_length;
                    assert(self.racers@[j].position >= self.track_length);
                }
            }
            i += 1;
        }
        proof {
            assert(self@.racers =~= wanted.racers);
        }
        someone_finished
    }

    /// Runs a round: for each animal a step is drawn, counted up with its
    /// speed and luck, and advanced. Says whether some animal stands on the
    /// line afterwards.
    pub fn advance_round(&mut self, rng: &mut StdRng, min_step: usize, max_step: usize) -> (someone_finished:
        bool)
        requires
            old(self).wf(),
            min_step <= max_step,
            old(self)@.rounds_elapsed < usize::MAX,
        ensures
            final(self).wf(),
            exists|steps: Seq<int>|
                steps.len() == old(self)@.racers.len() && (forall|i: int|
                    0 <= i < steps.len() ==> MINIMUM_STEP <= #[trigger] steps[i] <= MAX_STEP_CAP)
                    && final(self)@ == old(self)@.advance(steps),
            someone_finished == final(self)@.someone_finished(),
    {
        let mut steps: Vec<usize> = Vec::new();
        let mut i: usize = 0;
        while i < self.racers.len()
            invariant
                i <= self.racers.len(),
                min_step <= max_step,
                steps@.len() == i,
                forall|j: int| 0 <= j < i ==> MINIMUM_STEP <= #[trigger] steps@[j] <= MAX_STEP_CAP,
            decreases self.racers.len() - i,
        {
            let draw = draw_step(rng, min_step, max_step);
            steps.push(step_from(draw, self.racers[i].speed_bias));
            i += 1;
        }
        let someone_finished = self.advance_by(&steps);
        proof {
            let taken = steps@.map_values(|step: usize| step as int);
            assert forall|i: int| 0 <= i < taken.len() implies MINIMUM_STEP <= #[trigger] taken[i]
                <= MAX_STEP_CAP by {
                assert(taken[i] == steps@[i]);
            }
        }
        someone_finished
    }
}

impl RaceState {
    /// Runs a round unless the race is over: once an animal has reached the
    /// line nothing moves any more. Says whether the race is over afterwards.
    pub fn tick(&mut self, rng: &mut StdRng, min_step: usize, max_step: usize) -> (finished: bool)
        requires
            old(self).wf(),
            min_step <= max_step,
            old(self)@.rounds_elapsed < usize::MAX,
        ensures
            final(self).wf(),
            finished == final(self)@.someone_finished(),
            old(self)@.someone_finished() ==> final(self)@ == old(self)@ && finished,
            !old(self)@.someone_finished() ==> exists|steps: Seq<int>|
                steps.len() == old(self)@.racers.len() && (forall|i: int|
                    0 <= i < steps.len() ==> MINIMUM_STEP <= #[trigger] steps[i] <= MAX_STEP_CAP)
                    && final(self)@ == old(self)@.advance(steps),
    {
        if self.is_finished() {
            true
        } else {
            self.advance_round(rng, min_step, max_step)
        }
    }

    /// The contestants who finished first. All who finished in the same
    /// round win together; nobody wins while no animal has finished.
    pub fn winners(&self) -> (winners: Vec<RaceContestant>)
        ensures
            winners@ == self@.winners(),
    {
        let mut best: Option<usize> = None;
        let mut i: usize = 0;
        assert(self.racers@.take(0) =~= Seq::<RacerState>::empty());
        while i < self.racers.len()
            invariant
                i <= self.racers.len(),
                best == earliest(self.racers@.take(i as int)),
            decreases self.racers.len() - i,
        {
            proof {
                assert(self.racers@.take(i + 1).drop_last() =~= self.racers@.take(i as int));
            }
            match (best, self.racers[i].finished_round) {
                (None, round) => {
                    best = round;
                },
                (Some(_), None) => {},
                (Some(current), Some(round)) => {
                    if round < current {
                        best = Some(round);
                    }
                },
            }
            i += 1;
        }
        assert(self.racers@.take(i as int) =~= self.racers@);
        let mut winners: Vec<RaceContestant> = Vec::new();
        let best_round: usize = match best {
            Some(round) => round,
            None => {
                return winners;
            },
        };
        let mut j: usize = 0;
        assert(self.racers@.take(0) =~= Seq::<RacerState>::empty());
        while j < self.racers.len()
            invariant
                j <= self.racers.len(),
                winners@ == finishers(self.racers@.take(j as int), best_round),
            decreases self.racers.len() - j,
        {
            proof {
                assert(self.racers@.take(j + 1).drop_last() =~= self.racers@.take(j as int));
            }
            match self.racers[j].finished_round {
                Some(round) => {
                    if round == best_round {
                        winners.push(self.racers[j].contestant);
                    }
                },
                None => {},
            }
            j += 1;
        }
        assert(self.racers@.take(j as int) =~= self.racers@);
        winners
    }

    /// The participants in the order of the ranking: by the square reached,
    /// those on the same square by the round they finished in, and those who
    /// still rank the same in the order of the line-up.
    pub fn rankings(&self) -> (results: Vec<RaceResultEntry>)
        ensures
            exists|order: Seq<int>|
                is_ranking(self@.racers, order) && results@.len() == order.len() && forall|k: int|
                    0 <= k < order.len() ==> #[trigger] results@[k] == entry_of(
                        self@.racers[order[k]],
                    ),
    {
        let mut results: Vec<RaceResultEntry> = Vec::new();
        let ghost mut order: Seq<int> = Seq::empty();
        let ghost racers = self.racers@;
        let mut i: usize = 0;
        while i < self.racers.len()
            invariant
                i <= self.racers.len(),
                racers == self.racers@,
                order.len() == i,
                results@.len() == i,
                forall|k: int| 0 <= k < order.len() ==> 0 <= #[trigger] order[k] < i,
                forall|k: int, l: int|
                    0 <= k < l < order.len() ==> precedes(
                        racers,
                        #[trigger] order[k],
                        #[trigger] order[l],
                    ),
                forall|k: int|
                    0 <= k < order.len() ==> #[trigger] results@[k] == entry_of(racers[order[k]]),
            decreases self.racers.len() - i,
        {
            let racer = self.racers[i];
            let entry = RaceResultEntry {
                user_id: racer.contestant.user_id,
                animal: racer.contestant.animal,
                position: racer.position,
                finished_round: racer.finished_round,
            };
            let mut at: usize = 0;
            while at < results.len() && !outranks(&entry, &results[at])
                invariant
                    at <= results.len(),
                    i < racers.len(),
                    entry == entry_of(racers[i as int]),
                    forall|k: int| 0 <= k < at ==> !ranks_above(entry, #[trigger] results@[k]),
                decreases results.len() - at,
            {
                at += 1;
            }
            let ghost before = results@;
            let ghost old_order = order;
            results.insert(at, entry);
            proof {
                order = old_order.insert(at as int, i as int);
                assert forall|k: int| 0 <= k < order.len() implies #[trigger] results@[k]
                    == entry_of(racers[order[k]]) && 0 <= order[k] < i + 1 by {
                    if k < at {
                        assert(order[k] == old_order[k] && results@[k] == before[k]);
                    } else if k > at {
                        assert(order[k] == old_order[k - 1] && results@[k] == before[k - 1]);
                    }
                }
                assert forall|k: int, l: int| 0 <= k < l < order.len() implies precedes(
                    racers,
                    #[trigger] order[k],
                    #[trigger] order[l],
                ) by {
                    let from = if k < at {
                        k
                    } else {
                        k - 1
                    };
                    let to = if l < at {
                        l
                    } else {
                        l - 1
                    };
                    if k == at {
                        // The new entry outranks the one it was put before,
                        // and so every one behind that.
                        assert(ranks_above(entry, before[at as int]));
                        if to > at {
                            assert(precedes(racers, old_order[at as int], old_order[to]));
                        }
                        assert(before[to] == entry_of(racers[old_order[to]]));
                        assert(before[at as int] == entry_of(racers[old_order[at as int]]));
                    } else if l == at {
                        assert(!ranks_above(entry, before[from]));
                        assert(before[from] == entry_of(racers[old_order[from]]));
                    } else {
                        assert(precedes(racers, old_order[from], old_order[to]));
                    }
                }
            }
            i += 1;
        }
        proof {
            assert(is_ranking(self@.racers, order));
        }
        results
    }

    /// The closing picture of the track, with every participant named.
    pub fn render_track(&self) -> (content: String)
        ensures
            content@ == self@.track_text(),
    {
        let mut content = String::from_str("🏁 Corrida dos Animais\n");
        content.append("Acompanhe o avanço dos participantes:\n\n");
        let ghost head = content@;
        let mut i: usize = 0;
        assert(content@ =~= head + track_lines(self@.racers, self@.track_length, 0));
        while i < self.racers.len()
            invariant
                i <= self.racers.len(),
                content@ == head + track_lines(self@.racers, self@.track_length, i as nat),
            decreases self.racers.len() - i,
        {
            let racer = self.racers[i];
            let lane = build_lane(racer.position, self.track_length, racer.contestant.animal);
            let name = mention(racer.contestant.user_id);
            let ghost so_far = content@;
            content.append(racer.contestant.animal.emoji);
            content.append(" ");
            content.append(name.as_str());
            content.append(" | ");
            content.append(lane.as_str());
            content.append("\n");
            proof {
                assert(content@ =~= so_far + track_line(self@.racers[i as int], self@.track_length));
                assert(content@ =~= head + track_lines(
                    self@.racers,
                    self@.track_length,
                    (i + 1) as nat,
                ));
            }
            i += 1;
        }
        content
    }

    /// The picture of the track during the race.
    pub fn render_simple_track(&self) -> (content: String)
        ensures
            content@ == self@.simple_track_text(),
    {
        let mut lanes: Vec<String> = Vec::new();
        let mut i: usize = 0;
        while i < self.racers.len()
            invariant
                i <= self.racers.len(),
                lanes@.len() == i,
                forall|j: int|
                    0 <= j < i ==> (#[trigger] lanes@[j])@ == simple_lane_text(
                        self@.racers[j].position as nat,
                        self@.track_length,
                        self@.racers[j].contestant.animal.emoji@,
                    ),
            decreases self.racers.len() - i,
        {
            let racer = self.racers[i];
            lanes.push(build_simple_lane(racer.position, self.track_length, racer.contestant.animal));
            i += 1;
        }
        proof {
            assert(crate::text::texts(lanes@) =~= Seq::new(
                self@.racers.len(),
                |i: int|
                    simple_lane_text(
                        self@.racers[i].position as nat,
                        self@.track_length,
                        self@.racers[i].contestant.animal.emoji@,
                    ),
            ));
        }
        join_lines(&lanes, "\n")
    }
}

/// Whether `first` ranks strictly above `second`.
pub fn outranks(first: &RaceResultEntry, second: &RaceResultEntry) -> (above: bool)
    ensures
        above == ranks_above(*first, *second),
{
    if first.position != second.position {
        first.position > second.position
    } else {
        match (first.finished_round, second.finished_round) {
            (Some(one), Some(other)) => one < other,
            (Some(_), None) => true,
            _ => false,
        }
    }
}

/// Draws a lane of the track for the closing picture.
pub fn build_lane(position: usize, track_length: usize, animal: RaceAnimal) -> (lane: String)
    ensures
        lane@ == lane_text(position as nat, track_length as nat, animal.emoji@),
{
    let progress: usize = if position < track_length {
        position
    } else {
        track_length
    };
    let remaining: usize = track_length - progress;
    let mut lane = String::new();
    push_repeated(&mut lane, '-', progress);
    lane.append(animal.emoji);
    if remaining > 0 {
        push_repeated(&mut lane, '.', remaining);
    }
    lane.append("🏁");
    if progress >= track_length {
        lane.append(" (chegou!)");
    }
    proof {
        assert(repeated('.', 0) =~= Seq::<char>::empty());
        assert(lane@ =~= lane_text(position as nat, track_length as nat, animal.emoji@));
    }
    lane
}

/// Draws a lane of the track as it is shown during the race.
pub fn build_simple_lane(position: usize, track_length: usize, animal: RaceAnimal) -> (lane: String)
    ensures
        lane@ == simple_lane_text(position as nat, track_length as nat, animal.emoji@),
{
    let progress: usize = if position < track_length {
        position
    } else {
        track_length
    };
    let mut lane = String::new();
    push_repeated(&mut lane, '-', progress);
    lane.append(animal.emoji);
    assert(lane@ =~= simple_lane_text(position as nat, track_length as nat, animal.emoji@));
    lane
}

} // verus!
