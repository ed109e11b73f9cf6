//! The lobby of a race: players join and pick animals until the host starts
//! or cancels.

use super::state::{RaceAnimal, RaceContestant};
use crate::format::discord::{mention, mention_text};
use crate::text::{
    decimal, has_prefix, join_lines, joined, push_char, push_decimal, starts_with, str_eq, texts,
    to_chars,
};
use vstd::prelude::*;

verus! {

/// What the id of an animal's button begins with; the animal's id follows.
pub const JOIN_PREFIX: &'static str = "race_join:";

/// The id of the button that starts the race.
pub const START_BUTTON_ID: &'static str = "race_start";

/// The id of the button that cancels the race.
pub const CANCEL_BUTTON_ID: &'static str = "race_cancel";

/// What a click in the lobby did.
#[derive(Clone, Copy, PartialEq, Eq, Structural, Debug)]
pub enum LobbyOutcome {
    /// Nothing changed: the button is unknown, the click was not the host's
    /// to make, or the choice could not be taken or was the same as before.
    Ignored,
    /// Someone joined or changed animals.
    Updated,
    /// The host tried to start with fewer than `needed` participants.
    NotEnoughParticipants { needed: usize },
    /// The host started the race.
    Started,
    /// The host cancelled the race.
    Cancelled,
}

/// A lobby that is open.
pub struct RaceLobby {
    host: u64,
    participants: Vec<RaceContestant>,
    min_participants: usize,
    available_animals: Vec<RaceAnimal>,
}

/// The lobby as a mathematical value.
pub struct LobbyView {
    pub host: u64,
    pub participants: Seq<RaceContestant>,
    pub min_participants: nat,
    pub available_animals: Seq<RaceAnimal>,
}

impl View for RaceLobby {
    type V = LobbyView;

    closed spec fn view(&self) -> LobbyView {
        LobbyView {
            host: self.host,
            participants: self.participants@,
            min_participants: self.min_participants as nat,
            available_animals: self.available_animals@,
        }
    }
}

/// What a button of the lobby stands for.
pub enum LobbyTarget {
    Join { animal_id: String },
    Start,
    Cancel,
}

/// What a button id of the lobby stands for: an animal to join with where
/// the id begins with [`JOIN_PREFIX`], else one of the two named buttons.
pub open spec fn target_spec(custom_id: Seq<char>) -> Option<LobbyTargetView> {
    if has_prefix(custom_id, JOIN_PREFIX@) {
        Some(LobbyTargetView::Join { animal_id: custom_id.skip(JOIN_PREFIX@.len() as int) })
    } else if custom_id == START_BUTTON_ID@ {
        Some(LobbyTargetView::Start)
    } else if custom_id == CANCEL_BUTTON_ID@ {
        Some(LobbyTargetView::Cancel)
    } else {
        None
    }
}

/// A button of the lobby as a mathematical value.
pub enum LobbyTargetView {
    Join { animal_id: Seq<char> },
    Start,
    Cancel,
}

impl View for LobbyTarget {
    type V = LobbyTargetView;

    open spec fn view(&self) -> LobbyTargetView {
        match self {
            LobbyTarget::Join { animal_id } => LobbyTargetView::Join { animal_id: animal_id@ },
            LobbyTarget::Start => LobbyTargetView::Start,
            LobbyTarget::Cancel => LobbyTargetView::Cancel,
        }
    }
}

/// The line of a participant in the list.
pub open spec fn participant_line(place: int, participant: RaceContestant) -> Seq<char> {
    decimal((place + 1) as nat) + ". "@ + participant.animal.emoji@ + " "@ + mention_text(
        participant.user_id,
    )
}

impl LobbyView {
    /// No player has joined twice and no animal runs for two players.
    pub open spec fn wf(self) -> bool {
        forall|i: int, j: int|
            0 <= i < j < self.participants.len() ==> (#[trigger] self.participants[i]).user_id
                != (#[trigger] self.participants[j]).user_id && self.participants[i].animal.id@
                != self.participants[j].animal.id@
    }

    /// Enough players have joined for the race to start.
    pub open spec fn ready_to_start(self) -> bool {
        self.participants.len() >= self.min_participants
    }

    /// Whether the first `count` animals on offer include none with the id
    /// `animal_id`.
    pub open spec fn not_offered_among(self, animal_id: Seq<char>, count: int) -> bool {
        forall|j: int| 0 <= j < count ==> (#[trigger] self.available_animals[j]).id@ != animal_id
    }

    /// The place of the first animal on offer that has the id `animal_id`.
    pub open spec fn animal_at(self, animal_id: Seq<char>) -> Option<int> {
        if exists|i: int|
            0 <= i < self.available_animals.len() && (#[trigger] self.available_animals[i]).id@
                == animal_id {
            Some(
                choose|i: int|
                    0 <= i < self.available_animals.len() && (#[trigger] self.available_animals[i]).id@
                        == animal_id && self.not_offered_among(animal_id, i),
            )
        } else {
            None
        }
    }

    /// The place of the participant `user_id`.
    pub open spec fn seat_of(self, user_id: u64) -> Option<int> {
        if exists|i: int|
            0 <= i < self.participants.len() && (#[trigger] self.participants[i]).user_id == user_id {
            Some(
                choose|i: int|
                    0 <= i < self.participants.len() && (#[trigger] self.participants[i]).user_id
                        == user_id,
            )
        } else {
            None
        }
    }

    /// Whether the animal `animal_id` runs for someone other than `user_id`.
    pub open spec fn taken_by_other(self, animal_id: Seq<char>, user_id: u64) -> bool {
        exists|i: int|
            0 <= i < self.participants.len() && (#[trigger] self.participants[i]).animal.id@
                == animal_id && self.participants[i].user_id != user_id
    }

    /// Whether the animal `animal_id` runs for someone.
    pub open spec fn is_animal_taken(self, animal_id: Seq<char>) -> bool {
        exists|i: int|
            0 <= i < self.participants.len() && (#[trigger] self.participants[i]).animal.id@
                == animal_id
    }

    /// The lobby after `user_id` has asked for the animal `animal_id`, and
    /// what the request did.
    ///
    /// The request is ignored if no such animal is on offer, if a newcomer
    /// finds every animal taken, if the animal runs for someone else, or if
    /// the player rides that animal already. Else the player changes to the
    /// animal, or joins with it at the end of the list.
    pub open spec fn join(self, user_id: u64, animal_id: Seq<char>) -> (LobbyView, LobbyOutcome) {
        match self.animal_at(animal_id) {
            None => (self, LobbyOutcome::Ignored),
            Some(offered) => {
                let animal = self.available_animals[offered];
                if self.seat_of(user_id) is None && self.participants.len()
                    >= self.available_animals.len() {
                    (self, LobbyOutcome::Ignored)
                } else if self.taken_by_other(animal_id, user_id) {
                    (self, LobbyOutcome::Ignored)
                } else {
                    match self.seat_of(user_id) {
                        Some(seat) => if self.participants[seat].animal.id@ == animal_id {
                            (self, LobbyOutcome::Ignored)
                        } else {
                            (
                                LobbyView {
                                    participants: self.participants.update(
                                        seat,
                                        RaceContestant { user_id, animal },
                                    ),
                                    ..self
                                },
                                LobbyOutcome::Updated,
                            )
                        },
                        None => (
                            LobbyView {
                                participants: self.participants.push(
                                    RaceContestant { user_id, animal },
                                ),
                                ..self
                            },
                            LobbyOutcome::Updated,
                        ),
                    }
                }
            },
        }
    }

    /// The lobby after `actor` has clicked `target`, and what the click did.
    /// Only the host starts or cancels, and starting takes enough
    /// participants.
    pub open spec fn handle(self, actor: u64, target: LobbyTargetView) -> (LobbyView, LobbyOutcome) {
        match target {
            LobbyTargetView::Join { animal_id } => self.join(actor, animal_id),
            LobbyTargetView::Start => if actor != self.host {
                (self, LobbyOutcome::Ignored)
            } else if !self.ready_to_start() {
                (
                    self,
                    LobbyOutcome::NotEnoughParticipants { needed: self.min_participants as usize },
                )
            } else {
                (self, LobbyOutcome::Started)
            },
            LobbyTargetView::Cancel => if actor != self.host {
                (self, LobbyOutcome::Ignored)
            } else {
                (self, LobbyOutcome::Cancelled)
            },
        }
    }

    /// The list of the participants, one per line.
    pub open spec fn participant_list(self) -> Seq<char> {
        if self.participants.len() == 0 {
            "Ninguém entrou ainda."@
        } else {
            joined(
                Seq::new(
                    self.participants.len(),
                    |i: int| participant_line(i, self.participants[i]),
                ),
                "\n"@,
            )
        }
    }
}

/// Reads what a button id of the lobby stands for.
pub fn parse_target(custom_id: &str) -> (target: Option<LobbyTarget>)
    ensures
        match target_spec(custom_id@) {
            Some(wanted) => target is Some && target->0@ == wanted,
            None => target is None,
        },
{
    let id = to_chars(custom_id);
    let prefix = to_chars(JOIN_PREFIX);
    if starts_with(&id, &prefix) {
        let mut animal_id = String::new();
        let mut i: usize = prefix.len();
        assert(animal_id@ =~= id@.subrange(prefix.len() as int, i as int));
        while i < id.len()
            invariant
                prefix.len() <= i <= id.len(),
                animal_id@ == id@.subrange(prefix.len() as int, i as int),
            decreases id.len() - i,
        {
            push_char(&mut animal_id, id[i]);
            i += 1;
            assert(animal_id@ =~= id@.subrange(prefix.len() as int, i as int));
        }
        assert(animal_id@ =~= custom_id@.skip(JOIN_PREFIX@.len() as int));
        Some(LobbyTarget::Join { animal_id })
    } else if str_eq(custom_id, START_BUTTON_ID) {
        Some(LobbyTarget::Start)
    } else if str_eq(custom_id, CANCEL_BUTTON_ID) {
        Some(LobbyTarget::Cancel)
    } else {
        None
    }
}

impl RaceLobby {
    /// The lobby's invariant, read off its view.
    pub open spec fn wf(&self) -> bool {
        self@.wf()
    }

    /// An empty lobby.
    pub fn new(host: u64, min_participants: usize, available_animals: Vec<RaceAnimal>) -> (lobby:
        RaceLobby)
        ensures
            lobby.wf(),
            lobby@ == (LobbyView {
                host,
                participants: Seq::empty(),
                min_participants: min_participants as nat,
                available_animals: available_animals@,
            }),
    {
        RaceLobby { host, participants: Vec::new(), min_participants, available_animals }
    }

    /// The player who opened the lobby.
    pub fn host(&self) -> (host: u64)
        ensures
            host == self@.host,
    {
        self.host
    }

    /// The players who have joined, in the order in which they did.
    pub fn participants(&self) -> (participants: &Vec<RaceContestant>)
        ensures
            participants@ == self@.participants,
    {
        &self.participants
    }

    /// The animals on offer.
    pub fn available_animals(&self) -> (animals: &Vec<RaceAnimal>)
        ensures
            animals@ == self@.available_animals,
    {
        &self.available_animals
    }

    /// The fewest participants with which the race can start.
    pub fn min_participants(&self) -> (least: usize)
        ensures
            least == self@.min_participants,
    {
        self.min_participants
    }

    /// Whether enough players have joined for the race to start.
    pub fn ready_to_start(&self) -> (ready: bool)
        ensures
            ready == self@.ready_to_start(),
    {
        self.participants.len() >= self.min_participants
    }

    /// Whether the animal `animal_id` runs for someone.
    pub fn is_animal_taken(&self, animal_id: &str) -> (taken: bool)
        ensures
            taken == self@.is_animal_taken(animal_id@),
    {
        let mut i: usize = 0;
        while i < self.participants.len()
            invariant
                i <= self.participants.len(),
                forall|j: int| 0 <= j < i ==> (#[trigger] self.participants@[j]).animal.id@
                    != animal_id@,
            decreases self.participants.len() - i,
        {
            if str_eq(self.participants[i].animal.id, animal_id) {
                assert(self@.participants[i as int].animal.id@ == animal_id@);
                return true;
            }
            i += 1;
        }
        false
    }

    /// The first animal on offer that has the id `animal_id`.
    pub fn find_animal(&self, animal_id: &str) -> (animal: Option<RaceAnimal>)
        ensures
            match self@.animal_at(animal_id@) {
                Some(offered) => animal == Some(self@.available_animals[offered]),
                None => animal is None,
            },
            animal matches Some(found) ==> found.id@ == animal_id@,
    {
        let mut i: usize = 0;
        while i < self.available_animals.len()
            invariant
                i <= self.available_animals.len(),
                self@.not_offered_among(animal_id@, i as int),
            decreases self.available_animals.len() - i,
        {
            if str_eq(self.available_animals[i].id, animal_id) {
                proof {
                    let found = self@.animal_at(animal_id@)->0;
                    assert(self@.available_animals[i as int].id@ == animal_id@);
                    if found < i {
                        assert(self@.available_animals[found].id@ != animal_id@);
                    } else if i < found {
                        assert(self@.not_offered_among(animal_id@, found));
                        assert(self@.available_animals[i as int].id@ != animal_id@);
                    }
                }
                return Some(self.available_animals[i]);
            }
            i += 1;
        }
        None
    }

    /// The place of the participant `user_id`.
    fn find_seat(&self, user_id: u64) -> (seat: Option<usize>)
        requires
            self.wf(),
        ensures
            match seat {
                Some(at) => self@.seat_of(user_id) == Some(at as int) && at
                    < self.participants.len() && self.participants@[at as int].user_id == user_id,
                None => self@.seat_of(user_id) is None,
            },
    {
        let mut i: usize = 0;
        while i < self.participants.len()
            invariant
                self.wf(),
                i <= self.participants.len(),
                forall|j: int| 0 <= j < i ==> (#[trigger] self.participants@[j]).user_id != user_id,
            decreases self.participants.len() - i,
        {
            if self.participants[i].user_id == user_id {
                proof {
                    let found = self@.seat_of(user_id)->0;
                    assert(self@.participants[i as int].user_id == user_id);
                    if found < i {
                        assert(self@.participants[found].user_id != self@.participants[i as int].user_id);
                    } else if i < found {
                        assert(self@.participants[i as int].user_id != self@.participants[found].user_id);
                    }
                }
                return Some(i);
            }
            i += 1;
        }
        None
    }

    /// Whether the animal `animal_id` runs for someone other than `user_id`.
    fn is_taken_by_other(&self, animal_id: &str, user_id: u64) -> (taken: bool)
        ensures
            taken == self@.taken_by_other(animal_id@, user_id),
    {
        let mut i: usize = 0;
        while i < self.participants.len()
            invariant
                i <= self.participants.len(),
                forall|j: int|
                    0 <= j < i ==> !((#[trigger] self.participants@[j]).animal.id@ == animal_id@
                        && self.participants@[j].user_id != user_id),
            decreases self.participants.len() - i,
        {
            if str_eq(self.participants[i].animal.id, animal_id) && self.participants[i].user_id
                != user_id {
                assert(self@.participants[i as int].animal.id@ == animal_id@
                    && self@.participants[i as int].user_id != user_id);
                return true;
            }
            i += 1;
        }
        false
    }

    /// Handles the request of `user_id` to run with the animal `animal_id`.
    pub fn handle_join(&mut self, user_id: u64, animal_id: &str) -> (outcome: LobbyOutcome)
        requires
            old(self).wf(),
        ensures
            final(self).wf(),
            final(self)@ == old(self)@.join(user_id, animal_id@).0,
            outcome == old(self)@.join(user_id, animal_id@).1,
            outcome == LobbyOutcome::Ignored ==> final(self)@ == old(self)@,
    {
        let animal = match self.find_animal(animal_id) {
            Some(animal) => animal,
            None => {
                return LobbyOutcome::Ignored;
            },
        };
        assert(animal.id@ == animal_id@);
        let seat = self.find_seat(user_id);
        if seat.is_none() && self.participants.len() >= self.available_animals.len() {
            return LobbyOutcome::Ignored;
        }
        if self.is_taken_by_other(animal_id, user_id) {
            return LobbyOutcome::Ignored;
        }
        assert forall|k: int| 0 <= k < self@.participants.len() implies (#[trigger] self@.participants[k]).animal.id@
            != animal_id@ || self@.participants[k].user_id == user_id by {
            if self@.participants[k].animal.id@ == animal_id@ && self@.participants[k].user_id
                != user_id {
                assert(self@.taken_by_other(animal_id@, user_id));
            }
        }
        match seat {
            Some(at) => {
                if str_eq(self.participants[at].animal.id, animal.id) {
                    LobbyOutcome::Ignored
                } else {
                    self.participants[at].animal = animal;
                    proof {
                        assert(self@.participants =~= old(self)@.participants.update(
                            at as int,
                            RaceContestant { user_id, animal },
                        ));
                        assert forall|i: int, j: int|
                            0 <= i < j < self@.participants.len() implies (#[trigger] self@.participants[i]).user_id
                            != (#[trigger] self@.participants[j]).user_id
                            && self@.participants[i].animal.id@ != self@.participants[j].animal.id@ by {
                            assert(old(self)@.participants[i].user_id != old(self)@.participants[j].user_id);
                        }
                    }
                    LobbyOutcome::Updated
                }
            },
            None => {
                self.participants.push(RaceContestant { user_id, animal });
                proof {
                    assert forall|i: int, j: int|
                        0 <= i < j < self@.participants.len() implies (#[trigger] self@.participants[i]).user_id
                        != (#[trigger] self@.participants[j]).user_id
                        && self@.participants[i].animal.id@ != self@.participants[j].animal.id@ by {
                        if j < old(self)@.participants.len() {
                            assert(old(self)@.participants[i].user_id != old(self)@.participants[j].user_id);
                        } else {
                            assert(self@.participants[i] == old(self)@.participants[i]);
                        }
                    }
                }
                LobbyOutcome::Updated
            },
        }
    }

    /// Handles a click of `actor` in the lobby. Whatever is clicked, the
    /// participants change only when someone joins or changes animals.
    pub fn handle(&mut self, actor: u64, target: &LobbyTarget) -> (outcome: LobbyOutcome)
        requires
            old(self).wf(),
        ensures
            final(self).wf(),
            final(self)@ == old(self)@.handle(actor, target@).0,
            outcome == old(self)@.handle(actor, target@).1,
            outcome != LobbyOutcome::Updated ==> final(self)@ == old(self)@,
            outcome == LobbyOutcome::Started ==> actor == final(self)@.host && final(self)@.ready_to_start(),
            outcome == LobbyOutcome::Cancelled ==> actor == final(self)@.host,
    {
        match target {
            LobbyTarget::Join { animal_id } => self.handle_join(actor, animal_id.as_str()),
            LobbyTarget::Start => {
                if actor != self.host {
                    LobbyOutcome::Ignored
                } else if !self.ready_to_start() {
                    LobbyOutcome::NotEnoughParticipants { needed: self.min_participants }
                } else {
                    LobbyOutcome::Started
                }
            },
            LobbyTarget::Cancel => {
                if actor != self.host {
                    LobbyOutcome::Ignored
                } else {
                    LobbyOutcome::Cancelled
                }
            },
        }
    }

    /// The list of the participants, one per line.
    pub fn participant_list(&self) -> (list: String)
        requires
            self@.participants.len() < u64::MAX,
        ensures
            list@ == self@.participant_list(),
    {
        if self.participants.len() == 0 {
            return String::from_str("Ninguém entrou ainda.");
        }
        let mut lines: Vec<String> = Vec::new();
        let mut i: usize = 0;
        while i < self.participants.len()
            invariant
                i <= self.participants.len(),
                self@.participants.len() < u64::MAX,
                lines@.len() == i,
                forall|j: int|
                    0 <= j < i ==> (#[trigger] lines@[j])@ == participant_line(
                        j,
                        self@.participants[j],
                    ),
            decreases self.participants.len() - i,
        {
            let participant = self.participants[i];
            let mut line = String::new();
            push_decimal(&mut line, i as u64 + 1);
            line.append(". ");
            line.append(participant.animal.emoji);
            line.append(" ");
            let name = mention(participant.user_id);
            line.append(name.as_str());
            assert(line@ =~= participant_line(i as int, participant));
            lines.push(line);
            i += 1;
        }
        proof {
            assert(texts(lines@) =~= Seq::new(
                self@.participants.len(),
                |i: int| participant_line(i, self@.participants[i]),
            ));
        }
        join_lines(&lines, "\n")
    }
}

} // verus!
