//! The Mines session: which clicks are legal, what they do to the round, and
//! what each asks of the ledger.

use super::game_state::{MinesGameState, MinesView, RevealOutcome};
use super::{CASHOUT_STEP, FORCE_CASHOUT_AFTER, MAX_WAGER, MIN_WAGER};
use crate::ledger::{lemma_debit_then_compensate, LedgerView};
use crate::session::{LedgerAction, OutcomeClass};
use crate::text::{parse_prefixed_index, prefixed_index_spec, str_eq};
use rand::rngs::StdRng;
use vstd::prelude::*;

verus! {

/// Why a wager opens no round.
#[derive(Clone, Copy, PartialEq, Eq, Structural, Debug)]
pub enum WagerError {
    BelowMinimum,
    AboveMaximum,
    InsufficientFunds,
}

/// What a button of the round's message stands for.
#[derive(Clone, Copy, PartialEq, Eq, Structural, Debug)]
pub enum MinesTarget {
    Tile(usize),
    CashOut,
    GiveUp,
}

/// What a click did.
#[derive(Clone, Copy, PartialEq, Eq, Structural, Debug)]
pub enum MinesOutcome {
    /// The board has no tile with that index.
    OffBoard,
    /// The round has already ended.
    RoundOver,
    /// The tile was open before.
    AlreadyOpened,
    /// Too few diamonds were found to cash out; `needed` more are missing.
    CashOutLocked { needed: usize },
    /// A diamond was found and the round goes on.
    Diamond { found: usize, cash_out_open: bool, needed: usize },
    /// A bomb ended the round and the wager is lost.
    Bust { lost: i64 },
    /// The round was cashed out, by the player or by itself.
    CashedOut { payout: i64, forced: bool },
    /// The player gave up early and gets the wager back.
    Refunded { amount: i64, transaction_id: i32 },
    /// The player gave up when cashing out was open and loses the wager.
    Forfeited { lost: i64 },
    /// No click came in time; the round is abandoned without a refund.
    TimedOut,
}

/// A round together with the ledger entry of its wager.
pub struct MinesSession {
    pub state: MinesGameState,
    /// The transaction that debited the wager, until it has been undone.
    pub wager_transaction: Option<i32>,
}

/// The session as a mathematical value.
pub struct MinesSessionView {
    pub state: MinesView,
    pub wager_transaction: Option<i32>,
}

impl View for MinesSession {
    type V = MinesSessionView;

    open spec fn view(&self) -> MinesSessionView {
        MinesSessionView { state: self.state@, wager_transaction: self.wager_transaction }
    }
}

/// What a button id stands for, given the prefix of the round's ids: a tile
/// where an index follows the prefix, else one of the two named buttons.
pub open spec fn target_spec(custom_id: Seq<char>, prefix: Seq<char>) -> Option<MinesTarget> {
    if tile_index_spec(custom_id, prefix) is Some {
        Some(MinesTarget::Tile(tile_index_spec(custom_id, prefix)->0))
    } else if custom_id == prefix + "cashout"@ {
        Some(MinesTarget::CashOut)
    } else if custom_id == prefix + "giveup"@ {
        Some(MinesTarget::GiveUp)
    } else {
        None
    }
}

/// The tile index that a button id carries behind the prefix, if it carries
/// one.
pub open spec fn tile_index_spec(custom_id: Seq<char>, prefix: Seq<char>) -> Option<usize> {
    prefixed_index_spec(custom_id, prefix)
}

/// Which wagers open a round, for an account that holds `balance`.
pub open spec fn wager_check(valor: int, balance: int) -> Result<(), WagerError> {
    if valor < MIN_WAGER {
        Err(WagerError::BelowMinimum)
    } else if valor > MAX_WAGER {
        Err(WagerError::AboveMaximum)
    } else if balance < valor {
        Err(WagerError::InsufficientFunds)
    } else {
        Ok(())
    }
}

impl MinesOutcome {
    /// The class of the outcome.
    pub open spec fn class_spec(self) -> OutcomeClass {
        match self {
            MinesOutcome::Diamond { .. } => OutcomeClass::Progress,
            MinesOutcome::Bust { .. }
            | MinesOutcome::CashedOut { .. }
            | MinesOutcome::Refunded { .. }
            | MinesOutcome::Forfeited { .. }
            | MinesOutcome::TimedOut => OutcomeClass::Settlement,
            MinesOutcome::OffBoard
            | MinesOutcome::RoundOver
            | MinesOutcome::AlreadyOpened
            | MinesOutcome::CashOutLocked { .. } => OutcomeClass::Rejected,
        }
    }

    /// What the outcome asks of the ledger.
    pub open spec fn ledger_action_spec(self) -> LedgerAction {
        match self {
            MinesOutcome::CashedOut { payout, .. } => LedgerAction::Credit { amount: payout },
            MinesOutcome::Refunded { transaction_id, .. } => LedgerAction::Compensate {
                transaction_id,
            },
            _ => LedgerAction::Nothing,
        }
    }

    /// The class of the outcome.
    pub fn class(&self) -> (class: OutcomeClass)
        ensures
            class == self.class_spec(),
    {
        match self {
            MinesOutcome::Diamond { .. } => OutcomeClass::Progress,
            MinesOutcome::Bust { .. } => OutcomeClass::Settlement,
            MinesOutcome::CashedOut { .. } => OutcomeClass::Settlement,
            MinesOutcome::Refunded { .. } => OutcomeClass::Settlement,
            MinesOutcome::Forfeited { .. } => OutcomeClass::Settlement,
            MinesOutcome::TimedOut => OutcomeClass::Settlement,
            MinesOutcome::OffBoard => OutcomeClass::Rejected,
            MinesOutcome::RoundOver => OutcomeClass::Rejected,
            MinesOutcome::AlreadyOpened => OutcomeClass::Rejected,
            MinesOutcome::CashOutLocked { .. } => OutcomeClass::Rejected,
        }
    }

    /// What the outcome asks of the ledger.
    pub fn ledger_action(&self) -> (action: LedgerAction)
        ensures
            action == self.ledger_action_spec(),
    {
        match self {
            MinesOutcome::CashedOut { payout, .. } => LedgerAction::Credit { amount: *payout },
            MinesOutcome::Refunded { transaction_id, .. } => LedgerAction::Compensate {
                transaction_id: *transaction_id,
            },
            _ => LedgerAction::Nothing,
        }
    }
}

impl MinesSessionView {
    /// While the round is open its wager can still be undone and the forced
    /// cash-out has not been reached; a refund has used up the wager's
    /// transaction; a cash-out paid what the diamonds had earned.
    pub open spec fn wf(self) -> bool {
        &&& self.state.wf()
        &&& !self.state.finished() ==> self.wager_transaction is Some && self.state.revealed_safe
            < FORCE_CASHOUT_AFTER
        &&& self.state.refunded ==> self.state.gave_up && self.wager_transaction is None
        &&& self.state.cashed_out_amount is Some ==> self.state.cashed_out_amount->0
            == self.state.projected_payout() && self.state.revealed_safe >= CASHOUT_STEP
    }

    /// The session after the round has been cashed out for `amount`.
    pub open spec fn cashed_out(self, state: MinesView, amount: int) -> MinesSessionView {
        MinesSessionView {
            state: MinesView { cashed_out_amount: Some(amount), ..state }.reveal_all(),
            ..self
        }
    }

    /// The session after a click on `target`, and what the click did.
    pub open spec fn select(self, target: MinesTarget) -> (MinesSessionView, MinesOutcome) {
        if self.state.finished() {
            (self, MinesOutcome::RoundOver)
        } else {
            match target {
                MinesTarget::Tile(index) => {
                    let (opened, found) = self.state.reveal_tile(index as int);
                    match found {
                        None => (self, MinesOutcome::OffBoard),
                        Some(RevealOutcome::AlreadyOpened) => (self, MinesOutcome::AlreadyOpened),
                        Some(RevealOutcome::Bomb) => (
                            MinesSessionView {
                                state: MinesView { busted: true, ..opened }.reveal_all(),
                                ..self
                            },
                            MinesOutcome::Bust { lost: self.state.wager as i64 },
                        ),
                        Some(RevealOutcome::Diamond) => if opened.force_cashout_reached() {
                            (
                                self.cashed_out(opened, opened.projected_payout()),
                                MinesOutcome::CashedOut {
                                    payout: opened.projected_payout() as i64,
                                    forced: true,
                                },
                            )
                        } else {
                            (
                                MinesSessionView { state: opened, ..self },
                                MinesOutcome::Diamond {
                                    found: opened.revealed_safe as usize,
                                    cash_out_open: opened.can_cash_out(),
                                    needed: opened.remaining_for_cashout() as usize,
                                },
                            )
                        },
                    }
                },
                MinesTarget::CashOut => if self.state.can_cash_out() {
                    (
                        self.cashed_out(self.state, self.state.projected_payout()),
                        MinesOutcome::CashedOut {
                            payout: self.state.projected_payout() as i64,
                            forced: false,
                        },
                    )
                } else {
                    (
                        self,
                        MinesOutcome::CashOutLocked {
                            needed: self.state.remaining_for_cashout() as usize,
                        },
                    )
                },
                MinesTarget::GiveUp => if self.state.revealed_safe < CASHOUT_STEP {
                    (
                        MinesSessionView {
                            state: MinesView {
                                gave_up: true,
                                refunded: true,
                                ..self.state
                            }.reveal_all(),
                            wager_transaction: None,
                        },
                        MinesOutcome::Refunded {
                            amount: self.state.wager as i64,
                            transaction_id: self.wager_transaction->0,
                        },
                    )
                } else {
                    (
                        MinesSessionView {
                            state: MinesView { gave_up: true, ..self.state }.reveal_all(),
                            ..self
                        },
                        MinesOutcome::Forfeited { lost: self.state.wager as i64 },
                    )
                },
            }
        }
    }

    /// The session after its deadline has passed without a click.
    pub open spec fn timeout(self) -> MinesSessionView {
        if self.state.finished() {
            self
        } else {
            MinesSessionView {
                state: MinesView { gave_up: true, ..self.state }.reveal_all(),
                ..self
            }
        }
    }
}

/// Decides whether `valor` may be wagered from an account that holds
/// `balance`.
pub fn check_wager(valor: i64, balance: i64) -> (checked: Result<(), WagerError>)
    ensures
        checked == wager_check(valor as int, balance as int),
{
    if valor < MIN_WAGER {
        Err(WagerError::BelowMinimum)
    } else if valor > MAX_WAGER {
        Err(WagerError::AboveMaximum)
    } else if balance < valor {
        Err(WagerError::InsufficientFunds)
    } else {
        Ok(())
    }
}

/// Reads the tile index that a button id carries behind the prefix.
pub fn parse_tile_index(custom_id: &str, prefix: &str) -> (index: Option<usize>)
    ensures
        index == tile_index_spec(custom_id@, prefix@),
{
    parse_prefixed_index(custom_id, prefix)
}

/// Reads what a button id stands for.
pub fn parse_target(custom_id: &str, prefix: &str) -> (target: Option<MinesTarget>)
    ensures
        target == target_spec(custom_id@, prefix@),
{
    match parse_tile_index(custom_id, prefix) {
        Some(index) => Some(MinesTarget::Tile(index)),
        None => {
            let mut cashout_id = String::from_str(prefix);
            cashout_id.append("cashout");
            let mut giveup_id = String::from_str(prefix);
            giveup_id.append("giveup");
            if str_eq(custom_id, cashout_id.as_str()) {
                Some(MinesTarget::CashOut)
            } else if str_eq(custom_id, giveup_id.as_str()) {
                Some(MinesTarget::GiveUp)
            } else {
                None
            }
        },
    }
}

impl MinesSession {
    /// The session's invariant, read off its view.
    pub open spec fn wf(&self) -> bool {
        self@.wf()
    }

    /// Opens a session on a round whose wager was debited as
    /// `transaction_id`.
    pub fn open(state: MinesGameState, transaction_id: i32) -> (session: MinesSession)
        requires
            state.wf(),
            !state@.finished(),
            !state@.refunded,
            state@.revealed_safe == 0,
        ensures
            session.wf(),
            session@ == (MinesSessionView { state: state@, wager_transaction: Some(transaction_id) }),
    {
        MinesSession { state, wager_transaction: Some(transaction_id) }
    }

    /// Whether the session has ended.
    pub fn is_finished(&self) -> (finished: bool)
        ensures
            finished == self@.state.finished(),
    {
        self.state.is_finished()
    }

    /// Ends the round with a cash-out of what the diamonds have earned.
    fn cash_out(&mut self, forced: bool) -> (outcome: MinesOutcome)
        requires
            old(self).state.wf(),
            !old(self)@.state.finished(),
            old(self)@.state.revealed_safe >= CASHOUT_STEP,
        ensures
            final(self)@ == old(self)@.cashed_out(
                old(self)@.state,
                old(self)@.state.projected_payout(),
            ),
            outcome == (MinesOutcome::CashedOut {
                payout: old(self)@.state.projected_payout() as i64,
                forced,
            }),
            final(self).state.wf(),
    {
        let payout: i64 = self.state.projected_payout();
        self.state.cashed_out_amount = Some(payout);
        self.state.reveal_all();
        MinesOutcome::CashedOut { payout, forced }
    }

    /// Applies a click to the session. Once the round has ended no click
    /// changes anything.
    pub fn select(&mut self, target: MinesTarget) -> (outcome: MinesOutcome)
        requires
            old(self).wf(),
        ensures
            final(self).wf(),
            final(self)@ == old(self)@.select(target).0,
            outcome == old(self)@.select(target).1,
            old(self)@.state.finished() ==> final(self)@ == old(self)@ && outcome.class_spec()
                == OutcomeClass::Rejected,
            outcome.class_spec() == OutcomeClass::Rejected ==> final(self)@ == old(self)@,
            outcome.class_spec() == OutcomeClass::Settlement <==> final(self)@.state.finished()
                && !old(self)@.state.finished(),
    {
        if self.state.is_finished() {
            return MinesOutcome::RoundOver;
        }
        match target {
            MinesTarget::Tile(index) => {
                match self.state.reveal_tile(index) {
                    None => MinesOutcome::OffBoard,
                    Some(RevealOutcome::AlreadyOpened) => MinesOutcome::AlreadyOpened,
                    Some(RevealOutcome::Bomb) => {
                        self.state.busted = true;
                        self.state.reveal_all();
                        MinesOutcome::Bust { lost: self.state.wager }
                    },
                    Some(RevealOutcome::Diamond) => {
                        if self.state.force_cashout_reached() {
                            self.cash_out(true)
                        } else {
                            MinesOutcome::Diamond {
                                found: self.state.revealed_safe,
                                cash_out_open: self.state.can_cash_out(),
                                needed: self.state.remaining_for_cashout(),
                            }
                        }
                    },
                }
            },
            MinesTarget::CashOut => {
                if self.state.can_cash_out() {
                    self.cash_out(false)
                } else {
                    MinesOutcome::CashOutLocked { needed: self.state.remaining_for_cashout() }
                }
            },
            MinesTarget::GiveUp => {
                self.state.gave_up = true;
                if self.state.revealed_safe < CASHOUT_STEP {
                    let transaction_id: i32 = match self.wager_transaction.take() {
                        Some(id) => id,
                        None => 0,
                    };
                    self.state.refunded = true;
                    self.state.reveal_all();
                    MinesOutcome::Refunded { amount: self.state.wager, transaction_id }
                } else {
                    self.state.reveal_all();
                    MinesOutcome::Forfeited { lost: self.state.wager }
                }
            },
        }
    }

    /// Abandons the round after its deadline has passed: the board is shown
    /// and nothing is refunded. A round that has ended stays as it is.
    pub fn timeout(&mut self) -> (outcome: MinesOutcome)
        requires
            old(self).wf(),
        ensures
            final(self).wf(),
            final(self)@ == old(self)@.timeout(),
            final(self)@.state.finished(),
            outcome == if old(self)@.state.finished() {
                MinesOutcome::RoundOver
            } else {
                MinesOutcome::TimedOut
            },
    {
        if self.state.is_finished() {
            return MinesOutcome::RoundOver;
        }
        self.state.gave_up = true;
        self.state.reveal_all();
        MinesOutcome::TimedOut
    }
}

/// Opens a session on a fresh round with a board laid out at random.
pub fn start(wager: i64, transaction_id: i32, rng: &mut StdRng) -> (session: MinesSession)
    requires
        MIN_WAGER <= wager <= MAX_WAGER,
    ensures
        session.wf(),
        !session@.state.finished(),
        session@.state.wager == wager,
        session@.state.revealed_safe == 0,
        session@.wager_transaction == Some(transaction_id),
{
    MinesSession::open(MinesGameState::new(wager, rng), transaction_id)
}

/// Whether a board has grown out of another: it hides what the other hid,
/// and every tile that lay open there lies open here.
pub open spec fn grown_from(after: MinesView, before: MinesView) -> bool {
    &&& after.tiles.len() == before.tiles.len()
    &&& forall|i: int|
        0 <= i < before.tiles.len() ==> (#[trigger] after.tiles[i]).is_bomb
            == before.tiles[i].is_bomb && (before.tiles[i].revealed ==> after.tiles[i].revealed)
    &&& after.revealed_safe >= before.revealed_safe
    &&& after.wager == before.wager
    &&& before.finished() ==> after.finished()
}

/// Whatever is clicked and whenever the deadline passes, no tile changes what
/// it hides, no open tile is hidden again, the count of diamonds never falls,
/// the wager stays, and a round that has ended stays ended.
pub proof fn lemma_rounds_only_grow(session: MinesSessionView, target: MinesTarget)
    ensures
        grown_from(session.select(target).0.state, session.state),
        grown_from(session.timeout().state, session.state),
{
}

/// A player who gives up before cashing out has opened loses nothing: the
/// compensation that the session asks for undoes the debit of the wager, so
/// that every balance and the whole log are as they were before the wager
/// was placed. Clicks in between do not matter, as long as the ledger was
/// not touched.
pub proof fn lemma_early_give_up_is_free(
    ledger: LedgerView,
    user_id: int,
    session: MinesSessionView,
    kind: Seq<char>,
    context: Option<Seq<char>>,
    created_at: Seq<char>,
)
    requires
        ledger.wf(),
        session.wf(),
        !session.state.finished(),
        session.state.revealed_safe < CASHOUT_STEP,
        ledger.debit(user_id, session.state.wager, kind, context, created_at) matches Ok(
            (_, receipt),
        ) && session.wager_transaction == receipt.transaction_id,
    ensures
        ({
            let (debited, _) = ledger.debit(
                user_id,
                session.state.wager,
                kind,
                context,
                created_at,
            )->Ok_0;
            let (closed, outcome) = session.select(MinesTarget::GiveUp);
            &&& closed.state.finished()
            &&& closed.state.refunded
            &&& outcome.ledger_action_spec() matches LedgerAction::Compensate { transaction_id }
            &&& debited.compensate(transaction_id as int) matches Ok((restored, _))
            &&& restored.accounts == ledger.accounts
            &&& restored.log == ledger.log
        }),
{
    lemma_debit_then_compensate(ledger, user_id, session.state.wager, kind, context, created_at);
}

/// A player who gives up once cashing out has opened forfeits the wager: the
/// session asks nothing of the ledger.
pub proof fn lemma_late_give_up_forfeits(session: MinesSessionView)
    requires
        session.wf(),
        !session.state.finished(),
        session.state.revealed_safe >= CASHOUT_STEP,
    ensures
        session.select(MinesTarget::GiveUp).1 == (MinesOutcome::Forfeited {
            lost: session.state.wager as i64,
        }),
        session.select(MinesTarget::GiveUp).1.ledger_action_spec() == LedgerAction::Nothing,
        !session.select(MinesTarget::GiveUp).0.state.refunded,
{
}

} // verus!
