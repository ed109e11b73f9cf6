//! Claiming a reward: when it is available, what it pays, and what the claim
//! leaves behind.

use super::reward_kind::RewardKind;
use super::{DIAMOND_ODDS, MAX_DIAMONDS, MIN_DIAMONDS};
use crate::clock::{
    is_next_reset, next_reset_from, parse_rfc3339, rfc3339_instant, ResetTime, Timestamp,
};
use crate::ledger::{
    credit_balance, credit_balance_spec, AccountView, Currency, Ledger, LedgerError, LedgerView,
    UserModel,
};
use crate::random::{random_range, random_ratio};
use crate::text::str_eq;
use rand::rngs::StdRng;
use vstd::prelude::*;

verus! {

/// What is stored of one reward of one player.
#[derive(Clone, Debug, PartialEq)]
pub struct RewardStateModel {
    pub id: i32,
    pub user_id: i32,
    pub reward_type: String,
    pub last_claimed_at: Option<String>,
    pub next_reset_at: Option<String>,
    pub total_claims: i64,
}

/// What a claim was drawn to pay.
#[derive(Clone, Copy, PartialEq, Eq, Structural, Debug)]
pub struct RewardRoll {
    pub money: i64,
    pub diamonds: Option<i64>,
}

/// What a claim pays and what it leaves in the reward's state.
#[derive(Clone, Copy, PartialEq, Eq, Structural, Debug)]
pub struct ClaimPlan {
    pub money: i64,
    pub diamonds: Option<i64>,
    pub total_claims: i64,
    pub last_claimed_at: Timestamp,
    pub next_reset_at: Timestamp,
}

/// What a click on a reward's button came to.
#[derive(Clone, Copy, PartialEq, Eq, Structural, Debug)]
pub enum ClaimOutcome {
    /// The reward was available and is paid as planned.
    Claimed(ClaimPlan),
    /// The reward was claimed before and resets at `ready_at`.
    Cooldown { ready_at: Timestamp },
    /// The reward was available, but its next reset lies beyond the calendar.
    ClockOutOfRange,
}

impl RewardStateModel {
    /// The instant that the stored text of the next reset names, if it names
    /// one.
    pub open spec fn next_reset_spec(&self) -> Option<Timestamp> {
        match self.next_reset_at {
            Some(text) => rfc3339_instant(text@),
            None => None,
        }
    }

    /// The instant from which the reward can be claimed again, if one is
    /// stored and can be read.
    pub fn next_reset_datetime(&self) -> (ready_at: Option<Timestamp>)
        ensures
            ready_at == self.next_reset_spec(),
    {
        match &self.next_reset_at {
            Some(text) => parse_rfc3339(text.as_str()),
            None => None,
        }
    }
}

/// What a claim has to know of the claims before it.
#[derive(Clone, Copy, PartialEq, Eq, Structural, Debug)]
pub struct PreviousClaim {
    /// The instant from which the reward can be claimed again, if one is
    /// stored and can be read.
    pub ready_at: Option<Timestamp>,
    /// How often the reward was claimed.
    pub total_claims: i64,
}

/// Whether a reward that rests until `ready_at` can be claimed at `now`:
/// always where no such instant is known, else from that instant on.
pub open spec fn available_from_spec(ready_at: Option<Timestamp>, now: Timestamp) -> bool {
    match ready_at {
        None => true,
        Some(ready_at) => now.at_or_after_spec(ready_at),
    }
}

/// Whether a reward can be claimed at `now`: always where nothing is stored
/// of it or no next reset can be read, else from its next reset on.
pub open spec fn available_spec(state: Option<&RewardStateModel>, now: Timestamp) -> bool {
    match state {
        None => true,
        Some(state) => available_from_spec(state.next_reset_spec(), now),
    }
}

/// What is stored of the claims before, as a claim needs it.
pub open spec fn previous_of(state: Option<&RewardStateModel>) -> Option<PreviousClaim> {
    match state {
        None => None,
        Some(state) => Some(
            PreviousClaim { ready_at: state.next_reset_spec(), total_claims: state.total_claims },
        ),
    }
}

/// Whether `roll` is something that a claim of `kind` can be drawn to pay.
pub open spec fn roll_in_range(kind: RewardKind, roll: RewardRoll) -> bool {
    &&& kind.money_range_spec().0 <= roll.money <= kind.money_range_spec().1
    &&& roll.diamonds matches Some(amount) ==> MIN_DIAMONDS <= amount <= MAX_DIAMONDS
}

/// What a click on the button of a reward comes to, given what is known of
/// the claims before, what was drawn and when the reward would next reset: a
/// reward that rests is turned away, and any other is paid as drawn, counted,
/// and set to rest until its next reset.
pub open spec fn plan_claim_from_spec(
    previous: Option<PreviousClaim>,
    now: Timestamp,
    roll: RewardRoll,
    next_reset: Option<Timestamp>,
) -> ClaimOutcome {
    let ready_at = match previous {
        Some(previous) => previous.ready_at,
        None => None,
    };
    if available_from_spec(ready_at, now) {
        match next_reset {
            None => ClaimOutcome::ClockOutOfRange,
            Some(next_reset_at) => ClaimOutcome::Claimed(
                ClaimPlan {
                    money: roll.money,
                    diamonds: roll.diamonds,
                    total_claims: match previous {
                        Some(previous) => (previous.total_claims + 1) as i64,
                        None => 1,
                    },
                    last_claimed_at: now,
                    next_reset_at,
                },
            ),
        }
    } else {
        ClaimOutcome::Cooldown { ready_at: ready_at->0 }
    }
}

/// What a click on the button of a reward comes to, given what is stored of
/// the reward, what was drawn and when the reward would next reset.
pub open spec fn plan_claim_spec(
    state: Option<&RewardStateModel>,
    now: Timestamp,
    roll: RewardRoll,
    next_reset: Option<Timestamp>,
) -> ClaimOutcome {
    plan_claim_from_spec(previous_of(state), now, roll, next_reset)
}

/// Finds the first state that is stored under the name of `kind`.
pub fn find_state(states: &Vec<RewardStateModel>, kind: RewardKind) -> (found: Option<usize>)
    ensures
        match found {
            Some(at) => at < states.len() && states@[at as int].reward_type@ == kind.db_name_spec()
                && forall|j: int| 0 <= j < at ==> states@[j].reward_type@ != kind.db_name_spec(),
            None => forall|j: int| 0 <= j < states.len() ==> states@[j].reward_type@
                != kind.db_name_spec(),
        },
{
    let mut i: usize = 0;
    while i < states.len()
        invariant
            i <= states.len(),
            forall|j: int| 0 <= j < i ==> states@[j].reward_type@ != kind.db_name_spec(),
        decreases states.len() - i,
    {
        if str_eq(states[i].reward_type.as_str(), kind.db_name()) {
            return Some(i);
        }
        i += 1;
    }
    None
}

/// Whether a reward that rests until `ready_at` can be claimed at `now`.
pub fn is_available_from(ready_at: Option<Timestamp>, now: Timestamp) -> (available: bool)
    ensures
        available == available_from_spec(ready_at, now),
{
    match ready_at {
        None => true,
        Some(ready_at) => now.at_or_after(&ready_at),
    }
}

/// Whether a reward can be claimed at `now`.
pub fn is_reward_available(state: Option<&RewardStateModel>, now: Timestamp) -> (available: bool)
    ensures
        available == available_spec(state, now),
{
    match state {
        None => true,
        Some(state) => is_available_from(state.next_reset_datetime(), now),
    }
}

/// Draws what a claim of `kind` pays: coins from the reward's range, and in
/// one claim of [`DIAMOND_ODDS`] a few diamonds.
pub fn roll_reward(kind: RewardKind, rng: &mut StdRng) -> (roll: RewardRoll)
    ensures
        roll_in_range(kind, roll),
{
    let (min_cash, max_cash) = kind.money_range();
    let money: i64 = random_range(rng, min_cash as u64, max_cash as u64) as i64;
    let diamonds: Option<i64> = if random_ratio(rng, 1, DIAMOND_ODDS) {
        Some(random_range(rng, MIN_DIAMONDS as u64, MAX_DIAMONDS as u64) as i64)
    } else {
        None
    };
    RewardRoll { money, diamonds }
}

/// Decides a click on the button of a reward, given what is known of the
/// claims before, what was drawn and when the reward would next reset.
pub fn plan_claim_from(
    previous: Option<PreviousClaim>,
    now: Timestamp,
    roll: RewardRoll,
    next_reset: Option<Timestamp>,
) -> (outcome: ClaimOutcome)
    requires
        previous matches Some(claimed) ==> claimed.total_claims < i64::MAX,
    ensures
        outcome == plan_claim_from_spec(previous, now, roll, next_reset),
{
    let ready_at: Option<Timestamp> = match previous {
        Some(claimed) => claimed.ready_at,
        None => None,
    };
    if !is_available_from(ready_at, now) {
        return match ready_at {
            Some(ready_at) => ClaimOutcome::Cooldown { ready_at },
            None => ClaimOutcome::ClockOutOfRange,
        };
    }
    match next_reset {
        None => ClaimOutcome::ClockOutOfRange,
        Some(next_reset_at) => ClaimOutcome::Claimed(
            ClaimPlan {
                money: roll.money,
                diamonds: roll.diamonds,
                total_claims: match previous {
                    Some(claimed) => claimed.total_claims + 1,
                    None => 1,
                },
                last_claimed_at: now,
                next_reset_at,
            },
        ),
    }
}

/// Decides a click on the button of a reward, given what is stored of the
/// reward, what was drawn and when the reward would next reset.
pub fn plan_claim(
    state: Option<&RewardStateModel>,
    now: Timestamp,
    roll: RewardRoll,
    next_reset: Option<Timestamp>,
) -> (outcome: ClaimOutcome)
    requires
        state matches Some(stored) ==> stored.total_claims < i64::MAX,
    ensures
        outcome == plan_claim_spec(state, now, roll, next_reset),
{
    let previous = match state {
        None => None,
        Some(stored) => Some(
            PreviousClaim {
                ready_at: stored.next_reset_datetime(),
                total_claims: stored.total_claims,
            },
        ),
    };
    plan_claim_from(previous, now, roll, next_reset)
}

/// Handles a click on the button of the reward `kind` at `now`: a reward on
/// cooldown is turned away, an available one is drawn and planned. Nothing is
/// drawn for a reward on cooldown.
pub fn claim(
    state: Option<&RewardStateModel>,
    kind: RewardKind,
    now: Timestamp,
    config: &ResetTime,
    rng: &mut StdRng,
) -> (outcome: ClaimOutcome)
    requires
        config.valid(),
        state matches Some(stored) ==> stored.total_claims < i64::MAX,
    ensures
        !available_spec(state, now) ==> outcome == (ClaimOutcome::Cooldown {
            ready_at: state->0.next_reset_spec()->0,
        }),
        available_spec(state, now) ==> match outcome {
            ClaimOutcome::Claimed(plan) => {
                &&& roll_in_range(kind, RewardRoll { money: plan.money, diamonds: plan.diamonds })
                &&& plan.total_claims == match state {
                    Some(stored) => stored.total_claims + 1,
                    None => 1,
                }
                &&& plan.last_claimed_at == now
                &&& plan.next_reset_at.nanos == 0
                &&& now.secs < plan.next_reset_at.secs
                &&& is_next_reset(
                    now.secs as int,
                    kind.reset_period_spec(),
                    *config,
                    plan.next_reset_at.secs as int,
                )
            },
            ClaimOutcome::ClockOutOfRange => now.secs < -crate::clock::CLOCK_RANGE_SECS || now.secs
                > crate::clock::CLOCK_RANGE_SECS,
            ClaimOutcome::Cooldown { .. } => false,
        },
{
    if is_reward_available(state, now) {
        let roll = roll_reward(kind, rng);
        let next_reset = next_reset_from(now, kind.reset_period(), config);
        plan_claim(state, now, roll, next_reset)
    } else {
        plan_claim(state, now, RewardRoll { money: 0, diamonds: None }, None)
    }
}

/// The two balances of an account after a claim was paid.
#[derive(Clone, Copy, PartialEq, Eq, Structural, Debug)]
pub struct ClaimBalances {
    pub dollars: i64,
    pub diamonds: i64,
}

/// The balances that an account reaches when a claim is paid in full, or why
/// it cannot be: the coins are looked at first, then the diamonds.
pub open spec fn claim_balances_spec(account: AccountView, plan: ClaimPlan) -> Result<
    ClaimBalances,
    LedgerError,
> {
    match credit_balance_spec(account.dollars, plan.money as int) {
        Err(error) => Err(error),
        Ok(dollars) => match plan.diamonds {
            None => Ok(ClaimBalances { dollars: dollars as i64, diamonds: account.diamonds as i64 }),
            Some(amount) => match credit_balance_spec(account.diamonds, amount as int) {
                Err(error) => Err(error),
                Ok(diamonds) => Ok(
                    ClaimBalances { dollars: dollars as i64, diamonds: diamonds as i64 },
                ),
            },
        },
    }
}

/// Computes the balances that an account reaches when a claim is paid in
/// full. Where this fails nothing of the claim must be paid.
pub fn claim_balances(account: &UserModel, plan: &ClaimPlan) -> (balances: Result<
    ClaimBalances,
    LedgerError,
>)
    ensures
        balances == claim_balances_spec(account@, *plan),
{
    let dollars: i64 = match credit_balance(account.dollars, plan.money) {
        Ok(dollars) => dollars,
        Err(error) => {
            return Err(error);
        },
    };
    let diamonds: i64 = match plan.diamonds {
        None => account.diamonds,
        Some(amount) => match credit_balance(account.diamonds, amount) {
            Ok(diamonds) => diamonds,
            Err(error) => {
                return Err(error);
            },
        },
    };
    Ok(ClaimBalances { dollars, diamonds })
}

/// The context under which a claim of `kind` is logged.
pub open spec fn claim_context(kind: RewardKind) -> Seq<char> {
    "reward:"@ + kind.db_name_spec()
}

/// The ledger after a claim has been paid: the coins, and then the diamonds
/// if there are any, each logged as a `reward_claim`.
pub open spec fn settled(
    ledger: LedgerView,
    user_id: int,
    kind: RewardKind,
    plan: ClaimPlan,
    created_at: Seq<char>,
) -> Result<LedgerView, LedgerError> {
    match ledger.credit(
        user_id,
        plan.money as int,
        Currency::Dollars,
        "reward_claim"@,
        Some(claim_context(kind)),
        created_at,
    ) {
        Err(error) => Err(error),
        Ok((paid, _)) => match plan.diamonds {
            None => Ok(paid),
            Some(amount) => match paid.credit(
                user_id,
                amount as int,
                Currency::Diamonds,
                "reward_claim"@,
                Some(claim_context(kind)),
                created_at,
            ) {
                Err(error) => Err(error),
                Ok((both, _)) => Ok(both),
            },
        },
    }
}

/// Pays a planned claim into the account `user_id`. Either both balances are
/// paid and logged or, where the ledger turns one of them down, neither.
pub fn settle_claim(
    ledger: &mut Ledger,
    user_id: i32,
    kind: RewardKind,
    plan: &ClaimPlan,
    created_at: &str,
) -> (paid: Result<(), LedgerError>)
    requires
        old(ledger).wf(),
    ensures
        final(ledger).wf(),
        match settled(old(ledger)@, user_id as int, kind, *plan, created_at@) {
            Ok(after) => paid is Ok && final(ledger)@ == after,
            Err(error) => paid == Err::<(), LedgerError>(error) && final(ledger)@ == old(ledger)@,
        },
{
    let mut context = String::from_str("reward:");
    context.append(kind.db_name());
    proof {
        crate::ledger::lemma_credit_keeps_others(
            ledger@,
            user_id as int,
            plan.money as int,
            Currency::Dollars,
            "reward_claim"@,
            Some(claim_context(kind)),
            created_at@,
        );
    }
    // Whether the diamonds can be paid is looked at before the coins are,
    // so that nothing is paid if they cannot.
    if let Some(amount) = plan.diamonds {
        let account = match ledger.account(user_id) {
            Some(account) => account,
            None => {
                return Err(LedgerError::UnknownAccount);
            },
        };
        match credit_balance(account.dollars, plan.money) {
            Err(error) => {
                return Err(error);
            },
            Ok(_) => {},
        }
        if plan.money != 0 && ledger.next_transaction_id == i32::MAX {
            return Err(LedgerError::Exhausted);
        }
        match credit_balance(account.diamonds, amount) {
            Err(error) => {
                return Err(error);
            },
            Ok(_) => {},
        }
        let ids_needed: i32 = if plan.money != 0 && amount != 0 {
            2
        } else if plan.money != 0 || amount != 0 {
            1
        } else {
            0
        };
        if ledger.next_transaction_id > i32::MAX - ids_needed {
            return Err(LedgerError::Exhausted);
        }
    }
    match ledger.credit(
        user_id,
        plan.money,
        Currency::Dollars,
        "reward_claim",
        Some(context.clone()),
        String::from_str(created_at),
    ) {
        Err(error) => {
            return Err(error);
        },
        Ok(_) => {},
    }
    match plan.diamonds {
        None => Ok(()),
        Some(amount) => match ledger.credit(
            user_id,
            amount,
            Currency::Diamonds,
            "reward_claim",
            Some(context),
            String::from_str(created_at),
        ) {
            Err(error) => Err(error),
            Ok(_) => Ok(()),
        },
    }
}

} // verus!
