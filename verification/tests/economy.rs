use fumo::clock::{ResetPeriod, ResetTime, Timestamp};
use fumo::constants::icon;
use fumo::economy::reset_config;
use fumo::economy::reward_kind::RewardKind;
use fumo::economy::rewards::{claim, find_state, is_reward_available, plan_claim, roll_reward};
use fumo::economy::rewards::{claim_balances, settle_claim, ClaimBalances};
use fumo::economy::rewards::{is_available_from, plan_claim_from, PreviousClaim};
use fumo::economy::transactions::format_transaction_entry_with;
use fumo::economy::rewards::{ClaimOutcome, ClaimPlan, RewardRoll, RewardStateModel};
use fumo::economy::transactions::{build_transaction_pages, describe_currency};
use fumo::economy::transactions::{format_claim_message, format_cooldown_message};
use fumo::economy::transactions::format_transaction_entry;
use fumo::ledger::{Currency, CurrencyTransactionModel, Ledger, LedgerError, UserModel};
use rand::rngs::StdRng;
use rand::SeedableRng;

fn at(secs: i64) -> Timestamp {
    Timestamp { secs, nanos: 0 }
}

fn state(kind: &str, next_reset_at: Option<&str>, total_claims: i64) -> RewardStateModel {
    RewardStateModel {
        id: 1,
        user_id: 1,
        reward_type: String::from(kind),
        last_claimed_at: None,
        next_reset_at: next_reset_at.map(String::from),
        total_claims,
    }
}

fn row(amount: i64, currency: &str, context: Option<&str>, created_at: &str) -> CurrencyTransactionModel {
    CurrencyTransactionModel {
        id: 1,
        user_id: 1,
        amount,
        balance_after: 1_500,
        currency: String::from(currency),
        kind: String::from("mines_wager"),
        context: context.map(String::from),
        created_at: String::from(created_at),
    }
}

#[test]
fn rewards_have_names_and_ranges() {
    assert_eq!(RewardKind::Daily.custom_id(), "eco_daily");
    assert_eq!(RewardKind::Weekly.custom_id(), "eco_weekly");
    assert_eq!(RewardKind::Monthly.custom_id(), "eco_monthly");
    assert_eq!(RewardKind::Daily.db_name(), "daily");
    assert_eq!(RewardKind::Weekly.db_name(), "weekly");
    assert_eq!(RewardKind::Monthly.db_name(), "monthly");
    assert_eq!(RewardKind::Daily.button_label(), "Diária");
    assert_eq!(RewardKind::Weekly.button_label(), "Semanal");
    assert_eq!(RewardKind::Monthly.button_label(), "Mensal");
    assert_eq!(RewardKind::Daily.field_title(), "Recompensa diária");
    assert_eq!(RewardKind::Weekly.field_title(), "Recompensa semanal");
    assert_eq!(RewardKind::Monthly.field_title(), "Recompensa mensal");
    assert_eq!(RewardKind::Daily.money_range(), (250, 400));
    assert_eq!(RewardKind::Weekly.money_range(), (800, 1400));
    assert_eq!(RewardKind::Monthly.money_range(), (4000, 6000));
    assert_eq!(RewardKind::Daily.button_emoji().id, icon::DOLLAR);
    assert_eq!(RewardKind::Weekly.button_emoji().id, icon::GIFT);
    assert_eq!(RewardKind::Monthly.button_emoji().id, icon::DIAMOND);
    assert_eq!(RewardKind::Daily.reset_period(), ResetPeriod::Daily);
    assert_eq!(RewardKind::Weekly.reset_period(), ResetPeriod::Weekly);
    assert_eq!(RewardKind::Monthly.reset_period(), ResetPeriod::Monthly);
    assert_eq!(RewardKind::ALL, [RewardKind::Daily, RewardKind::Weekly, RewardKind::Monthly]);
}

#[test]
fn rewards_are_read_from_their_button_ids() {
    for kind in RewardKind::ALL {
        assert_eq!(RewardKind::from_custom_id(kind.custom_id()), Some(kind));
        assert_eq!(RewardKind::from_custom_id(kind.db_name()), None);
    }
    assert_eq!(RewardKind::from_custom_id("eco_yearly"), None);
    assert_eq!(RewardKind::from_custom_id(""), None);
}

#[test]
fn reset_config_is_nine_in_the_evening_in_brasilia() {
    assert_eq!(reset_config(), ResetTime::default());
}

#[test]
fn reward_without_a_state_is_available() {
    assert!(is_reward_available(None, at(0)));
    assert!(is_reward_available(None, at(i64::MIN)));
}

#[test]
fn reward_without_a_readable_reset_is_available() {
    assert!(is_reward_available(Some(&state("daily", None, 3)), at(0)));
    assert!(is_reward_available(Some(&state("daily", Some("soon"), 3)), at(0)));
    assert!(is_reward_available(Some(&state("daily", Some(""), 3)), at(0)));
}

#[test]
fn reward_is_available_from_its_reset_on() {
    let stored = state("daily", Some("2024-03-11T00:00:00+00:00"), 1);
    assert!(!is_reward_available(Some(&stored), at(1_710_115_199)));
    assert!(is_reward_available(Some(&stored), at(1_710_115_200)));
    assert!(is_reward_available(Some(&stored), at(1_710_115_201)));
    assert!(!is_reward_available(
        Some(&stored),
        Timestamp { secs: 1_710_115_199, nanos: 999_999_999 }
    ));
    assert_eq!(stored.next_reset_datetime(), Some(at(1_710_115_200)));
}

#[test]
fn reset_with_a_fraction_is_compared_to_the_nanosecond() {
    let stored = state("daily", Some("2024-03-11T00:00:00.5Z"), 1);
    assert_eq!(
        stored.next_reset_datetime(),
        Some(Timestamp { secs: 1_710_115_200, nanos: 500_000_000 })
    );
    assert!(!is_reward_available(
        Some(&stored),
        Timestamp { secs: 1_710_115_200, nanos: 499_999_999 }
    ));
    assert!(is_reward_available(
        Some(&stored),
        Timestamp { secs: 1_710_115_200, nanos: 500_000_000 }
    ));
}

#[test]
fn rolls_stay_in_range() {
    let mut rng = StdRng::seed_from_u64(2);
    for kind in RewardKind::ALL {
        let (low, high) = kind.money_range();
        let mut with_diamonds = 0;
        let mut lowest = i64::MAX;
        let mut highest = i64::MIN;
        for _ in 0..400 {
            let roll = roll_reward(kind, &mut rng);
            assert!(low <= roll.money && roll.money <= high);
            lowest = lowest.min(roll.money);
            highest = highest.max(roll.money);
            if let Some(amount) = roll.diamonds {
                assert!((1..=5).contains(&amount));
                with_diamonds += 1;
            }
        }
        assert!(lowest < highest);
        assert!(with_diamonds > 20 && with_diamonds < 200);
    }
}

#[test]
fn first_claim_counts_one() {
    let roll = RewardRoll { money: 300, diamonds: Some(2) };
    let outcome = plan_claim(None, at(100), roll, Some(at(500)));
    assert_eq!(
        outcome,
        ClaimOutcome::Claimed(ClaimPlan {
            money: 300,
            diamonds: Some(2),
            total_claims: 1,
            last_claimed_at: at(100),
            next_reset_at: at(500),
        })
    );
}

#[test]
fn later_claims_count_up() {
    let stored = state("daily", Some("1970-01-01T00:00:50Z"), 41);
    let roll = RewardRoll { money: 250, diamonds: None };
    let outcome = plan_claim(Some(&stored), at(50), roll, Some(at(900)));
    assert_eq!(
        outcome,
        ClaimOutcome::Claimed(ClaimPlan {
            money: 250,
            diamonds: None,
            total_claims: 42,
            last_claimed_at: at(50),
            next_reset_at: at(900),
        })
    );
}

#[test]
fn claim_on_cooldown_is_turned_away() {
    let stored = state("daily", Some("1970-01-01T00:00:50Z"), 41);
    let roll = RewardRoll { money: 250, diamonds: None };
    assert_eq!(
        plan_claim(Some(&stored), at(49), roll, Some(at(900))),
        ClaimOutcome::Cooldown { ready_at: at(50) }
    );
    assert_eq!(
        plan_claim(Some(&stored), at(49), roll, None),
        ClaimOutcome::Cooldown { ready_at: at(50) }
    );
}

#[test]
fn claim_without_a_next_reset_fails() {
    let roll = RewardRoll { money: 250, diamonds: None };
    assert_eq!(plan_claim(None, at(0), roll, None), ClaimOutcome::ClockOutOfRange);
}

#[test]
fn claim_draws_and_plans() {
    let mut rng = StdRng::seed_from_u64(8);
    let config = reset_config();
    // 2024-03-10 20:59 in Brasília.
    let now = at(1_710_115_140);
    match claim(None, RewardKind::Daily, now, &config, &mut rng) {
        ClaimOutcome::Claimed(plan) => {
            assert!((250..=400).contains(&plan.money));
            assert_eq!(plan.total_claims, 1);
            assert_eq!(plan.last_claimed_at, now);
            assert_eq!(plan.next_reset_at, at(1_710_115_200));
        }
        other => panic!("unexpected outcome {:?}", other),
    }
    let stored = state("weekly", Some("2024-03-11T00:00:00Z"), 3);
    assert_eq!(
        claim(Some(&stored), RewardKind::Weekly, now, &config, &mut rng),
        ClaimOutcome::Cooldown { ready_at: at(1_710_115_200) }
    );
    match claim(Some(&stored), RewardKind::Weekly, at(1_710_115_200), &config, &mut rng) {
        ClaimOutcome::Claimed(plan) => {
            assert!((800..=1400).contains(&plan.money));
            assert_eq!(plan.total_claims, 4);
            assert_eq!(plan.next_reset_at, at(1_710_115_200 + 7 * 86_400));
        }
        other => panic!("unexpected outcome {:?}", other),
    }
    assert_eq!(
        claim(None, RewardKind::Monthly, at(i64::MAX), &config, &mut rng),
        ClaimOutcome::ClockOutOfRange
    );
}

#[test]
fn states_are_found_by_the_name_of_their_reward() {
    let states = vec![state("weekly", None, 1), state("daily", None, 2), state("daily", None, 3)];
    assert_eq!(find_state(&states, RewardKind::Daily), Some(1));
    assert_eq!(find_state(&states, RewardKind::Weekly), Some(0));
    assert_eq!(find_state(&states, RewardKind::Monthly), None);
    assert_eq!(find_state(&vec![], RewardKind::Daily), None);
}

fn plan(money: i64, diamonds: Option<i64>) -> ClaimPlan {
    ClaimPlan { money, diamonds, total_claims: 1, last_claimed_at: at(0), next_reset_at: at(10) }
}

#[test]
fn settled_claim_pays_and_logs_both_currencies() {
    let mut ledger = Ledger::new();
    let user = ledger.get_or_create_user(1, String::from("t")).unwrap().id;
    assert_eq!(settle_claim(&mut ledger, user, RewardKind::Daily, &plan(300, Some(4)), "now"), Ok(()));
    let account = ledger.account(user).unwrap();
    assert_eq!((account.dollars, account.diamonds), (300, 4));
    assert_eq!(ledger.transactions.len(), 2);
    let first = &ledger.transactions[0];
    assert_eq!((first.amount, first.balance_after), (300, 300));
    assert_eq!(first.currency, "dollars");
    assert_eq!(first.kind, "reward_claim");
    assert_eq!(first.context.as_deref(), Some("reward:daily"));
    assert_eq!(first.created_at, "now");
    assert_eq!(ledger.transactions[1].currency, "diamonds");
    assert_eq!(ledger.transactions[1].amount, 4);
    assert_eq!(settle_claim(&mut ledger, user, RewardKind::Monthly, &plan(5_000, None), "t"), Ok(()));
    assert_eq!(ledger.account(user).unwrap().dollars, 5_300);
    assert_eq!(ledger.transactions[2].context.as_deref(), Some("reward:monthly"));
    assert_eq!(ledger.transactions.len(), 3);
}

#[test]
fn claim_that_cannot_be_paid_in_full_pays_nothing() {
    let mut ledger = Ledger::new();
    let user = ledger.get_or_create_user(1, String::from("t")).unwrap().id;
    ledger.credit(user, i64::MAX - 2, Currency::Diamonds, "seed", None, String::from("t")).unwrap();
    let rows = ledger.transactions.clone();
    assert_eq!(
        settle_claim(&mut ledger, user, RewardKind::Daily, &plan(300, Some(3)), "t"),
        Err(LedgerError::Overflow)
    );
    assert_eq!(ledger.account(user).unwrap().dollars, 0);
    assert_eq!(ledger.transactions, rows);
    assert_eq!(
        settle_claim(&mut ledger, user + 1, RewardKind::Daily, &plan(300, Some(1)), "t"),
        Err(LedgerError::UnknownAccount)
    );
    ledger.next_transaction_id = i32::MAX - 1;
    assert_eq!(
        settle_claim(&mut ledger, user, RewardKind::Daily, &plan(300, Some(1)), "t"),
        Err(LedgerError::Exhausted)
    );
    assert_eq!(ledger.account(user).unwrap().dollars, 0);
    assert_eq!(settle_claim(&mut ledger, user, RewardKind::Daily, &plan(300, None), "t"), Ok(()));
    assert_eq!(ledger.account(user).unwrap().dollars, 300);
}

#[test]
fn currencies_are_described() {
    assert_eq!(describe_currency("dollars"), "moedas");
    assert_eq!(describe_currency("diamonds"), "diamantes");
    assert_eq!(describe_currency("rubies"), "rubies");
    assert_eq!(describe_currency(""), "");
}

#[test]
fn claim_message_lists_what_was_paid() {
    assert_eq!(
        format_claim_message(300, Some(2)),
        "<:_:1436430668425859253> | Recompensa coletada\n\
         <:_:1436430666366586912> | +300 moedas\n\
         <:_:1436430663476842659> | +2 diamantes"
    );
    assert_eq!(
        format_claim_message(4_000, None),
        "<:_:1436430668425859253> | Recompensa coletada\n\
         <:_:1436430666366586912> | +4000 moedas\n\
         <:_:1436430663476842659> | Sem diamantes desta vez"
    );
}

#[test]
fn cooldown_message_names_the_reset() {
    assert_eq!(
        format_cooldown_message(at(1_710_115_200)),
        "<:_:1434940351642079242> | Tempo de espera ativo\n\
         <:_:1436442458849284127> | <t:1710115200:f>\n\
         <:_:1436442461022195753> | <t:1710115200:R>"
    );
}

#[test]
fn history_entry_is_written_out() {
    let debit = row(-200, "dollars", Some("Entrada no Mines"), "2024-03-11T00:00:00Z");
    assert_eq!(
        format_transaction_entry(&debit),
        "<:_:1434953090326462637> **200 moedas**\n\
         Saldo após: **1.500 moedas**\n\
         Tipo: `mines_wager` • <t:1710115200:R>\n\
         Contexto: _Entrada no Mines_ "
    );
    let credit = row(12_345, "diamonds", Some(""), "unknown");
    assert_eq!(
        format_transaction_entry(&credit),
        "<:_:1434953088409534544> **12.345 diamantes**\n\
         Saldo após: **1.500 diamantes**\n\
         Tipo: `mines_wager` • momento desconhecido"
    );
    let odd = row(i64::MIN, "x", None, "");
    assert!(format_transaction_entry(&odd)
        .starts_with("<:_:1434953090326462637> **9.223.372.036.854.775.808 x**\n"));
}

#[test]
fn history_is_paged_by_five() {
    let rows: Vec<CurrencyTransactionModel> =
        (0..12).map(|i| row(i, "dollars", None, "")).collect();
    let pages = build_transaction_pages(&rows);
    assert_eq!(pages.len(), 3);
    assert_eq!(pages[0].matches("Saldo após").count(), 5);
    assert_eq!(pages[1].matches("Saldo após").count(), 5);
    assert_eq!(pages[2].matches("Saldo após").count(), 2);
    let expected: Vec<String> = rows[5..10].iter().map(format_transaction_entry).collect();
    assert_eq!(pages[1], expected.join("\n\n"));
    assert!(build_transaction_pages(&vec![]).is_empty());
    assert_eq!(build_transaction_pages(&rows[..5].to_vec()).len(), 1);
    assert_eq!(build_transaction_pages(&rows[..6].to_vec()).len(), 2);
}

#[test]
fn balances_after_a_claim_are_computed_together() {
    let account = UserModel {
        id: 1,
        discord_id: 2,
        dollars: 100,
        diamonds: i64::MAX - 1,
        created_at: String::new(),
    };
    assert_eq!(
        claim_balances(&account, &plan(300, None)),
        Ok(ClaimBalances { dollars: 400, diamonds: i64::MAX - 1 })
    );
    assert_eq!(
        claim_balances(&account, &plan(300, Some(1))),
        Ok(ClaimBalances { dollars: 400, diamonds: i64::MAX })
    );
    assert_eq!(claim_balances(&account, &plan(300, Some(2))), Err(LedgerError::Overflow));
    assert_eq!(claim_balances(&account, &plan(-1, Some(2))), Err(LedgerError::InvalidAmount));
    assert_eq!(claim_balances(&account, &plan(0, Some(-2))), Err(LedgerError::InvalidAmount));
    assert_eq!(
        claim_balances(&account, &plan(0, Some(0))),
        Ok(ClaimBalances { dollars: 100, diamonds: i64::MAX - 1 })
    );
}

#[test]
fn availability_goes_by_the_instant_given() {
    assert!(is_available_from(None, at(0)));
    assert!(is_available_from(Some(at(10)), at(10)));
    assert!(is_available_from(Some(at(10)), at(11)));
    assert!(!is_available_from(Some(at(10)), at(9)));
    assert!(!is_available_from(
        Some(Timestamp { secs: 10, nanos: 1 }),
        Timestamp { secs: 10, nanos: 0 }
    ));
}

#[test]
fn claims_are_planned_from_what_is_known() {
    let roll = RewardRoll { money: 260, diamonds: Some(5) };
    let rested = PreviousClaim { ready_at: Some(at(100)), total_claims: 9 };
    assert_eq!(
        plan_claim_from(Some(rested), at(99), roll, Some(at(500))),
        ClaimOutcome::Cooldown { ready_at: at(100) }
    );
    assert_eq!(
        plan_claim_from(Some(rested), at(100), roll, Some(at(500))),
        ClaimOutcome::Claimed(ClaimPlan {
            money: 260,
            diamonds: Some(5),
            total_claims: 10,
            last_claimed_at: at(100),
            next_reset_at: at(500),
        })
    );
    let unreadable = PreviousClaim { ready_at: None, total_claims: 0 };
    assert_eq!(
        plan_claim_from(Some(unreadable), at(1), roll, Some(at(2))),
        ClaimOutcome::Claimed(ClaimPlan {
            money: 260,
            diamonds: Some(5),
            total_claims: 1,
            last_claimed_at: at(1),
            next_reset_at: at(2),
        })
    );
    assert_eq!(plan_claim_from(Some(rested), at(100), roll, None), ClaimOutcome::ClockOutOfRange);
    assert_eq!(plan_claim_from(None, at(100), roll, None), ClaimOutcome::ClockOutOfRange);
}

#[test]
fn history_entry_takes_its_time_as_given() {
    let credit = row(5, "dollars", None, "2024-03-11T00:00:00Z");
    assert_eq!(
        format_transaction_entry_with(&credit, "agora"),
        "<:_:1434953088409534544> **5 moedas**\n\
         Saldo após: **1.500 moedas**\n\
         Tipo: `mines_wager` • agora"
    );
}
