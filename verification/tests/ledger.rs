use fumo::ledger::{compensated_balance, credit_balance, debit_balance, history_cap};
use fumo::ledger::{Currency, Ledger, LedgerError, Receipt};

fn now() -> String {
    String::from("2024-03-10T21:00:00+00:00")
}

/// A ledger with one account that holds `dollars`.
fn funded(dollars: i64) -> (Ledger, i32) {
    let mut ledger = Ledger::new();
    let account = ledger.get_or_create_user(99, now()).unwrap();
    if dollars != 0 {
        ledger
            .credit(account.id, dollars, Currency::Dollars, "seed", None, now())
            .unwrap();
    }
    (ledger, account.id)
}

fn dollars(ledger: &Ledger, user_id: i32) -> i64 {
    ledger.account(user_id).unwrap().dollars
}

#[test]
fn new_ledger_is_empty() {
    let ledger = Ledger::new();
    assert!(ledger.accounts.is_empty());
    assert!(ledger.transactions.is_empty());
    assert_eq!(ledger.account(1), None);
}

#[test]
fn account_is_created_once_per_player() {
    let mut ledger = Ledger::new();
    let first = ledger.get_or_create_user(500, now()).unwrap();
    assert_eq!((first.id, first.discord_id, first.dollars, first.diamonds), (1, 500, 0, 0));
    assert_eq!(first.created_at, now());
    let again = ledger.get_or_create_user(500, String::from("later")).unwrap();
    assert_eq!(again, first);
    let other = ledger.get_or_create_user(501, now()).unwrap();
    assert_eq!(other.id, 2);
    assert_eq!(ledger.accounts.len(), 2);
}

#[test]
fn account_ids_can_run_out() {
    let mut ledger = Ledger::new();
    ledger.next_account_id = i32::MAX;
    assert_eq!(ledger.get_or_create_user(1, now()), Err(LedgerError::Exhausted));
    assert!(ledger.accounts.is_empty());
}

#[test]
fn debit_lowers_the_balance_and_logs_the_change() {
    let (mut ledger, user) = funded(1_000);
    let receipt = ledger
        .debit(user, 100, "mines_wager", Some(String::from("Entrada no Mines")), now())
        .unwrap();
    assert_eq!(receipt, Receipt { balance: 900, transaction_id: Some(2) });
    assert_eq!(dollars(&ledger, user), 900);
    let row = ledger.transactions.last().unwrap();
    assert_eq!((row.id, row.user_id, row.amount, row.balance_after), (2, user, -100, 900));
    assert_eq!(row.currency, "dollars");
    assert_eq!(row.kind, "mines_wager");
    assert_eq!(row.context.as_deref(), Some("Entrada no Mines"));
    assert_eq!(row.created_at, now());
}

#[test]
fn debit_of_more_than_the_balance_fails() {
    let (mut ledger, user) = funded(99);
    let before = ledger.transactions.clone();
    assert_eq!(ledger.debit(user, 100, "w", None, now()), Err(LedgerError::InsufficientFunds));
    assert_eq!(dollars(&ledger, user), 99);
    assert_eq!(ledger.transactions, before);
    assert_eq!(ledger.debit(user, 99, "w", None, now()).unwrap().balance, 0);
    assert_eq!(ledger.debit(user, 1, "w", None, now()), Err(LedgerError::InsufficientFunds));
}

#[test]
fn debit_of_an_unknown_account_fails() {
    let (mut ledger, user) = funded(100);
    assert_eq!(ledger.debit(user + 1, 10, "w", None, now()), Err(LedgerError::UnknownAccount));
    assert_eq!(ledger.transactions.len(), 1);
}

#[test]
fn debit_that_does_not_fit_fails() {
    assert_eq!(debit_balance(0, i64::MIN), Err(LedgerError::Overflow));
    assert_eq!(debit_balance(i64::MAX, -1), Err(LedgerError::Overflow));
    assert_eq!(debit_balance(-5, i64::MIN), Err(LedgerError::Overflow));
    assert_eq!(debit_balance(10, 11), Err(LedgerError::InsufficientFunds));
    assert_eq!(debit_balance(10, 10), Ok(0));
    assert_eq!(debit_balance(10, 0), Ok(10));
    assert_eq!(debit_balance(10, -5), Ok(15));
    assert_eq!(debit_balance(-10, -20), Ok(10));
}

#[test]
fn credit_raises_the_balance_and_logs_the_change() {
    let (mut ledger, user) = funded(0);
    let receipt = ledger
        .credit(user, 250, Currency::Dollars, "reward_claim", Some(String::from("reward:daily")), now())
        .unwrap();
    assert_eq!(receipt, Receipt { balance: 250, transaction_id: Some(1) });
    let gems = ledger.credit(user, 3, Currency::Diamonds, "reward_claim", None, now()).unwrap();
    assert_eq!(gems, Receipt { balance: 3, transaction_id: Some(2) });
    let account = ledger.account(user).unwrap();
    assert_eq!((account.dollars, account.diamonds), (250, 3));
    assert_eq!(ledger.transactions[0].amount, 250);
    assert_eq!(ledger.transactions[1].currency, "diamonds");
    assert_eq!(ledger.transactions[1].balance_after, 3);
}

#[test]
fn credit_of_nothing_logs_nothing() {
    let (mut ledger, user) = funded(40);
    let rows = ledger.transactions.len();
    let receipt = ledger.credit(user, 0, Currency::Dollars, "mines_cashout", None, now()).unwrap();
    assert_eq!(receipt, Receipt { balance: 40, transaction_id: None });
    assert_eq!(ledger.transactions.len(), rows);
    assert_eq!(dollars(&ledger, user), 40);
    assert_eq!(ledger.next_transaction_id, 2);
}

#[test]
fn credit_that_is_negative_or_does_not_fit_fails() {
    let (mut ledger, user) = funded(40);
    assert_eq!(
        ledger.credit(user, -1, Currency::Dollars, "k", None, now()),
        Err(LedgerError::InvalidAmount)
    );
    assert_eq!(
        ledger.credit(user, i64::MAX, Currency::Dollars, "k", None, now()),
        Err(LedgerError::Overflow)
    );
    assert_eq!(
        ledger.credit(user + 5, 1, Currency::Dollars, "k", None, now()),
        Err(LedgerError::UnknownAccount)
    );
    assert_eq!(dollars(&ledger, user), 40);
    assert_eq!(ledger.transactions.len(), 1);
    assert_eq!(credit_balance(i64::MAX, 0), Ok(i64::MAX));
    assert_eq!(credit_balance(i64::MAX, 1), Err(LedgerError::Overflow));
    assert_eq!(credit_balance(-3, 5), Ok(2));
}

#[test]
fn transaction_ids_can_run_out() {
    let (mut ledger, user) = funded(40);
    ledger.next_transaction_id = i32::MAX;
    assert_eq!(ledger.debit(user, 1, "k", None, now()), Err(LedgerError::Exhausted));
    assert_eq!(
        ledger.credit(user, 1, Currency::Dollars, "k", None, now()),
        Err(LedgerError::Exhausted)
    );
    assert_eq!(ledger.credit(user, 0, Currency::Dollars, "k", None, now()).unwrap().balance, 40);
    assert_eq!(dollars(&ledger, user), 40);
}

#[test]
fn debit_then_compensate_restores_the_ledger() {
    let (mut ledger, user) = funded(1_000);
    let accounts = ledger.accounts.clone();
    let rows = ledger.transactions.clone();
    let receipt = ledger.debit(user, 100, "mines_wager", None, now()).unwrap();
    assert_eq!(dollars(&ledger, user), 900);
    assert_eq!(ledger.transactions.len(), rows.len() + 1);
    let refund = ledger.compensate(receipt.transaction_id.unwrap()).unwrap();
    assert_eq!(refund, Receipt { balance: 1_000, transaction_id: None });
    assert_eq!(ledger.accounts, accounts);
    assert_eq!(ledger.transactions, rows);
}

#[test]
fn compensation_happens_once() {
    let (mut ledger, user) = funded(1_000);
    let receipt = ledger.debit(user, 100, "mines_wager", None, now()).unwrap();
    let id = receipt.transaction_id.unwrap();
    assert!(ledger.compensate(id).is_ok());
    assert_eq!(ledger.compensate(id), Err(LedgerError::UnknownTransaction));
    assert_eq!(dollars(&ledger, user), 1_000);
    assert_eq!(ledger.compensate(12345), Err(LedgerError::UnknownTransaction));
}

#[test]
fn compensation_takes_back_the_named_row_only() {
    let (mut ledger, user) = funded(1_000);
    let other = ledger.get_or_create_user(7, now()).unwrap().id;
    ledger.credit(other, 10, Currency::Diamonds, "gift", None, now()).unwrap();
    let wager = ledger.debit(user, 300, "mines_wager", None, now()).unwrap();
    ledger.credit(user, 50, Currency::Dollars, "reward_claim", None, now()).unwrap();
    assert_eq!(dollars(&ledger, user), 750);
    let refund = ledger.compensate(wager.transaction_id.unwrap()).unwrap();
    assert_eq!(refund.balance, 1_050);
    let ids: Vec<i32> = ledger.transactions.iter().map(|row| row.id).collect();
    assert_eq!(ids, vec![1, 2, 4]);
    assert_eq!(ledger.account(other).unwrap().diamonds, 10);
    let gems = ledger.compensate(2).unwrap();
    assert_eq!(gems.balance, 0);
    assert_eq!(ledger.account(other).unwrap().diamonds, 0);
    assert_eq!(ledger.account(other).unwrap().dollars, 0);
}

#[test]
fn balances_equal_the_sum_of_the_log() {
    let (mut ledger, user) = funded(500);
    ledger.debit(user, 120, "a", None, now()).unwrap();
    ledger.credit(user, 30, Currency::Dollars, "b", None, now()).unwrap();
    let wager = ledger.debit(user, 200, "c", None, now()).unwrap();
    ledger.credit(user, 4, Currency::Diamonds, "d", None, now()).unwrap();
    ledger.compensate(wager.transaction_id.unwrap()).unwrap();
    let sum = |currency: &str| -> i64 {
        ledger
            .transactions
            .iter()
            .filter(|row| row.user_id == user && row.currency == currency)
            .map(|row| row.amount)
            .sum()
    };
    let account = ledger.account(user).unwrap();
    assert_eq!(account.dollars, sum("dollars"));
    assert_eq!(account.diamonds, sum("diamonds"));
    assert_eq!(account.dollars, 410);
}

#[test]
fn compensated_balance_is_checked_for_overflow() {
    assert_eq!(compensated_balance(900, -100), Ok(1_000));
    assert_eq!(compensated_balance(900, 100), Ok(800));
    assert_eq!(compensated_balance(i64::MAX, -1), Err(LedgerError::Overflow));
    assert_eq!(compensated_balance(i64::MIN, 1), Err(LedgerError::Overflow));
}

#[test]
fn history_is_newest_first_and_of_one_account() {
    let (mut ledger, user) = funded(1_000);
    let other = ledger.get_or_create_user(7, now()).unwrap().id;
    ledger.credit(other, 5, Currency::Dollars, "x", None, now()).unwrap();
    ledger.debit(user, 10, "a", None, now()).unwrap();
    ledger.credit(other, 6, Currency::Dollars, "y", None, now()).unwrap();
    ledger.debit(user, 20, "b", None, now()).unwrap();
    let rows = ledger.history(user, 50);
    let kinds: Vec<&str> = rows.iter().map(|row| row.kind.as_str()).collect();
    assert_eq!(kinds, vec!["b", "a", "seed"]);
    assert_eq!(rows[0], *ledger.transactions.last().unwrap());
    let two = ledger.history(user, 2);
    assert_eq!(two.len(), 2);
    assert_eq!(two[1].kind, "a");
    assert!(ledger.history(12345, 10).is_empty());
}

#[test]
fn history_is_capped() {
    let (mut ledger, user) = funded(1_000_000);
    for _ in 0..250 {
        ledger.debit(user, 1, "w", None, now()).unwrap();
    }
    assert_eq!(ledger.history(user, 1_000).len(), 200);
    assert_eq!(ledger.history(user, 200).len(), 200);
    assert_eq!(ledger.history(user, 201).len(), 200);
    assert_eq!(ledger.history(user, i64::MAX).len(), 200);
    assert_eq!(ledger.history(user, 0).len(), 1);
    assert_eq!(ledger.history(user, -7).len(), 1);
    assert_eq!(ledger.history(user, i64::MIN).len(), 1);
    assert_eq!(ledger.history(user, 13).len(), 13);
    assert_eq!(ledger.history(user, 1_000)[0].id, 251);
    assert_eq!(ledger.history(user, 1_000)[199].id, 52);
}

#[test]
fn history_cap_lies_between_one_and_two_hundred() {
    assert_eq!(history_cap(i64::MIN), 1);
    assert_eq!(history_cap(0), 1);
    assert_eq!(history_cap(1), 1);
    assert_eq!(history_cap(50), 50);
    assert_eq!(history_cap(200), 200);
    assert_eq!(history_cap(201), 200);
    assert_eq!(history_cap(i64::MAX), 200);
}

#[test]
fn currencies_have_their_codes() {
    assert_eq!(Currency::Dollars.code(), "dollars");
    assert_eq!(Currency::Diamonds.code(), "diamonds");
}

#[test]
fn rows_and_accounts_are_copied_faithfully() {
    let (mut ledger, user) = funded(10);
    ledger.debit(user, 1, "k", Some(String::from("ctx")), now()).unwrap();
    let row = ledger.transactions[1].duplicate();
    assert_eq!(row, ledger.transactions[1]);
    assert_eq!(row.logged_currency(), Currency::Dollars);
    let account = ledger.accounts[0].duplicate();
    assert_eq!(account, ledger.accounts[0]);
    assert_eq!(account.balance(Currency::Dollars), 9);
    assert_eq!(account.balance(Currency::Diamonds), 0);
}
