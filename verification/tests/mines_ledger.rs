use fumo::ledger::{Currency, Ledger};
use fumo::mines::game_state::MinesGameState;
use fumo::mines::session::{check_wager, MinesSession, MinesTarget};
use fumo::mines::tile::Tile;
use fumo::session::LedgerAction;

fn now() -> String {
    String::from("2024-03-10T21:00:00+00:00")
}

fn board() -> Vec<Tile> {
    (0..16).map(|i| Tile::new(i >= 11)).collect()
}

/// Places a wager as the command does: checks it, debits it, opens the round.
fn place(ledger: &mut Ledger, user: i32, wager: i64) -> MinesSession {
    let balance = ledger.account(user).unwrap().dollars;
    assert_eq!(check_wager(wager, balance), Ok(()));
    let receipt = ledger
        .debit(user, wager, "mines_wager", Some(String::from("Entrada no Mines")), now())
        .unwrap();
    MinesSession::open(MinesGameState::from_parts(wager, board(), 1), receipt.transaction_id.unwrap())
}

/// Carries out what an outcome asks of the ledger.
fn settle(ledger: &mut Ledger, user: i32, action: LedgerAction) {
    match action {
        LedgerAction::Nothing => {}
        LedgerAction::Credit { amount } => {
            ledger.credit(user, amount, Currency::Dollars, "mines_cashout", None, now()).unwrap();
        }
        LedgerAction::Compensate { transaction_id } => {
            ledger.compensate(transaction_id).unwrap();
        }
    }
}

fn funded() -> (Ledger, i32) {
    let mut ledger = Ledger::new();
    let user = ledger.get_or_create_user(1, now()).unwrap().id;
    ledger.credit(user, 1_000, Currency::Dollars, "seed", None, now()).unwrap();
    (ledger, user)
}

#[test]
fn early_give_up_leaves_the_ledger_as_it_was() {
    let (mut ledger, user) = funded();
    let accounts = ledger.accounts.clone();
    let rows = ledger.transactions.clone();
    let mut session = place(&mut ledger, user, 200);
    assert_eq!(ledger.account(user).unwrap().dollars, 800);
    session.select(MinesTarget::Tile(0));
    session.select(MinesTarget::Tile(1));
    let outcome = session.select(MinesTarget::GiveUp);
    settle(&mut ledger, user, outcome.ledger_action());
    assert_eq!(ledger.accounts, accounts);
    assert_eq!(ledger.transactions, rows);
    assert_eq!(ledger.transactions.len(), 1);
}

#[test]
fn late_give_up_keeps_the_wager_debited() {
    let (mut ledger, user) = funded();
    let mut session = place(&mut ledger, user, 200);
    for index in 0..3 {
        session.select(MinesTarget::Tile(index));
    }
    let outcome = session.select(MinesTarget::GiveUp);
    settle(&mut ledger, user, outcome.ledger_action());
    assert_eq!(ledger.account(user).unwrap().dollars, 800);
    assert_eq!(ledger.transactions.len(), 2);
}

#[test]
fn cash_out_credits_the_payout() {
    let (mut ledger, user) = funded();
    let mut session = place(&mut ledger, user, 200);
    for index in 0..5 {
        session.select(MinesTarget::Tile(index));
    }
    let outcome = session.select(MinesTarget::CashOut);
    settle(&mut ledger, user, outcome.ledger_action());
    assert_eq!(ledger.account(user).unwrap().dollars, 800 + 380);
    assert_eq!(ledger.transactions.len(), 3);
    assert_eq!(ledger.transactions[2].amount, 380);
    assert_eq!(ledger.transactions[2].balance_after, 1_180);
}

#[test]
fn bust_and_timeout_keep_the_wager_debited() {
    let (mut ledger, user) = funded();
    let mut session = place(&mut ledger, user, 200);
    let outcome = session.select(MinesTarget::Tile(15));
    settle(&mut ledger, user, outcome.ledger_action());
    assert_eq!(ledger.account(user).unwrap().dollars, 800);
    let mut idle = place(&mut ledger, user, 100);
    let outcome = idle.timeout();
    settle(&mut ledger, user, outcome.ledger_action());
    assert_eq!(ledger.account(user).unwrap().dollars, 700);
    assert_eq!(ledger.transactions.len(), 3);
}

#[test]
fn refund_cannot_be_asked_for_twice() {
    let (mut ledger, user) = funded();
    let mut session = place(&mut ledger, user, 200);
    let first = session.select(MinesTarget::GiveUp);
    settle(&mut ledger, user, first.ledger_action());
    let second = session.select(MinesTarget::GiveUp);
    assert_eq!(second.ledger_action(), LedgerAction::Nothing);
    settle(&mut ledger, user, second.ledger_action());
    assert_eq!(ledger.account(user).unwrap().dollars, 1_000);
}
