//! The wager and reward ledger: balances, and the log of every change to
//! them.
//!
//! A balance never changes without a row in the log that says by how much,
//! so at any time an account holds exactly the sum of its logged changes. The
//! one way to take a row out again is [`Ledger::compensate`], which also takes
//! its change back.

use crate::text::str_eq;
use vstd::prelude::*;

verus! {

/// The most rows that [`Ledger::history`] hands out, whatever is asked for.
pub const HISTORY_LIMIT: i64 = 200;

/// The two currencies of an account.
#[derive(Clone, Copy, PartialEq, Eq, Structural, Debug)]
pub enum Currency {
    Dollars,
    Diamonds,
}

/// Why the ledger turned an operation down. The state is then as it was.
#[derive(Clone, Copy, PartialEq, Eq, Structural, Debug)]
pub enum LedgerError {
    /// No account has that id.
    UnknownAccount,
    /// The account holds less than was to be taken.
    InsufficientFunds,
    /// A credit must not be negative.
    InvalidAmount,
    /// The change or the new balance does not fit the balance's type.
    Overflow,
    /// No row has that id: it never existed or was compensated before.
    UnknownTransaction,
    /// No id is left for a new row or account.
    Exhausted,
}

/// What a change to a balance came to.
#[derive(Clone, Copy, PartialEq, Eq, Structural, Debug)]
pub struct Receipt {
    /// The balance after the change.
    pub balance: i64,
    /// The row that logs the change, where one was written.
    pub transaction_id: Option<i32>,
}

/// One account: a row per player, with a balance in each currency.
#[derive(Clone, Debug, PartialEq)]
pub struct UserModel {
    pub id: i32,
    pub discord_id: i64,
    pub dollars: i64,
    pub diamonds: i64,
    pub created_at: String,
}

/// One row of the log: a change to one balance of one account.
#[derive(Clone, Debug, PartialEq)]
pub struct CurrencyTransactionModel {
    pub id: i32,
    pub user_id: i32,
    pub amount: i64,
    pub balance_after: i64,
    pub currency: String,
    pub kind: String,
    pub context: Option<String>,
    pub created_at: String,
}

/// An account as a mathematical value.
pub struct AccountView {
    pub id: int,
    pub discord_id: int,
    pub dollars: int,
    pub diamonds: int,
    pub created_at: Seq<char>,
}

/// A row of the log as a mathematical value.
pub struct TransactionView {
    pub id: int,
    pub user_id: int,
    pub amount: int,
    pub balance_after: int,
    pub currency: Seq<char>,
    pub kind: Seq<char>,
    pub context: Option<Seq<char>>,
    pub created_at: Seq<char>,
}

/// The ledger as a mathematical value.
pub struct LedgerView {
    pub accounts: Seq<AccountView>,
    pub log: Seq<TransactionView>,
    pub next_account_id: int,
    pub next_transaction_id: int,
}

/// The text of an optional string.
pub open spec fn text_of(value: Option<String>) -> Option<Seq<char>> {
    match value {
        Some(text) => Some(text@),
        None => None,
    }
}

impl View for UserModel {
    type V = AccountView;

    open spec fn view(&self) -> AccountView {
        AccountView {
            id: self.id as int,
            discord_id: self.discord_id as int,
            dollars: self.dollars as int,
            diamonds: self.diamonds as int,
            created_at: self.created_at@,
        }
    }
}

impl View for CurrencyTransactionModel {
    type V = TransactionView;

    open spec fn view(&self) -> TransactionView {
        TransactionView {
            id: self.id as int,
            user_id: self.user_id as int,
            amount: self.amount as int,
            balance_after: self.balance_after as int,
            currency: self.currency@,
            kind: self.kind@,
            context: text_of(self.context),
            created_at: self.created_at@,
        }
    }
}

/// A ledger held in memory.
pub struct Ledger {
    pub accounts: Vec<UserModel>,
    pub transactions: Vec<CurrencyTransactionModel>,
    pub next_account_id: i32,
    pub next_transaction_id: i32,
}

/// The accounts as mathematical values.
pub open spec fn accounts_view(accounts: Seq<UserModel>) -> Seq<AccountView> {
    Seq::new(accounts.len(), |i: int| accounts[i]@)
}

/// The rows as mathematical values.
pub open spec fn rows_view(rows: Seq<CurrencyTransactionModel>) -> Seq<TransactionView> {
    Seq::new(rows.len(), |i: int| rows[i]@)
}

impl View for Ledger {
    type V = LedgerView;

    open spec fn view(&self) -> LedgerView {
        LedgerView {
            accounts: accounts_view(self.accounts@),
            log: rows_view(self.transactions@),
            next_account_id: self.next_account_id as int,
            next_transaction_id: self.next_transaction_id as int,
        }
    }
}

impl Currency {
    /// The code under which the currency is logged.
    pub open spec fn code_spec(self) -> Seq<char> {
        match self {
            Currency::Dollars => "dollars"@,
            Currency::Diamonds => "diamonds"@,
        }
    }

    /// The code under which the currency is logged.
    pub fn code(self) -> (code: &'static str)
        ensures
            code@ == self.code_spec(),
    {
        match self {
            Currency::Dollars => "dollars",
            Currency::Diamonds => "diamonds",
        }
    }
}

/// The two codes differ.
pub proof fn lemma_codes_differ()
    ensures
        Currency::Dollars.code_spec() != Currency::Diamonds.code_spec(),
{
    reveal_strlit("dollars");
    reveal_strlit("diamonds");
    assert("dollars"@.len() != "diamonds"@.len());
}

/// The currency that a code names; every code but that of the dollars is
/// read as diamonds.
pub open spec fn currency_of(code: Seq<char>) -> Currency {
    if code == Currency::Dollars.code_spec() {
        Currency::Dollars
    } else {
        Currency::Diamonds
    }
}

/// The sum of the changes that `log` holds for one balance of one account.
pub open spec fn logged_total(log: Seq<TransactionView>, user_id: int, code: Seq<char>) -> int
    decreases log.len(),
{
    if log.len() == 0 {
        0
    } else {
        logged_total(log.drop_last(), user_id, code) + if log.last().user_id == user_id
            && log.last().currency == code {
            log.last().amount
        } else {
            0
        }
    }
}

/// The newest `count` rows that `log` holds for an account, newest first.
pub open spec fn newest_first(log: Seq<TransactionView>, user_id: int, count: nat) -> Seq<
    TransactionView,
>
    decreases log.len(),
{
    if count == 0 || log.len() == 0 {
        Seq::empty()
    } else if log.last().user_id == user_id {
        seq![log.last()] + newest_first(log.drop_last(), user_id, (count - 1) as nat)
    } else {
        newest_first(log.drop_last(), user_id, count)
    }
}

/// How many rows are handed out when `limit` are asked for: at least one and
/// at most [`HISTORY_LIMIT`].
pub open spec fn history_cap_spec(limit: int) -> nat {
    if limit < 1 {
        1
    } else if limit > HISTORY_LIMIT {
        HISTORY_LIMIT as nat
    } else {
        limit as nat
    }
}

/// The balance left when `amount` is taken from `balance`.
pub open spec fn debit_balance_spec(balance: int, amount: int) -> Result<int, LedgerError> {
    if amount > balance {
        Err(LedgerError::InsufficientFunds)
    } else if amount <= i64::MIN || balance - amount > i64::MAX {
        Err(LedgerError::Overflow)
    } else {
        Ok(balance - amount)
    }
}

/// The balance reached when `amount` is paid into `balance`.
pub open spec fn credit_balance_spec(balance: int, amount: int) -> Result<int, LedgerError> {
    if amount < 0 {
        Err(LedgerError::InvalidAmount)
    } else if balance + amount > i64::MAX {
        Err(LedgerError::Overflow)
    } else {
        Ok(balance + amount)
    }
}

/// The balance reached when a logged change of `amount` is taken back.
pub open spec fn compensated_balance_spec(balance: int, amount: int) -> Result<int, LedgerError> {
    if balance - amount > i64::MAX || balance - amount < i64::MIN {
        Err(LedgerError::Overflow)
    } else {
        Ok(balance - amount)
    }
}

impl AccountView {
    /// The balance that the account holds in `currency`.
    pub open spec fn balance(self, currency: Currency) -> int {
        match currency {
            Currency::Dollars => self.dollars,
            Currency::Diamonds => self.diamonds,
        }
    }

    /// The account with its balance in `currency` set to `balance`.
    pub open spec fn with_balance(self, currency: Currency, balance: int) -> AccountView {
        match currency {
            Currency::Dollars => AccountView { dollars: balance, ..self },
            Currency::Diamonds => AccountView { diamonds: balance, ..self },
        }
    }
}

impl LedgerView {
    /// The place of the account with the id `user_id`.
    pub open spec fn account_at(self, user_id: int) -> Option<int> {
        if exists|i: int| 0 <= i < self.accounts.len() && self.accounts[i].id == user_id {
            Some(choose|i: int| 0 <= i < self.accounts.len() && self.accounts[i].id == user_id)
        } else {
            None
        }
    }

    /// The place of the account of the player `discord_id`.
    pub open spec fn account_of(self, discord_id: int) -> Option<int> {
        if exists|i: int| 0 <= i < self.accounts.len() && self.accounts[i].discord_id == discord_id {
            Some(
                choose|i: int|
                    0 <= i < self.accounts.len() && self.accounts[i].discord_id == discord_id,
            )
        } else {
            None
        }
    }

    /// The place of the row with the id `transaction_id`.
    pub open spec fn row_at(self, transaction_id: int) -> Option<int> {
        if exists|i: int| 0 <= i < self.log.len() && self.log[i].id == transaction_id {
            Some(choose|i: int| 0 <= i < self.log.len() && self.log[i].id == transaction_id)
        } else {
            None
        }
    }

    /// Ids are handed out in rising order and never twice, no two accounts
    /// belong to one player, every row is logged under one of the two
    /// currency codes and for an id that was handed out, and every balance is
    /// the sum of its logged changes.
    pub open spec fn wf(self) -> bool {
        &&& forall|i: int, j: int|
            0 <= i < j < self.accounts.len() ==> (#[trigger] self.accounts[i]).id
                < (#[trigger] self.accounts[j]).id
        &&& forall|i: int|
            0 <= i < self.accounts.len() ==> (#[trigger] self.accounts[i]).id
                < self.next_account_id
        &&& forall|i: int, j: int|
            0 <= i < j < self.accounts.len() ==> (#[trigger] self.accounts[i]).discord_id
                != (#[trigger] self.accounts[j]).discord_id
        &&& forall|i: int, j: int|
            0 <= i < j < self.log.len() ==> (#[trigger] self.log[i]).id < (#[trigger] self.log[j]).id
        &&& forall|i: int|
            0 <= i < self.log.len() ==> (#[trigger] self.log[i]).id < self.next_transaction_id
        &&& forall|i: int|
            0 <= i < self.log.len() ==> (#[trigger] self.log[i]).currency
                == Currency::Dollars.code_spec() || self.log[i].currency
                == Currency::Diamonds.code_spec()
        &&& forall|i: int|
            0 <= i < self.log.len() ==> (#[trigger] self.log[i]).user_id < self.next_account_id
        &&& forall|i: int|
            0 <= i < self.accounts.len() ==> i64::MIN <= (#[trigger] self.accounts[i]).dollars
                <= i64::MAX && i64::MIN <= self.accounts[i].diamonds <= i64::MAX
        &&& 1 <= self.next_account_id <= i32::MAX
        &&& 1 <= self.next_transaction_id <= i32::MAX
        &&& self.balanced()
    }

    /// Every row records the balance that its change led to: the sum of the
    /// changes logged for that balance up to and with the row.
    pub open spec fn chained(self) -> bool {
        forall|i: int|
            0 <= i < self.log.len() ==> (#[trigger] self.log[i]).balance_after == logged_total(
                self.log.take(i + 1),
                self.log[i].user_id,
                self.log[i].currency,
            )
    }

    /// No row after the one at place `row` changes the same balance.
    pub open spec fn newest_of_its_balance(self, row: int) -> bool {
        forall|j: int|
            row < j < self.log.len() ==> (#[trigger] self.log[j]).user_id != self.log[row].user_id
                || self.log[j].currency != self.log[row].currency
    }

    /// Every balance is the sum of the changes logged for it.
    pub open spec fn balanced(self) -> bool {
        forall|i: int|
            0 <= i < self.accounts.len() ==> (#[trigger] self.accounts[i]).dollars == logged_total(
                self.log,
                self.accounts[i].id,
                Currency::Dollars.code_spec(),
            ) && self.accounts[i].diamonds == logged_total(
                self.log,
                self.accounts[i].id,
                Currency::Diamonds.code_spec(),
            )
    }

    /// The ledger after the balance `currency` of the account at place `at`
    /// has changed by `delta` and the change has been logged.
    pub open spec fn post(
        self,
        at: int,
        currency: Currency,
        delta: int,
        kind: Seq<char>,
        context: Option<Seq<char>>,
        created_at: Seq<char>,
    ) -> LedgerView {
        let account = self.accounts[at];
        let balance = account.balance(currency) + delta;
        LedgerView {
            accounts: self.accounts.update(at, account.with_balance(currency, balance)),
            log: self.log.push(
                TransactionView {
                    id: self.next_transaction_id,
                    user_id: account.id,
                    amount: delta,
                    balance_after: balance,
                    currency: currency.code_spec(),
                    kind,
                    context,
                    created_at,
                },
            ),
            next_transaction_id: self.next_transaction_id + 1,
            ..self
        }
    }

    /// Taking `amount` dollars from the account `user_id`: turned down if the
    /// account holds less, else the balance falls by `amount` and a row logs
    /// the change of `-amount`.
    pub open spec fn debit(
        self,
        user_id: int,
        amount: int,
        kind: Seq<char>,
        context: Option<Seq<char>>,
        created_at: Seq<char>,
    ) -> Result<(LedgerView, Receipt), LedgerError> {
        match self.account_at(user_id) {
            None => Err(LedgerError::UnknownAccount),
            Some(at) => match debit_balance_spec(self.accounts[at].dollars, amount) {
                Err(error) => Err(error),
                Ok(balance) => if self.next_transaction_id >= i32::MAX {
                    Err(LedgerError::Exhausted)
                } else {
                    Ok(
                        (
                            self.post(at, Currency::Dollars, -amount, kind, context, created_at),
                            Receipt {
                                balance: balance as i64,
                                transaction_id: Some(self.next_transaction_id as i32),
                            },
                        ),
                    )
                },
            },
        }
    }

    /// Paying `amount` into a balance of the account `user_id`: nothing
    /// happens for an amount of zero, else the balance rises by `amount` and
    /// a row logs the change.
    pub open spec fn credit(
        self,
        user_id: int,
        amount: int,
        currency: Currency,
        kind: Seq<char>,
        context: Option<Seq<char>>,
        created_at: Seq<char>,
    ) -> Result<(LedgerView, Receipt), LedgerError> {
        match self.account_at(user_id) {
            None => Err(LedgerError::UnknownAccount),
            Some(at) => match credit_balance_spec(self.accounts[at].balance(currency), amount) {
                Err(error) => Err(error),
                Ok(balance) => if amount == 0 {
                    Ok((self, Receipt { balance: balance as i64, transaction_id: None }))
                } else if self.next_transaction_id >= i32::MAX {
                    Err(LedgerError::Exhausted)
                } else {
                    Ok(
                        (
                            self.post(at, currency, amount, kind, context, created_at),
                            Receipt {
                                balance: balance as i64,
                                transaction_id: Some(self.next_transaction_id as i32),
                            },
                        ),
                    )
                },
            },
        }
    }

    /// Taking the row `transaction_id` back: the row leaves the log and its
    /// change leaves the balance.
    pub open spec fn compensate(self, transaction_id: int) -> Result<
        (LedgerView, Receipt),
        LedgerError,
    > {
        match self.row_at(transaction_id) {
            None => Err(LedgerError::UnknownTransaction),
            Some(row) => match self.account_at(self.log[row].user_id) {
                None => Err(LedgerError::UnknownAccount),
                Some(at) => {
                    let currency = currency_of(self.log[row].currency);
                    let account = self.accounts[at];
                    match compensated_balance_spec(account.balance(currency), self.log[row].amount) {
                        Err(error) => Err(error),
                        Ok(balance) => Ok(
                            (
                                LedgerView {
                                    accounts: self.accounts.update(
                                        at,
                                        account.with_balance(currency, balance),
                                    ),
                                    log: self.log.remove(row),
                                    ..self
                                },
                                Receipt { balance: balance as i64, transaction_id: None },
                            ),
                        ),
                    }
                },
            },
        }
    }

    /// Looking up the account of the player `discord_id`, which is opened
    /// with empty balances if the player has none.
    pub open spec fn open_account(self, discord_id: int, created_at: Seq<char>) -> Result<
        (LedgerView, AccountView),
        LedgerError,
    > {
        match self.account_of(discord_id) {
            Some(at) => Ok((self, self.accounts[at])),
            None => if self.next_account_id >= i32::MAX {
                Err(LedgerError::Exhausted)
            } else {
                let account = AccountView {
                    id: self.next_account_id,
                    discord_id,
                    dollars: 0,
                    diamonds: 0,
                    created_at,
                };
                Ok(
                    (
                        LedgerView {
                            accounts: self.accounts.push(account),
                            next_account_id: self.next_account_id + 1,
                            ..self
                        },
                        account,
                    ),
                )
            },
        }
    }

    /// The newest rows of an account, newest first, as many as `limit` allows.
    pub open spec fn history(self, user_id: int, limit: int) -> Seq<TransactionView> {
        newest_first(self.log, user_id, history_cap_spec(limit))
    }
}

/// A row added to the log adds its change to the balance it names and to no
/// other.
pub proof fn lemma_total_push(
    log: Seq<TransactionView>,
    row: TransactionView,
    user_id: int,
    code: Seq<char>,
)
    ensures
        logged_total(log.push(row), user_id, code) == logged_total(log, user_id, code) + if row.user_id
            == user_id && row.currency == code {
            row.amount
        } else {
            0
        },
{
    assert(log.push(row).drop_last() =~= log);
}

/// A row taken out of the log takes its change from the balance it names and
/// from no other.
pub proof fn lemma_total_remove(
    log: Seq<TransactionView>,
    at: int,
    user_id: int,
    code: Seq<char>,
)
    requires
        0 <= at < log.len(),
    ensures
        logged_total(log.remove(at), user_id, code) == logged_total(log, user_id, code) - if log[at].user_id
            == user_id && log[at].currency == code {
            log[at].amount
        } else {
            0
        },
    decreases log.len(),
{
    if at == log.len() - 1 {
        assert(log.remove(at) =~= log.drop_last());
    } else {
        lemma_total_remove(log.drop_last(), at, user_id, code);
        assert(log.remove(at).drop_last() =~= log.drop_last().remove(at));
        assert(log.remove(at).last() == log.last());
    }
}

/// A log without a row for an account sums to nothing for it.
pub proof fn lemma_total_of_stranger(log: Seq<TransactionView>, user_id: int, code: Seq<char>)
    requires
        forall|i: int| 0 <= i < log.len() ==> (#[trigger] log[i]).user_id != user_id,
    ensures
        logged_total(log, user_id, code) == 0,
    decreases log.len(),
{
    if log.len() > 0 {
        assert(log.last() == log[log.len() - 1]);
        assert forall|i: int| 0 <= i < log.drop_last().len() implies (#[trigger] log.drop_last()[i]).user_id
            != user_id by {
            assert(log.drop_last()[i] == log[i]);
        }
        lemma_total_of_stranger(log.drop_last(), user_id, code);
    }
}

/// In a well-formed ledger an id names the one account that carries it.
pub proof fn lemma_account_at(ledger: LedgerView, at: int)
    requires
        ledger.wf(),
        0 <= at < ledger.accounts.len(),
    ensures
        ledger.account_at(ledger.accounts[at].id) == Some(at),
        ledger.account_of(ledger.accounts[at].discord_id) == Some(at),
{
    let by_id = ledger.account_at(ledger.accounts[at].id)->0;
    assert(ledger.accounts[by_id].id == ledger.accounts[at].id);
    if by_id < at {
        assert(ledger.accounts[by_id].id < ledger.accounts[at].id);
    } else if at < by_id {
        assert(ledger.accounts[at].id < ledger.accounts[by_id].id);
    }
    let by_player = ledger.account_of(ledger.accounts[at].discord_id)->0;
    assert(ledger.accounts[by_player].discord_id == ledger.accounts[at].discord_id);
    if by_player < at {
        assert(ledger.accounts[by_player].discord_id != ledger.accounts[at].discord_id);
    } else if at < by_player {
        assert(ledger.accounts[at].discord_id != ledger.accounts[by_player].discord_id);
    }
}

/// In a well-formed ledger an id names the one row that carries it.
pub proof fn lemma_row_at(ledger: LedgerView, at: int)
    requires
        ledger.wf(),
        0 <= at < ledger.log.len(),
    ensures
        ledger.row_at(ledger.log[at].id) == Some(at),
{
    let found = ledger.row_at(ledger.log[at].id)->0;
    assert(ledger.log[found].id == ledger.log[at].id);
    if found < at {
        assert(ledger.log[found].id < ledger.log[at].id);
    } else if at < found {
        assert(ledger.log[at].id < ledger.log[found].id);
    }
}

/// Logging a change keeps a well-formed ledger well formed.
pub proof fn lemma_post_keeps_wf(
    ledger: LedgerView,
    at: int,
    currency: Currency,
    delta: int,
    kind: Seq<char>,
    context: Option<Seq<char>>,
    created_at: Seq<char>,
)
    requires
        ledger.wf(),
        0 <= at < ledger.accounts.len(),
        i64::MIN <= ledger.accounts[at].balance(currency) + delta <= i64::MAX,
        ledger.next_transaction_id < i32::MAX,
    ensures
        ledger.post(at, currency, delta, kind, context, created_at).wf(),
{
    let after = ledger.post(at, currency, delta, kind, context, created_at);
    let row = after.log.last();
    lemma_codes_differ();
    assert forall|i: int, j: int| 0 <= i < j < after.log.len() implies (#[trigger] after.log[i]).id
        < (#[trigger] after.log[j]).id by {
        if j < ledger.log.len() {
            assert(after.log[i] == ledger.log[i] && after.log[j] == ledger.log[j]);
        } else {
            assert(after.log[i] == ledger.log[i]);
        }
    }
    assert forall|i: int| 0 <= i < after.log.len() implies (#[trigger] after.log[i]).user_id
        < after.next_account_id by {
        if i < ledger.log.len() {
            assert(after.log[i] == ledger.log[i]);
        }
    }
    assert forall|i: int| 0 <= i < after.accounts.len() implies (#[trigger] after.accounts[i]).dollars
        == logged_total(after.log, after.accounts[i].id, Currency::Dollars.code_spec())
        && after.accounts[i].diamonds == logged_total(
        after.log,
        after.accounts[i].id,
        Currency::Diamonds.code_spec(),
    ) by {
        let id = after.accounts[i].id;
        assert(ledger.accounts[i].id == id);
        lemma_total_push(ledger.log, row, id, Currency::Dollars.code_spec());
        lemma_total_push(ledger.log, row, id, Currency::Diamonds.code_spec());
        if i != at {
            if i < at {
                assert(ledger.accounts[i].id < ledger.accounts[at].id);
            } else {
                assert(ledger.accounts[at].id < ledger.accounts[i].id);
            }
        }
    }
}

/// A credit leaves the account where it was, its other balance as it was, and
/// uses up at most one id.
pub proof fn lemma_credit_keeps_others(
    ledger: LedgerView,
    user_id: int,
    amount: int,
    currency: Currency,
    kind: Seq<char>,
    context: Option<Seq<char>>,
    created_at: Seq<char>,
)
    requires
        ledger.wf(),
    ensures
        ledger.credit(user_id, amount, currency, kind, context, created_at) matches Ok(
            (after, _),
        ) ==> {
            &&& after.wf()
            &&& after.account_at(user_id) == ledger.account_at(user_id)
            &&& after.accounts.len() == ledger.accounts.len()
            &&& after.next_transaction_id == ledger.next_transaction_id + if amount == 0 {
                0int
            } else {
                1int
            }
            &&& forall|other: Currency|
                other != currency ==> after.accounts[ledger.account_at(user_id)->0].balance(other)
                    == ledger.accounts[ledger.account_at(user_id)->0].balance(other)
        },
{
    if ledger.credit(user_id, amount, currency, kind, context, created_at) is Ok {
        let at = ledger.account_at(user_id)->0;
        let after = (ledger.credit(user_id, amount, currency, kind, context, created_at)->Ok_0).0;
        if amount != 0 {
            lemma_post_keeps_wf(ledger, at, currency, amount, kind, context, created_at);
        }
        lemma_account_at(ledger, at);
        assert(after.accounts[at].id == user_id);
        lemma_account_at(after, at);
    }
}

/// Taking a row back keeps a well-formed ledger well formed.
pub proof fn lemma_compensate_keeps_wf(ledger: LedgerView, transaction_id: int)
    requires
        ledger.wf(),
        ledger.compensate(transaction_id) is Ok,
    ensures
        (ledger.compensate(transaction_id)->Ok_0).0.wf(),
{
    let after = (ledger.compensate(transaction_id)->Ok_0).0;
    let row = ledger.row_at(transaction_id)->0;
    let at = ledger.account_at(ledger.log[row].user_id)->0;
    let gone = ledger.log[row];
    lemma_codes_differ();
    assert forall|i: int| 0 <= i < after.log.len() implies after.log[i] == ledger.log[if i < row {
        i
    } else {
        i + 1
    }] by {}
    assert forall|i: int, j: int| 0 <= i < j < after.log.len() implies (#[trigger] after.log[i]).id
        < (#[trigger] after.log[j]).id by {
        let from = if i < row {
            i
        } else {
            i + 1
        };
        let to = if j < row {
            j
        } else {
            j + 1
        };
        assert(ledger.log[from].id < ledger.log[to].id);
    }
    assert forall|i: int| 0 <= i < after.accounts.len() implies (#[trigger] after.accounts[i]).dollars
        == logged_total(after.log, after.accounts[i].id, Currency::Dollars.code_spec())
        && after.accounts[i].diamonds == logged_total(
        after.log,
        after.accounts[i].id,
        Currency::Diamonds.code_spec(),
    ) by {
        let id = after.accounts[i].id;
        assert(ledger.accounts[i].id == id);
        lemma_total_remove(ledger.log, row, id, Currency::Dollars.code_spec());
        lemma_total_remove(ledger.log, row, id, Currency::Diamonds.code_spec());
        if i != at {
            if i < at {
                assert(ledger.accounts[i].id < ledger.accounts[at].id);
            } else {
                assert(ledger.accounts[at].id < ledger.accounts[i].id);
            }
        }
    }
}

/// Logging a change keeps the recorded balances right.
pub proof fn lemma_post_keeps_chain(
    ledger: LedgerView,
    at: int,
    currency: Currency,
    delta: int,
    kind: Seq<char>,
    context: Option<Seq<char>>,
    created_at: Seq<char>,
)
    requires
        ledger.wf(),
        ledger.chained(),
        0 <= at < ledger.accounts.len(),
    ensures
        ledger.post(at, currency, delta, kind, context, created_at).chained(),
{
    let after = ledger.post(at, currency, delta, kind, context, created_at);
    let row = after.log.last();
    assert forall|i: int| 0 <= i < after.log.len() implies (#[trigger] after.log[i]).balance_after
        == logged_total(after.log.take(i + 1), after.log[i].user_id, after.log[i].currency) by {
        if i < ledger.log.len() {
            assert(after.log[i] == ledger.log[i]);
            assert(after.log.take(i + 1) =~= ledger.log.take(i + 1));
        } else {
            assert(after.log.take(i + 1) =~= ledger.log.push(row));
            lemma_total_push(ledger.log, row, row.user_id, row.currency);
        }
    }
}

/// Taking a row back keeps the recorded balances right, provided that no
/// later row has changed the same balance.
pub proof fn lemma_compensate_keeps_chain(ledger: LedgerView, transaction_id: int)
    requires
        ledger.wf(),
        ledger.chained(),
        ledger.compensate(transaction_id) is Ok,
        ledger.newest_of_its_balance(ledger.row_at(transaction_id)->0),
    ensures
        (ledger.compensate(transaction_id)->Ok_0).0.chained(),
{
    let after = (ledger.compensate(transaction_id)->Ok_0).0;
    let row = ledger.row_at(transaction_id)->0;
    assert forall|i: int| 0 <= i < after.log.len() implies (#[trigger] after.log[i]).balance_after
        == logged_total(after.log.take(i + 1), after.log[i].user_id, after.log[i].currency) by {
        if i < row {
            assert(after.log[i] == ledger.log[i]);
            assert(after.log.take(i + 1) =~= ledger.log.take(i + 1));
        } else {
            assert(after.log[i] == ledger.log[i + 1]);
            assert(after.log.take(i + 1) =~= ledger.log.take(i + 2).remove(row));
            lemma_total_remove(
                ledger.log.take(i + 2),
                row,
                ledger.log[i + 1].user_id,
                ledger.log[i + 1].currency,
            );
            assert(ledger.log.take(i + 2)[row] == ledger.log[row]);
        }
    }
}

/// Taking back the row that a debit has just written restores the ledger:
/// every balance and the whole log are as they were before the debit. Only
/// the id of the row is not handed out again.
pub proof fn lemma_debit_then_compensate(
    ledger: LedgerView,
    user_id: int,
    amount: int,
    kind: Seq<char>,
    context: Option<Seq<char>>,
    created_at: Seq<char>,
)
    requires
        ledger.wf(),
        ledger.debit(user_id, amount, kind, context, created_at) is Ok,
    ensures
        ({
            let (debited, receipt) = ledger.debit(user_id, amount, kind, context, created_at)->Ok_0;
            &&& receipt.transaction_id is Some
            &&& debited.log.len() == ledger.log.len() + 1
            &&& debited.compensate(receipt.transaction_id->0 as int) matches Ok((restored, refund))
            &&& restored.accounts == ledger.accounts
            &&& restored.log == ledger.log
            &&& refund.balance == ledger.accounts[ledger.account_at(user_id)->0].dollars
        }),
{
    let at = ledger.account_at(user_id)->0;
    let (debited, receipt) = ledger.debit(user_id, amount, kind, context, created_at)->Ok_0;
    lemma_post_keeps_wf(ledger, at, Currency::Dollars, -amount, kind, context, created_at);
    let last = ledger.log.len() as int;
    let row = debited.log[last];
    assert(row.id == ledger.next_transaction_id);
    assert(receipt.transaction_id->0 as int == row.id);
    lemma_row_at(debited, last);
    assert(debited.row_at(row.id) == Some(last));
    lemma_account_at(ledger, at);
    assert(ledger.accounts[at].id == user_id);
    assert(debited.accounts[at].id == user_id);
    lemma_account_at(debited, at);
    assert(debited.account_at(row.user_id) == Some(at));
    assert(currency_of(row.currency) == Currency::Dollars);
    assert(debited.accounts[at].dollars - row.amount == ledger.accounts[at].dollars);
    assert(debited.log.remove(last) =~= ledger.log);
    assert(debited.compensate(row.id) is Ok);
    let restored = (debited.compensate(row.id)->Ok_0).0;
    assert(restored.accounts =~= ledger.accounts);
}

/// Computes the balance left when `amount` is taken from `balance`.
pub fn debit_balance(balance: i64, amount: i64) -> (left: Result<i64, LedgerError>)
    ensures
        match debit_balance_spec(balance as int, amount as int) {
            Ok(value) => left == Ok::<i64, LedgerError>(value as i64) && value == balance - amount,
            Err(error) => left == Err::<i64, LedgerError>(error),
        },
{
    if amount > balance {
        Err(LedgerError::InsufficientFunds)
    } else if amount == i64::MIN {
        Err(LedgerError::Overflow)
    } else {
        match balance.checked_sub(amount) {
            Some(value) => Ok(value),
            None => Err(LedgerError::Overflow),
        }
    }
}

/// Computes the balance reached when `amount` is paid into `balance`.
pub fn credit_balance(balance: i64, amount: i64) -> (reached: Result<i64, LedgerError>)
    ensures
        match credit_balance_spec(balance as int, amount as int) {
            Ok(value) => reached == Ok::<i64, LedgerError>(value as i64) && value == balance
                + amount,
            Err(error) => reached == Err::<i64, LedgerError>(error),
        },
{
    if amount < 0 {
        Err(LedgerError::InvalidAmount)
    } else {
        match balance.checked_add(amount) {
            Some(value) => Ok(value),
            None => Err(LedgerError::Overflow),
        }
    }
}

/// Computes the balance reached when a logged change of `amount` is taken
/// back.
pub fn compensated_balance(balance: i64, amount: i64) -> (reached: Result<i64, LedgerError>)
    ensures
        match compensated_balance_spec(balance as int, amount as int) {
            Ok(value) => reached == Ok::<i64, LedgerError>(value as i64) && value == balance
                - amount,
            Err(error) => reached == Err::<i64, LedgerError>(error),
        },
{
    match balance.checked_sub(amount) {
        Some(value) => Ok(value),
        None => Err(LedgerError::Overflow),
    }
}

/// How many rows are handed out when `limit` are asked for.
pub fn history_cap(limit: i64) -> (cap: usize)
    ensures
        cap == history_cap_spec(limit as int),
{
    if limit < 1 {
        1
    } else if limit > HISTORY_LIMIT {
        HISTORY_LIMIT as usize
    } else {
        limit as usize
    }
}

impl UserModel {
    /// A copy of the account.
    pub fn duplicate(&self) -> (copy: UserModel)
        ensures
            copy == *self,
    {
        UserModel {
            id: self.id,
            discord_id: self.discord_id,
            dollars: self.dollars,
            diamonds: self.diamonds,
            created_at: self.created_at.clone(),
        }
    }

    /// The balance that the account holds in `currency`.
    pub fn balance(&self, currency: Currency) -> (balance: i64)
        ensures
            balance == self@.balance(currency),
    {
        match currency {
            Currency::Dollars => self.dollars,
            Currency::Diamonds => self.diamonds,
        }
    }
}

impl CurrencyTransactionModel {
    /// A copy of the row.
    pub fn duplicate(&self) -> (copy: CurrencyTransactionModel)
        ensures
            copy == *self,
    {
        CurrencyTransactionModel {
            id: self.id,
            user_id: self.user_id,
            amount: self.amount,
            balance_after: self.balance_after,
            currency: self.currency.clone(),
            kind: self.kind.clone(),
            context: match &self.context {
                Some(text) => Some(text.clone()),
                None => None,
            },
            created_at: self.created_at.clone(),
        }
    }

    /// The currency that the row is logged under.
    pub fn logged_currency(&self) -> (currency: Currency)
        ensures
            currency == currency_of(self@.currency),
    {
        if str_eq(self.currency.as_str(), Currency::Dollars.code()) {
            Currency::Dollars
        } else {
            Currency::Diamonds
        }
    }
}

impl Ledger {
    /// The ledger's invariant, read off its view.
    pub open spec fn wf(&self) -> bool {
        self@.wf()
    }

    /// A ledger without accounts or rows.
    pub fn new() -> (ledger: Ledger)
        ensures
            ledger.wf(),
            ledger@.accounts.len() == 0,
            ledger@.log.len() == 0,
            ledger@.next_account_id == 1,
            ledger@.next_transaction_id == 1,
    {
        Ledger {
            accounts: Vec::new(),
            transactions: Vec::new(),
            next_account_id: 1,
            next_transaction_id: 1,
        }
    }

    /// The place of the account with the id `user_id`.
    fn find_account(&self, user_id: i32) -> (found: Option<usize>)
        requires
            self.wf(),
        ensures
            match found {
                Some(at) => self@.account_at(user_id as int) == Some(at as int) && at
                    < self.accounts.len() && self.accounts[at as int].id == user_id,
                None => self@.account_at(user_id as int) is None,
            },
    {
        let mut i: usize = 0;
        while i < self.accounts.len()
            invariant
                self.wf(),
                i <= self.accounts.len(),
                forall|j: int| 0 <= j < i ==> self@.accounts[j].id != user_id,
            decreases self.accounts.len() - i,
        {
            if self.accounts[i].id == user_id {
                proof {
                    lemma_account_at(self@, i as int);
                }
                return Some(i);
            }
            i += 1;
        }
        None
    }

    /// The place of the account of the player `discord_id`.
    fn find_player(&self, discord_id: i64) -> (found: Option<usize>)
        requires
            self.wf(),
        ensures
            match found {
                Some(at) => self@.account_of(discord_id as int) == Some(at as int) && at
                    < self.accounts.len(),
                None => self@.account_of(discord_id as int) is None,
            },
    {
        let mut i: usize = 0;
        while i < self.accounts.len()
            invariant
                self.wf(),
                i <= self.accounts.len(),
                forall|j: int| 0 <= j < i ==> self@.accounts[j].discord_id != discord_id,
            decreases self.accounts.len() - i,
        {
            if self.accounts[i].discord_id == discord_id {
                proof {
                    lemma_account_at(self@, i as int);
                }
                return Some(i);
            }
            i += 1;
        }
        None
    }

    /// The place of the row with the id `transaction_id`.
    fn find_row(&self, transaction_id: i32) -> (found: Option<usize>)
        requires
            self.wf(),
        ensures
            match found {
                Some(at) => self@.row_at(transaction_id as int) == Some(at as int) && at
                    < self.transactions.len(),
                None => self@.row_at(transaction_id as int) is None,
            },
    {
        let mut i: usize = 0;
        while i < self.transactions.len()
            invariant
                self.wf(),
                i <= self.transactions.len(),
                forall|j: int| 0 <= j < i ==> self@.log[j].id != transaction_id,
            decreases self.transactions.len() - i,
        {
            if self.transactions[i].id == transaction_id {
                proof {
                    lemma_row_at(self@, i as int);
                }
                return Some(i);
            }
            i += 1;
        }
        None
    }

    /// Looks up the account of the player `discord_id` and opens one with
    /// empty balances if the player has none.
    pub fn get_or_create_user(&mut self, discord_id: i64, created_at: String) -> (account: Result<
        UserModel,
        LedgerError,
    >)
        requires
            old(self).wf(),
        ensures
            final(self).wf(),
            match old(self)@.open_account(discord_id as int, created_at@) {
                Ok((ledger, opened)) => final(self)@ == ledger && account is Ok
                    && account->Ok_0@ == opened,
                Err(error) => final(self)@ == old(self)@ && account == Err::<
                    UserModel,
                    LedgerError,
                >(error),
            },
    {
        match self.find_player(discord_id) {
            Some(at) => Ok(self.accounts[at].duplicate()),
            None => {
                if self.next_account_id == i32::MAX {
                    return Err(LedgerError::Exhausted);
                }
                let account = UserModel {
                    id: self.next_account_id,
                    discord_id,
                    dollars: 0,
                    diamonds: 0,
                    created_at,
                };
                let copy = account.duplicate();
                proof {
                    assert forall|i: int| 0 <= i < self@.log.len() implies (#[trigger] self@.log[i]).user_id
                        != account.id by {}
                    lemma_total_of_stranger(
                        self@.log,
                        account.id as int,
                        Currency::Dollars.code_spec(),
                    );
                    lemma_total_of_stranger(
                        self@.log,
                        account.id as int,
                        Currency::Diamonds.code_spec(),
                    );
                }
                self.accounts.push(account);
                self.next_account_id += 1;
                proof {
                    assert(self@.accounts =~= old(self)@.accounts.push(copy@));
                    assert(self@.log =~= old(self)@.log);
                    assert forall|i: int| 0 <= i < self@.accounts.len() implies #[trigger] self@.accounts[i]
                        == if i < old(self)@.accounts.len() {
                        old(self)@.accounts[i]
                    } else {
                        copy@
                    } by {}
                }
                Ok(copy)
            },
        }
    }

    /// A copy of the account with the id `user_id`.
    pub fn account(&self, user_id: i32) -> (account: Option<UserModel>)
        requires
            self.wf(),
        ensures
            match self@.account_at(user_id as int) {
                Some(at) => account is Some && account->0@ == self@.accounts[at],
                None => account is None,
            },
    {
        match self.find_account(user_id) {
            Some(at) => Some(self.accounts[at].duplicate()),
            None => None,
        }
    }

    /// Changes one balance of the account at place `at` by `delta` and logs
    /// the change.
    fn post(
        &mut self,
        at: usize,
        currency: Currency,
        delta: i64,
        balance: i64,
        kind: &str,
        context: Option<String>,
        created_at: String,
    ) -> (transaction_id: i32)
        requires
            old(self).wf(),
            at < old(self).accounts.len(),
            balance == old(self)@.accounts[at as int].balance(currency) + delta,
            old(self).next_transaction_id < i32::MAX,
        ensures
            final(self).wf(),
            final(self)@ == old(self)@.post(
                at as int,
                currency,
                delta as int,
                kind@,
                text_of(context),
                created_at@,
            ),
            transaction_id == old(self).next_transaction_id,
            old(self)@.chained() ==> final(self)@.chained(),
    {
        proof {
            if self@.chained() {
                lemma_post_keeps_chain(
                    self@,
                    at as int,
                    currency,
                    delta as int,
                    kind@,
                    text_of(context),
                    created_at@,
                );
            }
            lemma_post_keeps_wf(
                self@,
                at as int,
                currency,
                delta as int,
                kind@,
                text_of(context),
                created_at@,
            );
        }
        let transaction_id: i32 = self.next_transaction_id;
        let row = CurrencyTransactionModel {
            id: transaction_id,
            user_id: self.accounts[at].id,
            amount: delta,
            balance_after: balance,
            currency: String::from_str(currency.code()),
            kind: String::from_str(kind),
            context,
            created_at,
        };
        match currency {
            Currency::Dollars => {
                self.accounts[at].dollars = balance;
            },
            Currency::Diamonds => {
                self.accounts[at].diamonds = balance;
            },
        }
        self.transactions.push(row);
        self.next_transaction_id += 1;
        proof {
            let wanted = old(self)@.post(
                at as int,
                currency,
                delta as int,
                kind@,
                text_of(context),
                created_at@,
            );
            assert(self@.accounts =~= wanted.accounts);
            assert(self@.log =~= wanted.log);
        }
        transaction_id
    }

    /// Takes `amount` dollars from the account `user_id`. If the account holds
    /// less the debit fails with `InsufficientFunds`; else the balance falls
    /// by `amount` and a row logs the change of `-amount`.
    pub fn debit(
        &mut self,
        user_id: i32,
        amount: i64,
        kind: &str,
        context: Option<String>,
        created_at: String,
    ) -> (receipt: Result<Receipt, LedgerError>)
        requires
            old(self).wf(),
        ensures
            final(self).wf(),
            old(self)@.chained() ==> final(self)@.chained(),
            match old(self)@.debit(user_id as int, amount as int, kind@, text_of(context), created_at@) {
                Ok((ledger, written)) => final(self)@ == ledger && receipt == Ok::<
                    Receipt,
                    LedgerError,
                >(written),
                Err(error) => final(self)@ == old(self)@ && receipt == Err::<Receipt, LedgerError>(
                    error,
                ),
            },
    {
        let at: usize = match self.find_account(user_id) {
            Some(at) => at,
            None => {
                return Err(LedgerError::UnknownAccount);
            },
        };
        let balance: i64 = match debit_balance(self.accounts[at].dollars, amount) {
            Ok(balance) => balance,
            Err(error) => {
                return Err(error);
            },
        };
        if self.next_transaction_id == i32::MAX {
            return Err(LedgerError::Exhausted);
        }
        let transaction_id: i32 = self.post(
            at,
            Currency::Dollars,
            -amount,
            balance,
            kind,
            context,
            created_at,
        );
        Ok(Receipt { balance, transaction_id: Some(transaction_id) })
    }

    /// Pays `amount` into one balance of the account `user_id`. An amount of
    /// zero changes nothing and logs nothing; a negative one is turned down.
    pub fn credit(
        &mut self,
        user_id: i32,
        amount: i64,
        currency: Currency,
        kind: &str,
        context: Option<String>,
        created_at: String,
    ) -> (receipt: Result<Receipt, LedgerError>)
        requires
            old(self).wf(),
        ensures
            final(self).wf(),
            old(self)@.chained() ==> final(self)@.chained(),
            match old(self)@.credit(
                user_id as int,
                amount as int,
                currency,
                kind@,
                text_of(context),
                created_at@,
            ) {
                Ok((ledger, written)) => final(self)@ == ledger && receipt == Ok::<
                    Receipt,
                    LedgerError,
                >(written),
                Err(error) => final(self)@ == old(self)@ && receipt == Err::<Receipt, LedgerError>(
                    error,
                ),
            },
    {
        let at: usize = match self.find_account(user_id) {
            Some(at) => at,
            None => {
                return Err(LedgerError::UnknownAccount);
            },
        };
        let balance: i64 = match credit_balance(self.accounts[at].balance(currency), amount) {
            Ok(balance) => balance,
            Err(error) => {
                return Err(error);
            },
        };
        if amount == 0 {
            return Ok(Receipt { balance, transaction_id: None });
        }
        if self.next_transaction_id == i32::MAX {
            return Err(LedgerError::Exhausted);
        }
        let transaction_id: i32 = self.post(at, currency, amount, balance, kind, context, created_at);
        Ok(Receipt { balance, transaction_id: Some(transaction_id) })
    }

    /// Takes the row `transaction_id` back: the row leaves the log and its
    /// change leaves the balance.
    ///
    /// This is meant for one case only: to undo the debit of a wager when its
    /// owner cancels the session before anything was settled. The caller must
    /// see to it that no later change to the same balance has been logged in
    /// between: the rows after the one taken back keep the balances they
    /// recorded, and only where the row is the newest of its balance are
    /// those still right afterwards (see [`lemma_compensate_keeps_chain`]).
    pub fn compensate(&mut self, transaction_id: i32) -> (receipt: Result<Receipt, LedgerError>)
        requires
            old(self).wf(),
        ensures
            final(self).wf(),
            old(self)@.chained() && (old(self)@.row_at(transaction_id as int) matches Some(row)
                ==> old(self)@.newest_of_its_balance(row)) ==> final(self)@.chained(),
            match old(self)@.compensate(transaction_id as int) {
                Ok((ledger, written)) => final(self)@ == ledger && receipt == Ok::<
                    Receipt,
                    LedgerError,
                >(written),
                Err(error) => final(self)@ == old(self)@ && receipt == Err::<Receipt, LedgerError>(
                    error,
                ),
            },
    {
        let row: usize = match self.find_row(transaction_id) {
            Some(row) => row,
            None => {
                return Err(LedgerError::UnknownTransaction);
            },
        };
        let at: usize = match self.find_account(self.transactions[row].user_id) {
            Some(at) => at,
            None => {
                return Err(LedgerError::UnknownAccount);
            },
        };
        let currency = self.transactions[row].logged_currency();
        let balance: i64 = match compensated_balance(
            self.accounts[at].balance(currency),
            self.transactions[row].amount,
        ) {
            Ok(balance) => balance,
            Err(error) => {
                return Err(error);
            },
        };
        proof {
            lemma_compensate_keeps_wf(self@, transaction_id as int);
            if self@.chained() && self@.newest_of_its_balance(row as int) {
                lemma_compensate_keeps_chain(self@, transaction_id as int);
            }
        }
        match currency {
            Currency::Dollars => {
                self.accounts[at].dollars = balance;
            },
            Currency::Diamonds => {
                self.accounts[at].diamonds = balance;
            },
        }
        self.transactions.remove(row);
        proof {
            let wanted = (old(self)@.compensate(transaction_id as int)->Ok_0).0;
            assert(self@.accounts =~= wanted.accounts);
            assert(self@.log =~= wanted.log);
        }
        Ok(Receipt { balance, transaction_id: None })
    }

    /// The newest rows of the account `user_id`, newest first. However many
    /// are asked for, at least one and at most [`HISTORY_LIMIT`] are handed
    /// out, if the account has as many.
    pub fn history(&self, user_id: i32, limit: i64) -> (rows: Vec<CurrencyTransactionModel>)
        ensures
            rows_view(rows@) == self@.history(user_id as int, limit as int),
            rows@.len() <= HISTORY_LIMIT,
    {
        let cap: usize = history_cap(limit);
        let ghost log = self@.log;
        let mut rows: Vec<CurrencyTransactionModel> = Vec::new();
        let mut i: usize = self.transactions.len();
        assert(log.take(i as int) =~= log);
        while i > 0 && rows.len() < cap
            invariant
                i <= self.transactions.len(),
                rows@.len() <= cap,
                cap <= HISTORY_LIMIT,
                log == self@.log,
                rows_view(rows@) + newest_first(
                    log.take(i as int),
                    user_id as int,
                    (cap - rows@.len()) as nat,
                ) == newest_first(log, user_id as int, cap as nat),
            decreases i,
        {
            let ghost before = rows_view(rows@);
            proof {
                assert(log.take(i as int).drop_last() =~= log.take(i - 1));
                assert(log.take(i as int).last() == self.transactions@[i - 1]@);
            }
            i -= 1;
            if self.transactions[i].user_id == user_id {
                rows.push(self.transactions[i].duplicate());
                proof {
                    assert(rows_view(rows@) =~= before + seq![self.transactions@[i as int]@]);
                    assert(before + (seq![self.transactions@[i as int]@] + newest_first(
                        log.take(i as int),
                        user_id as int,
                        (cap - rows@.len()) as nat,
                    )) =~= rows_view(rows@) + newest_first(
                        log.take(i as int),
                        user_id as int,
                        (cap - rows@.len()) as nat,
                    ));
                }
            }
        }
        proof {
            assert(newest_first(log.take(i as int), user_id as int, (cap - rows@.len()) as nat)
                =~= Seq::<TransactionView>::empty());
            assert(rows_view(rows@) + Seq::<TransactionView>::empty() =~= rows_view(rows@));
        }
        rows
    }
}

} // verus!
