//! How claims and the history of an account are written out.

use super::TRANSACTION_PAGE_SIZE;
use crate::clock::{
    absolute_text, describe_absolute, describe_relative, describe_relative_from_str, relative_text,
    rfc3339_instant, Timestamp,
};
use crate::constants::{emoji_text, icon, CustomEmoji};
use crate::format::{format_currency, grouped, currency_text, pretty, pretty_icon};
use crate::ledger::{rows_view, CurrencyTransactionModel, TransactionView};
use crate::pagination::{build_pages, page_count_spec, page_lines};
use crate::text::{join_lines, joined, magnitude, push_signed_decimal, signed_decimal, str_eq, texts};
use vstd::prelude::*;

verus! {

/// The name of a currency as the players know it; a code that names none of
/// the two stands for itself.
pub open spec fn currency_label(code: Seq<char>) -> Seq<char> {
    if code == "dollars"@ {
        "moedas"@
    } else if code == "diamonds"@ {
        "diamantes"@
    } else {
        code
    }
}

/// What is shown after a claim.
pub open spec fn claim_text(money: int, diamonds: Option<i64>) -> Seq<char> {
    pretty(emoji_text(icon::GIFT), "Recompensa coletada"@) + "\n"@ + pretty(
        emoji_text(icon::DOLLAR),
        "+"@ + signed_decimal(money) + " moedas"@,
    ) + "\n"@ + match diamonds {
        Some(amount) => pretty(
            emoji_text(icon::DIAMOND),
            "+"@ + signed_decimal(amount as int) + " diamantes"@,
        ),
        None => pretty(emoji_text(icon::DIAMOND), "Sem diamantes desta vez"@),
    }
}

/// What is shown for a reward that is on cooldown until `secs`.
pub open spec fn cooldown_text(secs: int) -> Seq<char> {
    pretty(emoji_text(icon::ERROR), "Tempo de espera ativo"@) + "\n"@ + pretty(
        emoji_text(icon::ALARM),
        absolute_text(secs),
    ) + "\n"@ + pretty(emoji_text(icon::TIMER), relative_text(secs))
}

/// How far an amount lies from zero.
pub open spec fn size_of(amount: int) -> nat {
    if amount < 0 {
        (-amount) as nat
    } else {
        amount as nat
    }
}

/// When a row was written, as it is shown: relative to now, or as unknown
/// where the stored text names no instant.
pub open spec fn written_at(created_at: Seq<char>) -> Seq<char> {
    match rfc3339_instant(created_at) {
        Some(instant) => relative_text(instant.secs as int),
        None => "momento desconhecido"@,
    }
}

/// The lines of a row of the history: the change, the balance it led to, its
/// kind and time, and its context if it has one.
pub open spec fn entry_lines(entry: TransactionView) -> Seq<Seq<char>> {
    entry_lines_with(entry, written_at(entry.created_at))
}

/// The lines of a row of the history, with the time of the row as it is
/// handed in.
pub open spec fn entry_lines_with(entry: TransactionView, written: Seq<char>) -> Seq<Seq<char>> {
    let label = currency_label(entry.currency);
    let head = seq![
        emoji_text(
            if entry.amount >= 0 {
                icon::PLUS
            } else {
                icon::MINUS
            },
        ) + " **"@ + grouped(size_of(entry.amount)) + " "@ + label + "**"@,
        "Saldo após: **"@ + currency_text(entry.balance_after) + " "@ + label + "**"@,
        "Tipo: `"@ + entry.kind + "` • "@ + written,
    ];
    match entry.context {
        Some(context) => if context.len() > 0 {
            head.push("Contexto: _"@ + context + "_ "@)
        } else {
            head
        },
        None => head,
    }
}

/// A row of the history as it is shown.
pub open spec fn entry_text(entry: TransactionView) -> Seq<char> {
    joined(entry_lines(entry), "\n"@)
}

/// The name of a currency as the players know it.
pub fn describe_currency(code: &str) -> (label: String)
    ensures
        label@ == currency_label(code@),
{
    if str_eq(code, "dollars") {
        String::from_str("moedas")
    } else if str_eq(code, "diamonds") {
        String::from_str("diamantes")
    } else {
        String::from_str(code)
    }
}

/// Writes what is shown after a claim.
pub fn format_claim_message(money: i64, diamonds: Option<i64>) -> (message: String)
    ensures
        message@ == claim_text(money as int, diamonds),
{
    let mut money_text = String::from_str("+");
    push_signed_decimal(&mut money_text, money);
    money_text.append(" moedas");
    let diamond_line = match diamonds {
        Some(amount) => {
            let mut diamond_text = String::from_str("+");
            push_signed_decimal(&mut diamond_text, amount);
            diamond_text.append(" diamantes");
            pretty_icon(icon::DIAMOND, diamond_text.as_str())
        },
        None => pretty_icon(icon::DIAMOND, "Sem diamantes desta vez"),
    };
    let mut message = pretty_icon(icon::GIFT, "Recompensa coletada");
    message.append("\n");
    message.append(pretty_icon(icon::DOLLAR, money_text.as_str()).as_str());
    message.append("\n");
    message.append(diamond_line.as_str());
    message
}

/// Writes what is shown for a reward that is on cooldown.
pub fn format_cooldown_message(next_time: Timestamp) -> (message: String)
    ensures
        message@ == cooldown_text(next_time.secs as int),
{
    let absolute = pretty_icon(icon::ALARM, describe_absolute(next_time).as_str());
    let relative = pretty_icon(icon::TIMER, describe_relative(next_time).as_str());
    let mut message = pretty_icon(icon::ERROR, "Tempo de espera ativo");
    message.append("\n");
    message.append(absolute.as_str());
    message.append("\n");
    message.append(relative.as_str());
    message
}

/// Writes a row of the history.
pub fn format_transaction_entry(entry: &CurrencyTransactionModel) -> (text: String)
    ensures
        text@ == entry_text(entry@),
{
    match describe_relative_from_str(entry.created_at.as_str()) {
        Some(relative) => format_transaction_entry_with(entry, relative.as_str()),
        None => format_transaction_entry_with(entry, "momento desconhecido"),
    }
}

/// Writes a row of the history, given how its time is to be shown.
pub fn format_transaction_entry_with(entry: &CurrencyTransactionModel, written: &str) -> (text:
    String)
    ensures
        text@ == joined(entry_lines_with(entry@, written@), "\n"@),
{
    let direction = if entry.amount >= 0 {
        CustomEmoji::new(icon::PLUS)
    } else {
        CustomEmoji::new(icon::MINUS)
    };
    let label = describe_currency(entry.currency.as_str());
    let size: u64 = magnitude(entry.amount);
    let amount_display = crate::format::format_magnitude(size);
    let balance_display = format_currency(entry.balance_after);
    let mut first = direction.as_str();
    first.append(" **");
    first.append(amount_display.as_str());
    first.append(" ");
    first.append(label.as_str());
    first.append("**");
    let mut second = String::from_str("Saldo após: **");
    second.append(balance_display.as_str());
    second.append(" ");
    second.append(label.as_str());
    second.append("**");
    let mut third = String::from_str("Tipo: `");
    third.append(entry.kind.as_str());
    third.append("` • ");
    third.append(written);
    let mut lines: Vec<String> = Vec::new();
    lines.push(first);
    lines.push(second);
    lines.push(third);
    match &entry.context {
        Some(context) => {
            if !context.as_str().is_empty() {
                let mut fourth = String::from_str("Contexto: _");
                fourth.append(context.as_str());
                fourth.append("_ ");
                lines.push(fourth);
            }
        },
        None => {},
    }
    proof {
        assert(texts(lines@) =~= entry_lines_with(entry@, written@));
    }
    join_lines(&lines, "\n")
}

/// Lays the history out on pages of [`TRANSACTION_PAGE_SIZE`] rows, with an
/// empty line between the rows of a page.
pub fn build_transaction_pages(entries: &Vec<CurrencyTransactionModel>) -> (pages: Vec<String>)
    ensures
        pages@.len() == page_count_spec(entries@.len(), TRANSACTION_PAGE_SIZE as nat),
        forall|page: int|
            0 <= page < pages@.len() ==> (#[trigger] pages@[page])@ == joined(
                page_lines(
                    rows_view(entries@).map_values(|row: TransactionView| entry_text(row)),
                    TRANSACTION_PAGE_SIZE as nat,
                    page,
                ),
                "\n\n"@,
            ),
{
    let mut lines: Vec<String> = Vec::new();
    let mut i: usize = 0;
    while i < entries.len()
        invariant
            i <= entries.len(),
            lines@.len() == i,
            forall|j: int| 0 <= j < i ==> (#[trigger] lines@[j])@ == entry_text(entries@[j]@),
        decreases entries.len() - i,
    {
        lines.push(format_transaction_entry(&entries[i]));
        i += 1;
    }
    proof {
        assert(texts(lines@) =~= rows_view(entries@).map_values(
            |row: TransactionView| entry_text(row),
        ));
    }
    build_pages(&lines, TRANSACTION_PAGE_SIZE, "\n\n")
}

} // verus!
