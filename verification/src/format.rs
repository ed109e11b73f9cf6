//! How amounts and lines of a message are written.

use crate::constants::{emoji_text, CustomEmoji};
use crate::text::{decimal, digit_char, digit_to_char, magnitude, push_char, push_decimal};
use vstd::prelude::*;

pub mod discord;

verus! {

/// The three digits of a number below a thousand, with leading zeros.
pub open spec fn three_digits(n: nat) -> Seq<char> {
    seq![digit_char(n / 100 % 10), digit_char(n / 10 % 10), digit_char(n % 10)]
}

/// Decimal notation of `n` with a dot between every three digits, counted
/// from the right.
pub open spec fn grouped(n: nat) -> Seq<char>
    decreases n,
{
    if n < 1000 {
        decimal(n)
    } else {
        grouped(n / 1000) + seq!['.'] + three_digits(n % 1000)
    }
}

/// An amount as it is shown: grouped by thousands, with a minus sign before a
/// negative one.
pub open spec fn currency_text(value: int) -> Seq<char> {
    if value < 0 {
        seq!['-'] + grouped((-value) as nat)
    } else {
        grouped(value as nat)
    }
}

/// A line of a message: a mark, a bar, and the text.
pub open spec fn pretty(emoji: Seq<char>, message: Seq<char>) -> Seq<char> {
    emoji + " | "@ + message
}

/// Appends `n` to `out`, grouped by thousands.
fn push_grouped(out: &mut String, n: u64)
    ensures
        final(out)@ == old(out)@ + grouped(n as nat),
    decreases n,
{
    if n < 1000 {
        push_decimal(out, n);
    } else {
        push_grouped(out, n / 1000);
        let ghost head = out@;
        let rest: u64 = n % 1000;
        push_char(out, '.');
        push_char(out, digit_to_char((rest / 100 % 10) as u8));
        push_char(out, digit_to_char((rest / 10 % 10) as u8));
        push_char(out, digit_to_char((rest % 10) as u8));
        proof {
            assert(out@ =~= head + seq!['.'] + three_digits((n % 1000) as nat));
            assert(old(out)@ + (grouped((n / 1000) as nat) + seq!['.'] + three_digits(
                (n % 1000) as nat,
            )) =~= head + seq!['.'] + three_digits((n % 1000) as nat));
        }
    }
}

/// Writes an amount without a sign, grouped by thousands.
pub fn format_magnitude(size: u64) -> (text: String)
    ensures
        text@ == grouped(size as nat),
{
    let mut text = String::new();
    push_grouped(&mut text, size);
    assert(text@ =~= grouped(size as nat));
    text
}

/// Formats an integer currency value using `.` as thousands separator.
pub fn format_currency(value: i64) -> (text: String)
    ensures
        text@ == currency_text(value as int),
{
    let mut text = String::new();
    if value < 0 {
        push_char(&mut text, '-');
    }
    push_grouped(&mut text, magnitude(value));
    proof {
        if value < 0 {
            assert(text@ =~= seq!['-'] + grouped((-value) as nat));
        } else {
            assert(text@ =~= grouped(value as nat));
        }
    }
    text
}

/// Builds a lightweight "emoji | message" string used across embeds and
/// responses.
pub fn pretty_message(emoji: &str, message: &str) -> (line: String)
    ensures
        line@ == pretty(emoji@, message@),
{
    let mut line = String::from_str(emoji);
    line.append(" | ");
    line.append(message);
    line
}

/// A line of a message that is marked with one of the application's emoji.
pub fn pretty_icon(icon: u64, message: &str) -> (line: String)
    ensures
        line@ == pretty(emoji_text(icon), message@),
{
    let mark = CustomEmoji::new(icon).as_str();
    pretty_message(mark.as_str(), message)
}

} // verus!
