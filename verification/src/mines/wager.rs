//! The wagers that are suggested while the player types one.

use super::{MAX_WAGER, MIN_WAGER};
use crate::text::{decimal, digits_value, has_prefix, is_digit, push_decimal, starts_with, to_chars};
use vstd::prelude::*;

verus! {

/// The most suggestions that are shown.
pub const MAX_CHOICES: usize = 25;

/// `percent` hundredths of `cap`, rounded to the nearest coin, halves up.
pub open spec fn percent_of(cap: int, percent: int) -> int {
    (cap * percent + 50) / 100
}

/// `value`, but at least the smallest wager and at most `cap`.
pub open spec fn bounded(value: int, cap: int) -> int {
    if value < MIN_WAGER {
        MIN_WAGER as int
    } else if value > cap {
        cap
    } else {
        value
    }
}

/// The most that can be wagered from `balance`.
pub open spec fn wager_cap(balance: int) -> int {
    if balance < MAX_WAGER {
        balance
    } else {
        MAX_WAGER as int
    }
}

/// The wagers that come into question under the cap: the smallest, the cap
/// itself, and a fifth, a good third, half and three quarters of the cap.
pub open spec fn candidates(cap: int) -> Seq<int> {
    seq![
        MIN_WAGER as int,
        cap,
        bounded(percent_of(cap, 20), cap),
        bounded(percent_of(cap, 35), cap),
        bounded(percent_of(cap, 50), cap),
        bounded(percent_of(cap, 75), cap),
        bounded(percent_of(cap, 100), cap),
    ]
}

/// Whether `values` rises strictly.
pub open spec fn strictly_rising(values: Seq<i64>) -> bool {
    forall|i: int, j: int| 0 <= i < j < values.len() ==> values[i] < values[j]
}

/// The digits of a text, in their order.
pub open spec fn digits_in(text: Seq<char>) -> Seq<char>
    decreases text.len(),
{
    if text.len() == 0 {
        Seq::empty()
    } else if is_digit(text.last()) {
        digits_in(text.drop_last()).push(text.last())
    } else {
        digits_in(text.drop_last())
    }
}

/// The wager that is offered when no suggestion fits what was typed: the
/// number typed, brought between the smallest and the largest wager, or the
/// smallest wager where no number can be read.
pub open spec fn fallback_spec(cleaned: Seq<char>) -> int {
    if cleaned.len() == 0 || digits_value(cleaned) > i64::MAX {
        MIN_WAGER as int
    } else if digits_value(cleaned) < MIN_WAGER {
        MIN_WAGER as int
    } else if digits_value(cleaned) > MAX_WAGER {
        MAX_WAGER as int
    } else {
        digits_value(cleaned) as int
    }
}

/// Whether the suggestion `value` fits the digits typed so far.
pub open spec fn fits(value: i64, cleaned: Seq<char>) -> bool {
    value >= 0 && (cleaned.len() == 0 || has_prefix(decimal(value as nat), cleaned))
}

/// The first [`MAX_CHOICES`] of `suggestions` that fit the digits typed so
/// far.
pub open spec fn choices_among(suggestions: Seq<i64>, cleaned: Seq<char>) -> Seq<i64>
    decreases suggestions.len(),
{
    if suggestions.len() == 0 {
        Seq::empty()
    } else {
        let earlier = choices_among(suggestions.drop_last(), cleaned);
        if earlier.len() < MAX_CHOICES && fits(suggestions.last(), cleaned) {
            earlier.push(suggestions.last())
        } else {
            earlier
        }
    }
}

/// What is shown of `suggestions` for the digits typed so far: those that
/// fit, or the fallback alone where none does.
pub open spec fn shown(suggestions: Seq<i64>, cleaned: Seq<char>) -> Seq<i64> {
    if choices_among(suggestions, cleaned).len() == 0 {
        seq![fallback_spec(cleaned) as i64]
    } else {
        choices_among(suggestions, cleaned)
    }
}

/// Whether `values` are the wagers suggested to a player who holds
/// `balance`.
pub open spec fn is_suggestion_list(balance: int, values: Seq<i64>) -> bool {
    if wager_cap(balance) < MIN_WAGER {
        values == seq![MIN_WAGER]
    } else {
        strictly_rising(values) && forall|v: i64|
            values.contains(v) <==> candidates(wager_cap(balance)).contains(v as int)
    }
}

/// Puts `value` into a strictly rising vector, unless it is there already.
fn insert_rising(values: &mut Vec<i64>, value: i64)
    requires
        strictly_rising(old(values)@),
    ensures
        strictly_rising(final(values)@),
        forall|v: i64| final(values)@.contains(v) <==> old(values)@.contains(v) || v == value,
{
    let mut at: usize = 0;
    while at < values.len() && values[at] < value
        invariant
            at <= values.len(),
            values@ == old(values)@,
            strictly_rising(values@),
            forall|k: int| 0 <= k < at ==> values@[k] < value,
        decreases values.len() - at,
    {
        at += 1;
    }
    if at < values.len() && values[at] == value {
        assert(values@.contains(value)) by {
            assert(values@[at as int] == value);
        }
        return ;
    }
    let ghost before = values@;
    values.insert(at, value);
    proof {
        assert forall|i: int, j: int| 0 <= i < j < values@.len() implies values@[i] < values@[j] by {
            let from = if i < at {
                i
            } else {
                i - 1
            };
            let to = if j < at {
                j
            } else {
                j - 1
            };
            if i != at && j != at {
                assert(before[from] < before[to]);
            } else if j == at {
                assert(before[from] < value);
            } else {
                if to > at {
                    assert(before[at as int] < before[to]);
                }
            }
        }
        assert forall|v: i64| values@.contains(v) <==> before.contains(v) || v == value by {
            if values@.contains(v) {
                let k = choose|k: int| 0 <= k < values@.len() && values@[k] == v;
                if k < at {
                    assert(before[k] == v);
                    assert(before.contains(v));
                } else if k > at {
                    assert(before[k - 1] == v);
                    assert(before.contains(v));
                }
            }
            if before.contains(v) {
                let k = choose|k: int| 0 <= k < before.len() && before[k] == v;
                if k < at {
                    assert(values@[k] == v);
                } else {
                    assert(values@[k + 1] == v);
                }
                assert(values@.contains(v));
            }
            if v == value {
                assert(values@[at as int] == v);
                assert(values@.contains(v));
            }
        }
    }
}

/// A share of `cap`, rounded to the nearest coin and brought between the
/// smallest wager and `cap`.
fn share(cap: i64, percent: i64) -> (value: i64)
    requires
        MIN_WAGER <= cap <= MAX_WAGER,
        0 <= percent <= 100,
    ensures
        value == bounded(percent_of(cap as int, percent as int), cap as int),
{
    assert(0 <= cap * percent <= 50_000 * 100) by (nonlinear_arith)
        requires
            0 <= cap <= 50_000,
            0 <= percent <= 100,
    ;
    let rounded: i64 = (cap * percent + 50) / 100;
    if rounded < MIN_WAGER {
        MIN_WAGER
    } else if rounded > cap {
        cap
    } else {
        rounded
    }
}

/// The wagers that are suggested to a player who holds `balance`: the
/// candidates under the player's cap, each once, smallest first. A player
/// who cannot afford the smallest wager is shown it alone.
pub fn build_wager_suggestions(balance: i64) -> (values: Vec<i64>)
    ensures
        is_suggestion_list(balance as int, values@),
{
    let cap: i64 = if balance < MAX_WAGER {
        balance
    } else {
        MAX_WAGER
    };
    let mut values: Vec<i64> = Vec::new();
    if cap < MIN_WAGER {
        values.push(MIN_WAGER);
        assert(values@ =~= seq![MIN_WAGER]);
        return values;
    }
    let ghost wanted = candidates(cap as int);
    insert_rising(&mut values, MIN_WAGER);
    insert_rising(&mut values, cap);
    insert_rising(&mut values, share(cap, 20));
    insert_rising(&mut values, share(cap, 35));
    insert_rising(&mut values, share(cap, 50));
    insert_rising(&mut values, share(cap, 75));
    insert_rising(&mut values, share(cap, 100));
    proof {
        assert forall|v: i64| values@.contains(v) <==> wanted.contains(v as int) by {
            if wanted.contains(v as int) {
                let k = choose|k: int| 0 <= k < wanted.len() && wanted[k] == v as int;
                assert(k == 0 || k == 1 || k == 2 || k == 3 || k == 4 || k == 5 || k == 6);
            }
            if values@.contains(v) {
                assert(wanted[0] == MIN_WAGER && wanted[1] == cap && wanted[2] == bounded(
                    percent_of(cap as int, 20),
                    cap as int,
                ) && wanted[3] == bounded(percent_of(cap as int, 35), cap as int) && wanted[4]
                    == bounded(percent_of(cap as int, 50), cap as int) && wanted[5] == bounded(
                    percent_of(cap as int, 75),
                    cap as int,
                ) && wanted[6] == bounded(percent_of(cap as int, 100), cap as int));
            }
        }
    }
    values
}

/// The digits of what was typed.
pub fn clean_input(partial: &str) -> (cleaned: Vec<char>)
    ensures
        cleaned@ == digits_in(partial@),
        forall|i: int| 0 <= i < cleaned@.len() ==> is_digit(#[trigger] cleaned@[i]),
{
    let typed = to_chars(partial);
    let mut cleaned: Vec<char> = Vec::new();
    let mut i: usize = 0;
    assert(typed@.take(0) =~= Seq::<char>::empty());
    while i < typed.len()
        invariant
            i <= typed.len(),
            cleaned@ == digits_in(typed@.take(i as int)),
            forall|j: int| 0 <= j < cleaned@.len() ==> is_digit(#[trigger] cleaned@[j]),
        decreases typed.len() - i,
    {
        proof {
            assert(typed@.take(i + 1).drop_last() =~= typed@.take(i as int));
        }
        let c: char = typed[i];
        if c >= '0' && c <= '9' {
            cleaned.push(c);
        }
        i += 1;
    }
    assert(typed@.take(i as int) =~= typed@);
    cleaned
}

/// The wager that is offered when no suggestion fits what was typed.
pub fn fallback_wager(cleaned: &Vec<char>) -> (wager: i64)
    requires
        forall|i: int| 0 <= i < cleaned@.len() ==> is_digit(#[trigger] cleaned@[i]),
    ensures
        wager == fallback_spec(cleaned@),
        MIN_WAGER <= wager <= MAX_WAGER,
{
    if cleaned.len() == 0 {
        return MIN_WAGER;
    }
    let mut value: i64 = 0;
    let mut i: usize = 0;
    assert(cleaned@.take(0) =~= Seq::<char>::empty());
    while i < cleaned.len()
        invariant
            i <= cleaned.len(),
            forall|j: int| 0 <= j < cleaned@.len() ==> is_digit(#[trigger] cleaned@[j]),
            value == digits_value(cleaned@.take(i as int)),
        decreases cleaned.len() - i,
    {
        let digit: i64 = (cleaned[i] as u32 - '0' as u32) as i64;
        proof {
            assert(cleaned@.take(i + 1).drop_last() =~= cleaned@.take(i as int));
            assert(is_digit(cleaned@[i as int]));
            crate::text::lemma_digits_value_grows(cleaned@, i + 1);
        }
        if value > (i64::MAX - digit) / 10 {
            return MIN_WAGER;
        }
        value = value * 10 + digit;
        i += 1;
    }
    assert(cleaned@.take(i as int) =~= cleaned@);
    if value < MIN_WAGER {
        MIN_WAGER
    } else if value > MAX_WAGER {
        MAX_WAGER
    } else {
        value
    }
}

/// The wagers that are offered to a player who holds `balance` and has typed
/// `partial`: the suggestions whose digits begin with those typed, or the
/// fallback where none does.
pub fn wager_choices(balance: i64, partial: &str) -> (choices: Vec<i64>)
    ensures
        exists|suggestions: Seq<i64>| #[trigger]
            is_suggestion_list(balance as int, suggestions) && choices@ == shown(
                suggestions,
                digits_in(partial@),
            ),
{
    let cleaned = clean_input(partial);
    let suggestions = build_wager_suggestions(balance);
    let mut choices: Vec<i64> = Vec::new();
    let mut i: usize = 0;
    assert(suggestions@.take(0) =~= Seq::<i64>::empty());
    while i < suggestions.len()
        invariant
            i <= suggestions.len(),
            choices@ == choices_among(suggestions@.take(i as int), cleaned@),
        decreases suggestions.len() - i,
    {
        proof {
            assert(suggestions@.take(i + 1).drop_last() =~= suggestions@.take(i as int));
        }
        let value: i64 = suggestions[i];
        if choices.len() < MAX_CHOICES && value >= 0 {
            let fitting: bool = if cleaned.len() == 0 {
                true
            } else {
                let mut text = String::new();
                push_decimal(&mut text, value as u64);
                assert(text@ =~= decimal(value as nat));
                let digits = to_chars(text.as_str());
                starts_with(&digits, &cleaned)
            };
            if fitting {
                choices.push(value);
            }
        }
        i += 1;
    }
    assert(suggestions@.take(i as int) =~= suggestions@);
    if choices.len() == 0 {
        choices.push(fallback_wager(&cleaned));
    }
    proof {
        assert(is_suggestion_list(balance as int, suggestions@));
    }
    choices
}

} // verus!
