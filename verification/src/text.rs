//! Character-level helpers shared by the token parsers and message builders.

use vstd::prelude::*;

verus! {

/// The character that stands for the decimal digit `d`.
pub open spec fn digit_char(d: nat) -> char {
    if d == 0 {
        '0'
    } else if d == 1 {
        '1'
    } else if d == 2 {
        '2'
    } else if d == 3 {
        '3'
    } else if d == 4 {
        '4'
    } else if d == 5 {
        '5'
    } else if d == 6 {
        '6'
    } else if d == 7 {
        '7'
    } else if d == 8 {
        '8'
    } else {
        '9'
    }
}

/// Whether `c` is one of the ten ASCII digits.
pub open spec fn is_digit(c: char) -> bool {
    '0' <= c && c <= '9'
}

/// The value of the ASCII digit `c`.
pub open spec fn digit_value(c: char) -> nat {
    (c as u32 - '0' as u32) as nat
}

/// Decimal notation of `n`, without sign or leading zeros.
pub open spec fn decimal(n: nat) -> Seq<char>
    decreases n,
{
    if n < 10 {
        seq![digit_char(n)]
    } else {
        decimal(n / 10).push(digit_char(n % 10))
    }
}

/// Decimal notation of `value`, with a minus sign before a negative one.
pub open spec fn signed_decimal(value: int) -> Seq<char> {
    if value < 0 {
        seq!['-'] + decimal((-value) as nat)
    } else {
        decimal(value as nat)
    }
}

/// The number that a run of digits denotes, most significant digit first.
pub open spec fn digits_value(s: Seq<char>) -> nat
    decreases s.len(),
{
    if s.len() == 0 {
        0
    } else {
        digits_value(s.drop_last()) * 10 + digit_value(s.last())
    }
}

/// Whether every character of `s` is an ASCII digit.
pub open spec fn all_digits(s: Seq<char>) -> bool {
    forall|i: int| 0 <= i < s.len() ==> is_digit(#[trigger] s[i])
}

/// What an unsigned decimal index denotes: an optional `+`, then at least one
/// digit and nothing else, with a value that fits the machine word.
pub open spec fn parse_index_spec(s: Seq<char>) -> Option<usize> {
    let body = if s.len() > 0 && s[0] == '+' {
        s.skip(1)
    } else {
        s
    };
    if body.len() > 0 && all_digits(body) && digits_value(body) <= usize::MAX {
        Some(digits_value(body) as usize)
    } else {
        None
    }
}

/// Whether `s` begins with `prefix`.
pub open spec fn has_prefix(s: Seq<char>, prefix: Seq<char>) -> bool {
    prefix.len() <= s.len() && s.take(prefix.len() as int) == prefix
}

/// The index that a button id carries behind a prefix, if it carries one.
pub open spec fn prefixed_index_spec(custom_id: Seq<char>, prefix: Seq<char>) -> Option<usize> {
    if has_prefix(custom_id, prefix) {
        parse_index_spec(custom_id.skip(prefix.len() as int))
    } else {
        None
    }
}

/// What `str::trim` of std leaves of a text: the text without the white
/// space at its two ends.
pub uninterp spec fn trimmed(text: Seq<char>) -> Seq<char>;

/// The lower-case form of an ASCII capital, and any other character itself.
pub open spec fn lower(c: char) -> char {
    if 'A' <= c && c <= 'Z' {
        ((c as u32 + 32) as u8) as char
    } else {
        c
    }
}

/// The text with every ASCII capital in lower case.
pub open spec fn lowercase(text: Seq<char>) -> Seq<char> {
    Seq::new(text.len(), |i: int| lower(text[i]))
}

/// What an unsigned decimal number of 64 bits denotes: an optional `+`, then
/// at least one digit and nothing else, with a value that fits.
pub open spec fn parse_u64_spec(s: Seq<char>) -> Option<u64> {
    let body = if s.len() > 0 && s[0] == '+' {
        s.skip(1)
    } else {
        s
    };
    if body.len() > 0 && all_digits(body) && digits_value(body) <= u64::MAX {
        Some(digits_value(body) as u64)
    } else {
        None
    }
}

/// `str::trim` of std: the text without the white space, as Unicode defines
/// it, at its two ends. What is left depends on the text alone.
#[verifier::external_body]
pub(crate) fn trim(text: &str) -> (rest: String)
    ensures
        rest@ == trimmed(text@),
{
    text.trim().to_string()
}

/// `String::push` of std: appends the one character and changes nothing else.
#[verifier::external_body]
pub(crate) fn push_char(out: &mut String, c: char)
    ensures
        final(out)@ == old(out)@.push(c),
{
    out.push(c);
}

/// The characters of `s`, in order.
pub fn to_chars(s: &str) -> (chars: Vec<char>)
    ensures
        chars@ == s@,
{
    let mut chars: Vec<char> = Vec::new();
    for c in it: s.chars()
        invariant
            chars@ == it.seq().take(it.index()),
            it.seq() == s@,
    {
        chars.push(c);
    }
    chars
}

/// Whether two character vectors hold the same text.
pub fn chars_eq(a: &Vec<char>, b: &Vec<char>) -> (same: bool)
    ensures
        same == (a@ == b@),
{
    if a.len() != b.len() {
        return false;
    }
    let mut i: usize = 0;
    while i < a.len()
        invariant
            i <= a.len(),
            a.len() == b.len(),
            forall|j: int| 0 <= j < i ==> a@[j] == b@[j],
        decreases a.len() - i,
    {
        if a[i] != b[i] {
            return false;
        }
        i += 1;
    }
    assert(a@ =~= b@);
    true
}

/// Whether two string slices hold the same text.
pub fn str_eq(a: &str, b: &str) -> (same: bool)
    ensures
        same == (a@ == b@),
{
    let left = to_chars(a);
    let right = to_chars(b);
    chars_eq(&left, &right)
}

/// Whether `chars` begins with `prefix`.
pub fn starts_with(chars: &Vec<char>, prefix: &Vec<char>) -> (yes: bool)
    ensures
        yes == has_prefix(chars@, prefix@),
{
    if prefix.len() > chars.len() {
        return false;
    }
    let mut i: usize = 0;
    while i < prefix.len()
        invariant
            i <= prefix.len(),
            prefix.len() <= chars.len(),
            forall|j: int| 0 <= j < i ==> chars@[j] == prefix@[j],
        decreases prefix.len() - i,
    {
        if chars[i] != prefix[i] {
            assert(chars@.take(prefix.len() as int)[i as int] != prefix@[i as int]);
            return false;
        }
        i += 1;
    }
    assert(chars@.take(prefix.len() as int) =~= prefix@);
    true
}

/// The executable digit character.
pub fn digit_to_char(d: u8) -> (c: char)
    requires
        d < 10,
    ensures
        c == digit_char(d as nat),
{
    if d == 0 {
        '0'
    } else if d == 1 {
        '1'
    } else if d == 2 {
        '2'
    } else if d == 3 {
        '3'
    } else if d == 4 {
        '4'
    } else if d == 5 {
        '5'
    } else if d == 6 {
        '6'
    } else if d == 7 {
        '7'
    } else if d == 8 {
        '8'
    } else {
        '9'
    }
}

/// Appends the decimal notation of `n` to `out`.
pub fn push_decimal(out: &mut String, n: u64)
    ensures
        final(out)@ == old(out)@ + decimal(n as nat),
    decreases n,
{
    if n >= 10 {
        push_decimal(out, n / 10);
    }
    let digit: u8 = (n % 10) as u8;
    push_char(out, digit_to_char(digit));
    proof {
        if n >= 10 {
            assert(old(out)@ + decimal(n as nat) =~= (old(out)@ + decimal((n / 10) as nat)).push(
                digit_char((n % 10) as nat),
            ));
        } else {
            assert(old(out)@ + decimal(n as nat) =~= old(out)@.push(digit_char(n as nat)));
        }
    }
}

/// The character `c`, `count` times.
pub open spec fn repeated(c: char, count: nat) -> Seq<char> {
    Seq::new(count, |i: int| c)
}

/// The texts of `lines`, with `separator` between each two.
pub open spec fn joined(lines: Seq<Seq<char>>, separator: Seq<char>) -> Seq<char>
    decreases lines.len(),
{
    if lines.len() == 0 {
        Seq::empty()
    } else if lines.len() == 1 {
        lines[0]
    } else {
        joined(lines.drop_last(), separator) + separator + lines.last()
    }
}

/// The texts of a vector of strings.
pub open spec fn texts(lines: Seq<String>) -> Seq<Seq<char>> {
    Seq::new(lines.len(), |i: int| lines[i]@)
}

/// Appends the character `c` to `out`, `count` times.
pub fn push_repeated(out: &mut String, c: char, count: usize)
    ensures
        final(out)@ == old(out)@ + repeated(c, count as nat),
{
    let mut done: usize = 0;
    assert(out@ =~= old(out)@ + repeated(c, 0));
    while done < count
        invariant
            done <= count,
            out@ == old(out)@ + repeated(c, done as nat),
        decreases count - done,
    {
        push_char(out, c);
        done += 1;
        assert(out@ =~= old(out)@ + repeated(c, done as nat));
    }
}

/// Joins `lines[from..to]` with `separator` between each two.
pub fn join_range(lines: &Vec<String>, from: usize, to: usize, separator: &str) -> (text: String)
    requires
        from <= to <= lines.len(),
    ensures
        text@ == joined(texts(lines@).subrange(from as int, to as int), separator@),
{
    let mut text = String::new();
    let mut i: usize = from;
    let ghost all = texts(lines@);
    assert(all.subrange(from as int, from as int) =~= Seq::<Seq<char>>::empty());
    while i < to
        invariant
            from <= i <= to,
            to <= lines.len(),
            all == texts(lines@),
            text@ == joined(all.subrange(from as int, i as int), separator@),
        decreases to - i,
    {
        let ghost before = all.subrange(from as int, i as int);
        let ghost after = all.subrange(from as int, i + 1);
        proof {
            assert(after.drop_last() =~= before);
            assert(after.last() == lines@[i as int]@);
        }
        if i > from {
            text.append(separator);
        }
        text.append(lines[i].as_str());
        proof {
            if i == from {
                assert(text@ =~= lines@[i as int]@);
            }
        }
        i += 1;
    }
    text
}

/// Joins `lines` with `separator` between each two.
pub fn join_lines(lines: &Vec<String>, separator: &str) -> (text: String)
    ensures
        text@ == joined(texts(lines@), separator@),
{
    assert(texts(lines@).subrange(0, lines@.len() as int) =~= texts(lines@));
    join_range(lines, 0, lines.len(), separator)
}

/// How far `value` lies from zero.
pub fn magnitude(value: i64) -> (size: u64)
    ensures
        size == if value < 0 {
            -(value as int)
        } else {
            value as int
        },
{
    if value >= 0 {
        value as u64
    } else if value == i64::MIN {
        9_223_372_036_854_775_808u64
    } else {
        (-value) as u64
    }
}

/// Appends the decimal notation of `value` to `out`, with a minus sign before
/// a negative one.
pub fn push_signed_decimal(out: &mut String, value: i64)
    ensures
        final(out)@ == old(out)@ + signed_decimal(value as int),
{
    if value < 0 {
        push_char(out, '-');
    }
    push_decimal(out, magnitude(value));
    proof {
        if value < 0 {
            assert(old(out)@.push('-') + decimal((-value) as nat) =~= old(out)@ + (seq!['-']
                + decimal((-value) as nat)));
        }
    }
}

/// A longer run of digits never denotes less than one of its prefixes.
pub proof fn lemma_digits_value_grows(s: Seq<char>, k: int)
    requires
        0 <= k <= s.len(),
    ensures
        digits_value(s.take(k)) <= digits_value(s),
    decreases s.len(),
{
    if k == s.len() {
        assert(s.take(k) =~= s);
    } else {
        lemma_digits_value_grows(s.drop_last(), k);
        assert(s.drop_last().take(k) =~= s.take(k));
    }
}

/// Reads the unsigned decimal index that `chars` holds from position `start`
/// to its end.
pub fn parse_index_from(chars: &Vec<char>, start: usize) -> (index: Option<usize>)
    requires
        start <= chars.len(),
    ensures
        index == parse_index_spec(chars@.skip(start as int)),
{
    let ghost whole = chars@.skip(start as int);
    let mut i: usize = start;
    if i < chars.len() && chars[i] == '+' {
        i += 1;
    }
    let first: usize = i;
    let ghost body = chars@.skip(first as int);
    proof {
        if first > start {
            assert(whole[0] == '+');
            assert(whole.skip(1) =~= body);
        } else {
            assert(whole =~= body);
            if whole.len() > 0 {
                assert(whole[0] == chars@[start as int]);
            }
        }
    }
    assert(body == if whole.len() > 0 && whole[0] == '+' {
        whole.skip(1)
    } else {
        whole
    });
    if i >= chars.len() {
        return None;
    }
    let mut value: usize = 0;
    while i < chars.len()
        invariant
            first <= i <= chars.len(),
            body == chars@.skip(first as int),
            whole == chars@.skip(start as int),
            body == if whole.len() > 0 && whole[0] == '+' {
                whole.skip(1)
            } else {
                whole
            },
            all_digits(body.take(i - first)),
            value == digits_value(body.take(i - first)),
        decreases chars.len() - i,
    {
        let c: char = chars[i];
        let ghost seen = body.take(i - first);
        let ghost next = body.take(i - first + 1);
        proof {
            assert(next.drop_last() =~= seen);
            assert(next.last() == c);
        }
        if !(c >= '0' && c <= '9') {
            assert(!is_digit(body[i - first]));
            return None;
        }
        let digit: usize = (c as u32 - '0' as u32) as usize;
        proof {
            assert forall|j: int| 0 <= j < next.len() implies is_digit(#[trigger] next[j]) by {
                if j < seen.len() {
                    assert(seen[j] == next[j]);
                }
            }
            lemma_digits_value_grows(body, i - first + 1);
        }
        if value > (usize::MAX - digit) / 10 {
            assert(digits_value(next) > usize::MAX);
            return None;
        }
        value = value * 10 + digit;
        i += 1;
    }
    assert(body.take(i - first) =~= body);
    Some(value)
}

/// Reads the unsigned decimal number of 64 bits that `chars` holds.
pub fn parse_u64(chars: &Vec<char>) -> (number: Option<u64>)
    ensures
        number == parse_u64_spec(chars@),
{
    let mut i: usize = 0;
    if i < chars.len() && chars[i] == '+' {
        i += 1;
    }
    let first: usize = i;
    let ghost body = chars@.skip(first as int);
    proof {
        if first == 0 {
            assert(body =~= chars@);
        }
    }
    if i >= chars.len() {
        return None;
    }
    let mut value: u64 = 0;
    while i < chars.len()
        invariant
            first <= i <= chars.len(),
            body == chars@.skip(first as int),
            body == if chars@.len() > 0 && chars@[0] == '+' {
                chars@.skip(1)
            } else {
                chars@
            },
            all_digits(body.take(i - first)),
            value == digits_value(body.take(i - first)),
        decreases chars.len() - i,
    {
        let c: char = chars[i];
        let ghost seen = body.take(i - first);
        let ghost next = body.take(i - first + 1);
        proof {
            assert(next.drop_last() =~= seen);
            assert(next.last() == c);
        }
        if !(c >= '0' && c <= '9') {
            assert(!is_digit(body[i - first]));
            return None;
        }
        let digit: u64 = (c as u32 - '0' as u32) as u64;
        proof {
            assert forall|j: int| 0 <= j < next.len() implies is_digit(#[trigger] next[j]) by {
                if j < seen.len() {
                    assert(seen[j] == next[j]);
                }
            }
            lemma_digits_value_grows(body, i - first + 1);
        }
        if value > (u64::MAX - digit) / 10 {
            assert(digits_value(next) > u64::MAX);
            return None;
        }
        value = value * 10 + digit;
        i += 1;
    }
    assert(body.take(i - first) =~= body);
    Some(value)
}

/// The text of `chars` with every ASCII capital in lower case.
pub fn to_lowercase(chars: &Vec<char>) -> (lowered: Vec<char>)
    ensures
        lowered@ == lowercase(chars@),
{
    let mut lowered: Vec<char> = Vec::new();
    let mut i: usize = 0;
    while i < chars.len()
        invariant
            i <= chars.len(),
            lowered@.len() == i,
            forall|j: int| 0 <= j < i ==> lowered@[j] == lower(chars@[j]),
        decreases chars.len() - i,
    {
        let c: char = chars[i];
        if c >= 'A' && c <= 'Z' {
            lowered.push(((c as u32 + 32) as u8) as char);
        } else {
            lowered.push(c);
        }
        i += 1;
    }
    assert(lowered@ =~= lowercase(chars@));
    lowered
}

/// Reads the index that a button id carries behind a prefix.
pub fn parse_prefixed_index(custom_id: &str, prefix: &str) -> (index: Option<usize>)
    ensures
        index == prefixed_index_spec(custom_id@, prefix@),
{
    let id = to_chars(custom_id);
    let head = to_chars(prefix);
    if starts_with(&id, &head) {
        parse_index_from(&id, head.len())
    } else {
        None
    }
}

} // verus!
