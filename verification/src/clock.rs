//! Reward clock: when a periodic reward becomes claimable again.
//!
//! Instants are counted in seconds since 1970-01-01 00:00:00 UTC, as Unix
//! does, and dates are those of the proleptic Gregorian calendar. The
//! conversions between the two are chrono's; what they are held to is stated
//! over [`epoch_day`].

use crate::text::{push_signed_decimal, signed_decimal};
use chrono::{DateTime, Datelike, Days, FixedOffset, NaiveDate, TimeZone, Timelike};
use vstd::prelude::*;

verus! {

/// Seconds in a day.
pub const DAY_SECS: i64 = 86_400;

/// The instants between which [`next_reset_from`] is sure to have an answer:
/// this many seconds to either side of the epoch, some six thousand years.
pub const CLOCK_RANGE_SECS: i64 = 200_000_000_000;

/// The local time of day at which rewards reset, and the zone it is meant in.
#[derive(Clone, Copy, PartialEq, Eq, Structural, Debug)]
pub struct ResetTime {
    pub hour: u32,
    pub minute: u32,
    pub timezone_offset_secs: i32,
}

/// How often a reward can be claimed.
#[derive(Clone, Copy, PartialEq, Eq, Structural, Debug)]
pub enum ResetPeriod {
    Daily,
    Weekly,
    Monthly,
}

/// An instant: whole seconds since the epoch and the nanoseconds past them.
#[derive(Clone, Copy, PartialEq, Eq, Structural, Debug)]
pub struct Timestamp {
    pub secs: i64,
    pub nanos: u32,
}

/// A date of the calendar.
#[derive(Clone, Copy, PartialEq, Eq, Structural, Debug)]
pub struct CivilDate {
    pub year: i32,
    pub month: u32,
    pub day: u32,
}

/// The instant that `DateTime::parse_from_rfc3339` of chrono reads from a
/// text, if it reads one.
pub uninterp spec fn rfc3339_instant(text: Seq<char>) -> Option<Timestamp>;

/// A Discord timestamp in short date and time format.
pub open spec fn absolute_text(secs: int) -> Seq<char> {
    "<t:"@ + signed_decimal(secs) + ":f>"@
}

/// A Discord timestamp in relative time format.
pub open spec fn relative_text(secs: int) -> Seq<char> {
    "<t:"@ + signed_decimal(secs) + ":R>"@
}

/// Whether `year` is a leap year.
pub open spec fn leap_year(year: int) -> bool {
    (year % 4 == 0 && year % 100 != 0) || year % 400 == 0
}

/// The number of days of a month; for a month that the calendar does not
/// have, thirty.
pub open spec fn month_length(year: int, month: int) -> int {
    if month == 1 || month == 3 || month == 5 || month == 7 || month == 8 || month == 10 || month
        == 12 {
        31
    } else if month == 4 || month == 6 || month == 9 || month == 11 {
        30
    } else if month == 2 {
        if leap_year(year) {
            29
        } else {
            28
        }
    } else {
        30
    }
}

/// The days of `year` that lie before the first of `month`.
pub open spec fn days_before_month(year: int, month: int) -> int {
    let common = if month <= 1 {
        0int
    } else if month == 2 {
        31
    } else if month == 3 {
        59
    } else if month == 4 {
        90
    } else if month == 5 {
        120
    } else if month == 6 {
        151
    } else if month == 7 {
        181
    } else if month == 8 {
        212
    } else if month == 9 {
        243
    } else if month == 10 {
        273
    } else if month == 11 {
        304
    } else {
        334
    };
    if month > 2 && leap_year(year) {
        common + 1
    } else {
        common
    }
}

/// The leap years from year 1 up to and with `year`.
pub open spec fn leap_years_through(year: int) -> int {
    year / 4 - year / 100 + year / 400
}

/// The days between the epoch and the first of January of `year`.
pub open spec fn days_before_year(year: int) -> int {
    365 * (year - 1970) + leap_years_through(year - 1) - leap_years_through(1969)
}

/// The days between the epoch and `date`: zero for 1970-01-01.
pub open spec fn epoch_day(date: CivilDate) -> int {
    days_before_year(date.year as int) + days_before_month(date.year as int, date.month as int)
        + date.day - 1
}

/// The date one month after `date`: the same day of the next month, or that
/// month's last day where it has no such day.
pub open spec fn add_one_month_spec(date: CivilDate) -> CivilDate {
    let year = if date.month == 12 {
        date.year + 1
    } else {
        date.year as int
    };
    let month = if date.month == 12 {
        1
    } else {
        date.month + 1
    };
    let day = if date.day <= month_length(year, month) {
        date.day as int
    } else {
        month_length(year, month)
    };
    CivilDate { year: year as i32, month: month as u32, day: day as u32 }
}

/// The local second of the day at which rewards reset.
pub open spec fn reset_second(config: ResetTime) -> int {
    config.hour * 3600 + config.minute * 60
}

/// The local day that the instant `secs` falls on, counted from the epoch.
pub open spec fn local_day(secs: int, offset_secs: int) -> int {
    (secs + offset_secs) / 86_400
}

/// The local second of its day at which the instant `secs` falls.
pub open spec fn local_second(secs: int, offset_secs: int) -> int {
    (secs + offset_secs) % 86_400
}

/// The instant at which the local day `day` reaches the reset time.
pub open spec fn reset_instant(day: int, config: ResetTime) -> int {
    day * 86_400 + reset_second(config) - config.timezone_offset_secs
}

/// Whether `next` is the instant from which a reward claimed at `now` can be
/// claimed again.
///
/// A daily reward resets at the next reset time: today's if `now` is before
/// it in local time, else tomorrow's. A weekly reward resets seven days
/// after the local day of `now`, a monthly one on the date one month after
/// it, always at the reset time.
pub open spec fn is_next_reset(now: int, period: ResetPeriod, config: ResetTime, next: int) -> bool {
    let day = local_day(now, config.timezone_offset_secs as int);
    let second = local_second(now, config.timezone_offset_secs as int);
    match period {
        ResetPeriod::Daily => next == reset_instant(
            if second < reset_second(config) {
                day
            } else {
                day + 1
            },
            config,
        ),
        ResetPeriod::Weekly => next == reset_instant(day + 7, config),
        ResetPeriod::Monthly => exists|date: CivilDate|
            date.valid() && #[trigger] epoch_day(date) == day && next == reset_instant(
                epoch_day(add_one_month_spec(date)),
                config,
            ),
    }
}

impl CivilDate {
    /// The calendar has this day.
    pub open spec fn valid(self) -> bool {
        1 <= self.month <= 12 && 1 <= self.day <= month_length(self.year as int, self.month as int)
    }
}

impl Timestamp {
    /// Whether this instant is `other` or later.
    pub open spec fn at_or_after_spec(self, other: Timestamp) -> bool {
        self.secs > other.secs || (self.secs == other.secs && self.nanos >= other.nanos)
    }

    /// Whether this instant is `other` or later.
    pub fn at_or_after(&self, other: &Timestamp) -> (later: bool)
        ensures
            later == self.at_or_after_spec(*other),
    {
        self.secs > other.secs || (self.secs == other.secs && self.nanos >= other.nanos)
    }
}

impl ResetTime {
    /// The time of day is one that a clock shows, and the zone lies less than
    /// a day from UTC.
    pub open spec fn valid(self) -> bool {
        self.hour < 24 && self.minute < 60 && -86_400 < self.timezone_offset_secs < 86_400
    }

    /// A reset at the given local time of day, in a zone that lies
    /// `timezone_offset_secs` east of UTC.
    pub fn new(hour: u32, minute: u32, timezone_offset_secs: i32) -> (config: ResetTime)
        ensures
            config == (ResetTime { hour, minute, timezone_offset_secs }),
    {
        ResetTime { hour, minute, timezone_offset_secs }
    }

    /// A reset time in Brasília time, three hours behind UTC.
    pub fn brt(hour: u32, minute: u32) -> (config: ResetTime)
        ensures
            config == (ResetTime { hour, minute, timezone_offset_secs: -10_800i32 }),
    {
        ResetTime::new(hour, minute, -3 * 60 * 60)
    }
}

impl Default for ResetTime {
    /// Nine in the evening, Brasília time.
    fn default() -> (config: ResetTime)
        ensures
            config == (ResetTime { hour: 21, minute: 0, timezone_offset_secs: -10_800i32 }),
            config.valid(),
    {
        ResetTime::brt(21, 0)
    }
}

/// `DateTime::from_timestamp`, `DateTime::with_timezone` and
/// `FixedOffset::east_opt` of chrono, read out with `Datelike` and `Timelike`:
/// the local date and the local second of the day of an instant in a zone
/// that lies `offset_secs` east of UTC.
///
/// chrono counts instants and dates as this module does, so what comes back
/// is the one valid date and second with
/// `epoch_day * 86400 + second == secs + offset_secs`. No date of chrono has
/// a year beyond 262143 to either side. `None` comes back only for an offset
/// of a day or more or an instant beyond chrono's range, which reaches far
/// past [`CLOCK_RANGE_SECS`].
#[verifier::external_body]
fn local_date_time(secs: i64, offset_secs: i32) -> (local: Option<(CivilDate, u32)>)
    ensures
        local matches Some((date, second)) ==> date.valid() && second < 86_400 && epoch_day(date)
            * 86_400 + second == secs + offset_secs && -262_144 <= date.year <= 262_143,
        -CLOCK_RANGE_SECS <= secs <= CLOCK_RANGE_SECS && -86_400 < offset_secs < 86_400
            ==> local is Some,
{
    let zone = FixedOffset::east_opt(offset_secs)?;
    let local = DateTime::from_timestamp(secs, 0)?.with_timezone(&zone);
    let date = CivilDate { year: local.year(), month: local.month(), day: local.day() };
    Some((date, local.num_seconds_from_midnight()))
}

/// `NaiveDate::from_ymd_opt` and `NaiveDate::checked_add_days` of chrono: the
/// date `days` days after `date`. `None` comes back only for a date that the
/// calendar does not have or a result beyond chrono's range, which spans more
/// than 95 million days to either side of the epoch.
#[verifier::external_body]
fn date_plus_days(date: CivilDate, days: u64) -> (later: Option<CivilDate>)
    ensures
        later matches Some(reached) ==> reached.valid() && epoch_day(reached) == epoch_day(date)
            + days && -262_144 <= reached.year <= 262_143,
        date.valid() && -50_000_000 <= epoch_day(date) && epoch_day(date) + days <= 50_000_000
            ==> later is Some,
{
    let start = NaiveDate::from_ymd_opt(date.year, date.month, date.day)?;
    let reached = start.checked_add_days(Days::new(days))?;
    Some(CivilDate { year: reached.year(), month: reached.month(), day: reached.day() })
}

/// `NaiveDate::and_hms_opt`, `TimeZone::from_local_datetime` of a
/// `FixedOffset` and `DateTime::timestamp` of chrono: the instant at which a
/// zone `offset_secs` east of UTC shows the given date and time of day.
/// `None` comes back only for a date or time that does not exist, an offset
/// of a day or more, or a date beyond chrono's range.
#[verifier::external_body]
fn local_instant(date: CivilDate, hour: u32, minute: u32, offset_secs: i32) -> (instant: Option<i64>)
    ensures
        instant matches Some(secs) ==> secs == epoch_day(date) * 86_400 + hour * 3600 + minute * 60
            - offset_secs,
        date.valid() && hour < 24 && minute < 60 && -86_400 < offset_secs < 86_400 && -50_000_000
            <= epoch_day(date) <= 50_000_000 ==> instant is Some,
{
    let naive = NaiveDate::from_ymd_opt(date.year, date.month, date.day)?.and_hms_opt(hour, minute, 0)?;
    let zone = FixedOffset::east_opt(offset_secs)?;
    let at = zone.from_local_datetime(&naive).single()?;
    Some(at.timestamp())
}

/// `DateTime::parse_from_rfc3339` of chrono, read out with
/// `DateTime::timestamp` and `DateTime::timestamp_subsec_nanos`: the instant
/// that an RFC 3339 text names, or nothing for any other text. What is read
/// depends on the text alone.
#[verifier::external_body]
pub(crate) fn parse_rfc3339(text: &str) -> (instant: Option<Timestamp>)
    ensures
        instant == rfc3339_instant(text@),
{
    let at = DateTime::parse_from_rfc3339(text).ok()?;
    Some(Timestamp { secs: at.timestamp(), nanos: at.timestamp_subsec_nanos() })
}

/// Returns a Discord timestamp in short date/time format (f).
pub fn describe_absolute(target: Timestamp) -> (text: String)
    ensures
        text@ == absolute_text(target.secs as int),
{
    let mut text = String::from_str("<t:");
    push_signed_decimal(&mut text, target.secs);
    text.append(":f>");
    text
}

/// Returns a Discord timestamp in relative time format (R).
pub fn describe_relative(target: Timestamp) -> (text: String)
    ensures
        text@ == relative_text(target.secs as int),
{
    let mut text = String::from_str("<t:");
    push_signed_decimal(&mut text, target.secs);
    text.append(":R>");
    text
}

/// Attempts to parse an RFC 3339 timestamp and format it relatively for
/// Discord embeds.
pub fn describe_relative_from_str(value: &str) -> (text: Option<String>)
    ensures
        match rfc3339_instant(value@) {
            Some(instant) => text is Some && text->0@ == relative_text(instant.secs as int),
            None => text is None,
        },
{
    match parse_rfc3339(value) {
        Some(instant) => Some(describe_relative(instant)),
        None => None,
    }
}

/// Checks if a year is a leap year.
pub fn is_leap_year(year: i32) -> (leap: bool)
    ensures
        leap == leap_year(year as int),
{
    // Shifted by a multiple of 400, so that the remainders are taken of a
    // number that is not negative.
    let wide: i64 = year as i64;
    let shifted: i64 = wide + 2_147_484_000i64;
    (shifted % 4 == 0 && shifted % 100 != 0) || shifted % 400 == 0
}

/// Returns the number of days in a month.
pub fn days_in_month(year: i32, month: u32) -> (days: u32)
    ensures
        days == month_length(year as int, month as int),
{
    if month == 1 || month == 3 || month == 5 || month == 7 || month == 8 || month == 10 || month
        == 12 {
        31
    } else if month == 4 || month == 6 || month == 9 || month == 11 {
        30
    } else if month == 2 {
        if is_leap_year(year) {
            29
        } else {
            28
        }
    } else {
        30
    }
}

/// Adds one month to a date, handling day overflow.
pub fn add_one_month(date: CivilDate) -> (next: CivilDate)
    requires
        date.valid(),
        date.month == 12 ==> date.year < i32::MAX,
    ensures
        next == add_one_month_spec(date),
        next.valid(),
{
    let mut year: i32 = date.year;
    let mut month: u32 = date.month;
    if month == 12 {
        year += 1;
        month = 1;
    } else {
        month += 1;
    }
    let last_day: u32 = days_in_month(year, month);
    let day: u32 = if date.day < last_day {
        date.day
    } else {
        last_day
    };
    CivilDate { year, month, day }
}

/// One month after the 31st of January comes the last day of February: the
/// 29th in a leap year, the 28th in any other.
pub proof fn lemma_month_after_january_31(year: i32)
    ensures
        add_one_month_spec(CivilDate { year, month: 1, day: 31 }) == (CivilDate {
            year,
            month: 2,
            day: if leap_year(year as int) {
                29u32
            } else {
                28u32
            },
        }),
{
}

/// A year has 365 days, and one more if it is a leap year.
pub proof fn lemma_year_length(year: int)
    ensures
        days_before_year(year + 1) - days_before_year(year) == if leap_year(year) {
            366int
        } else {
            365int
        },
{
}

/// The date one month after a valid date is valid and lies between 28 and 31
/// days later.
pub proof fn lemma_month_step(date: CivilDate)
    requires
        date.valid(),
        date.month == 12 ==> date.year < i32::MAX,
    ensures
        add_one_month_spec(date).valid(),
        28 <= epoch_day(add_one_month_spec(date)) - epoch_day(date) <= 31,
{
    let next = add_one_month_spec(date);
    if date.month == 12 {
        lemma_year_length(date.year as int);
    }
}

/// Between the first days of two years lie at least 365 days for each year
/// from the one to the other.
pub proof fn lemma_years_apart(from: int, to: int)
    requires
        from <= to,
    ensures
        days_before_year(to) - days_before_year(from) >= 365 * (to - from),
    decreases to - from,
{
    if from < to {
        lemma_year_length(to - 1);
        lemma_years_apart(from, to - 1);
    }
}

/// No two valid dates fall on the same day.
pub proof fn lemma_one_date_a_day(first: CivilDate, second: CivilDate)
    requires
        first.valid(),
        second.valid(),
        epoch_day(first) == epoch_day(second),
    ensures
        first == second,
{
    if first.year < second.year {
        lemma_year_length(first.year as int);
        lemma_years_apart(first.year + 1, second.year as int);
    } else if second.year < first.year {
        lemma_year_length(second.year as int);
        lemma_years_apart(second.year + 1, first.year as int);
    }
}

/// The next reset is one instant: [`is_next_reset`] holds of no two.
pub proof fn lemma_next_reset_is_unique(
    now: int,
    period: ResetPeriod,
    config: ResetTime,
    one: int,
    other: int,
)
    requires
        is_next_reset(now, period, config, one),
        is_next_reset(now, period, config, other),
    ensures
        one == other,
{
    if period == ResetPeriod::Monthly {
        let day = local_day(now, config.timezone_offset_secs as int);
        let first = choose|date: CivilDate|
            date.valid() && #[trigger] epoch_day(date) == day && one == reset_instant(
                epoch_day(add_one_month_spec(date)),
                config,
            );
        let second = choose|date: CivilDate|
            date.valid() && #[trigger] epoch_day(date) == day && other == reset_instant(
                epoch_day(add_one_month_spec(date)),
                config,
            );
        lemma_one_date_a_day(first, second);
    }
}

/// The next reset lies after the instant it is counted from, and no more than
/// thirty-two days after it. This holds of every instant whose local date the
/// calendar reaches, which it does for a quarter of a million years to
/// either side.
pub proof fn lemma_next_reset_is_later(
    now: int,
    period: ResetPeriod,
    config: ResetTime,
    next: int,
    today: CivilDate,
)
    requires
        config.valid(),
        is_next_reset(now, period, config, next),
        today.valid(),
        epoch_day(today) == local_day(now, config.timezone_offset_secs as int),
        -262_144 <= today.year <= 262_143,
    ensures
        now < next <= now + 32 * 86_400,
{
    if period == ResetPeriod::Monthly {
        let day = local_day(now, config.timezone_offset_secs as int);
        let date = choose|date: CivilDate|
            date.valid() && #[trigger] epoch_day(date) == day && next == reset_instant(
                epoch_day(add_one_month_spec(date)),
                config,
            );
        lemma_one_date_a_day(date, today);
        lemma_month_step(date);
    }
}

/// Calculates the next reset from a reference instant.
///
/// An answer is owed for every instant within [`CLOCK_RANGE_SECS`] of the
/// epoch; beyond that it depends on how far chrono's calendar reaches.
pub fn next_reset_from(reference: Timestamp, period: ResetPeriod, reset_config: &ResetTime) -> (next:
    Option<Timestamp>)
    requires
        reset_config.valid(),
    ensures
        next matches Some(at) ==> at.nanos == 0 && is_next_reset(
            reference.secs as int,
            period,
            *reset_config,
            at.secs as int,
        ),
        -CLOCK_RANGE_SECS <= reference.secs <= CLOCK_RANGE_SECS ==> next is Some,
        next matches Some(at) ==> reference.secs < at.secs <= reference.secs + 32 * 86_400,
{
    let offset: i32 = reset_config.timezone_offset_secs;
    let (date, second) = match local_date_time(reference.secs, offset) {
        Some(local) => local,
        None => {
            return None;
        },
    };
    let reset_at: u32 = reset_config.hour * 3600 + reset_config.minute * 60;
    assert(epoch_day(date) == local_day(reference.secs as int, offset as int));
    assert(second == local_second(reference.secs as int, offset as int));
    let target = match period {
        ResetPeriod::Daily => {
            if second < reset_at {
                Some(date)
            } else {
                date_plus_days(date, 1)
            }
        },
        ResetPeriod::Weekly => date_plus_days(date, 7),
        ResetPeriod::Monthly => {
            proof {
                lemma_month_step(date);
            }
            Some(add_one_month(date))
        },
    };
    let target_date = match target {
        Some(target_date) => target_date,
        None => {
            return None;
        },
    };
    match local_instant(target_date, reset_config.hour, reset_config.minute, offset) {
        Some(secs) => {
            proof {
                lemma_next_reset_is_later(
                    reference.secs as int,
                    period,
                    *reset_config,
                    secs as int,
                    date,
                );
            }
            Some(Timestamp { secs, nanos: 0 })
        },
        None => None,
    }
}

} // verus!
