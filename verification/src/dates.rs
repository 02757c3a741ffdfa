//! The date and time of a file, as it is written in a column of the tree.
//!
//! A time is given with the offset of local time at that time, so what is
//! written depends on the two numbers alone.

use vstd::prelude::*;
use chrono::TimeZone;
use crate::text::{digit_char, optional_text};

verus! {

/// A time, in seconds since the Unix epoch, with the offset of local time from
/// universal time at that time, in seconds to the east.
#[derive(Clone, Copy, Debug, PartialEq, Eq, Structural)]
pub struct LocalTime {
    pub secs: i64,
    pub offset: i32,
}

/// The number of characters of a date as it is written: `YYYY/MM/DD HH:MM` and
/// a space.
pub const DATE_WIDTH: usize = 17;

/// The first second of the year 0, in seconds since the Unix epoch.
pub const YEAR_0: i64 = -62_167_219_200;

/// The first second of the year 10000, in seconds since the Unix epoch.
pub const YEAR_10000: i64 = 253_402_300_800;

/// A date and a time of day in the Gregorian calendar, to the minute.
pub struct CivilTime {
    pub year: int,
    pub month: int,
    pub day: int,
    pub hour: int,
    pub minute: int,
}

/// Whether `year` has a 29th of February.
pub open spec fn is_leap_year(year: int) -> bool {
    year % 4 == 0 && (year % 100 != 0 || year % 400 == 0)
}

/// The number of days of month `month` of `year`.
pub open spec fn days_in_month(year: int, month: int) -> int {
    if month == 2 {
        if is_leap_year(year) {
            29
        } else {
            28
        }
    } else if month == 4 || month == 6 || month == 9 || month == 11 {
        30
    } else {
        31
    }
}

/// The number of days of `year` that come before its month `month`.
pub open spec fn days_before_month(year: int, month: int) -> int
    decreases month,
{
    if month <= 1 {
        0
    } else {
        days_before_month(year, month - 1) + days_in_month(year, month - 1)
    }
}

/// The number of leap years from the year 1 up to, and without, `year`.
pub open spec fn leap_years_before(year: int) -> int {
    (year - 1) / 4 - (year - 1) / 100 + (year - 1) / 400
}

/// The number of days from the first day of 1970 to the first day of `year`;
/// negative for an earlier year.
pub open spec fn days_before_year(year: int) -> int {
    365 * (year - 1970) + leap_years_before(year) - leap_years_before(1970)
}

/// The number of days from the first day of 1970 to the day of `c`.
pub open spec fn day_number(c: CivilTime) -> int {
    days_before_year(c.year) + days_before_month(c.year, c.month) + c.day - 1
}

/// The first second of the minute `c`, in seconds since the first second of
/// 1970 on the same clock.
pub open spec fn first_second(c: CivilTime) -> int {
    day_number(c) * 86_400 + c.hour * 3_600 + c.minute * 60
}

/// `c` is a date of the calendar and a time of the clock.
pub open spec fn is_civil(c: CivilTime) -> bool {
    &&& 1 <= c.month <= 12
    &&& 1 <= c.day <= days_in_month(c.year, c.month)
    &&& 0 <= c.hour < 24
    &&& 0 <= c.minute < 60
}

/// Second `t` falls in the minute `c`.
pub open spec fn in_minute(c: CivilTime, t: int) -> bool {
    is_civil(c) && first_second(c) <= t < first_second(c) + 60
}

/// The minute of the calendar and the clock in which second `t` falls.
pub open spec fn civil_of(t: int) -> CivilTime {
    choose|c: CivilTime| in_minute(c, t)
}

/// `n` in two decimal digits.
pub open spec fn two_digits(n: int) -> Seq<char> {
    seq![digit_char(n / 10 % 10), digit_char(n % 10)]
}

/// `n` in four decimal digits.
pub open spec fn four_digits(n: int) -> Seq<char> {
    two_digits(n / 100) + two_digits(n % 100)
}

/// The minute `c` as it is written: `YYYY/MM/DD HH:MM` and a space.
pub open spec fn written(c: CivilTime) -> Seq<char> {
    four_digits(c.year) + seq!['/'] + two_digits(c.month) + seq!['/'] + two_digits(c.day) + seq![
        ' ',
    ] + two_digits(c.hour) + seq![':'] + two_digits(c.minute) + seq![' ']
}

/// What is written for second `t` of a clock: the date and time of its minute.
pub open spec fn date_written(t: int) -> Seq<char> {
    written(civil_of(t))
}

/// The time can be written: its offset is less than a day, and its year on
/// the local clock has four digits.
pub open spec fn can_be_written(time: LocalTime) -> bool {
    &&& -86_400 < time.offset < 86_400
    &&& YEAR_0 <= time.secs + time.offset < YEAR_10000
}

/// What the date column shows for a line changed at `modified`: the local date
/// and time, where there is a time and it can be written.
pub open spec fn date_shown(modified: Option<LocalTime>) -> Option<Seq<char>> {
    match modified {
        Some(time) => if can_be_written(time) {
            Some(date_written(time.secs + time.offset))
        } else {
            None
        },
        None => None,
    }
}

/// Every date is written in seventeen characters.
pub proof fn lemma_written_width(c: CivilTime)
    ensures
        written(c).len() == DATE_WIDTH,
{
}

/// From one number to the next the quotient by 4 grows by one at the
/// multiples of 4, and not at all elsewhere.
proof fn lemma_quotient_by_4(n: int)
    ensures
        n / 4 - (n - 1) / 4 == if n % 4 == 0 {
            1int
        } else {
            0int
        },
{
}

/// From one number to the next the quotient by 100 grows by one at the
/// multiples of 100, and not at all elsewhere.
proof fn lemma_quotient_by_100(n: int)
    ensures
        n / 100 - (n - 1) / 100 == if n % 100 == 0 {
            1int
        } else {
            0int
        },
{
}

/// From one number to the next the quotient by 400 grows by one at the
/// multiples of 400, and not at all elsewhere.
proof fn lemma_quotient_by_400(n: int)
    ensures
        n / 400 - (n - 1) / 400 == if n % 400 == 0 {
            1int
        } else {
            0int
        },
{
}

/// A multiple of 400 is a multiple of 100, and a multiple of 100 is one of 4.
proof fn lemma_multiples(n: int)
    ensures
        n % 400 == 0 ==> n % 100 == 0,
        n % 100 == 0 ==> n % 4 == 0,
{
    vstd::arithmetic::div_mod::lemma_mod_mod(n, 100, 4);
    vstd::arithmetic::div_mod::lemma_mod_mod(n, 4, 25);
}

/// One more leap year lies before the year after a leap year, and no more
/// before the year after another year.
proof fn lemma_leap_years_step(year: int)
    ensures
        leap_years_before(year + 1) == leap_years_before(year) + if is_leap_year(year) {
            1int
        } else {
            0int
        },
{
    lemma_quotient_by_4(year);
    lemma_quotient_by_100(year);
    lemma_quotient_by_400(year);
    lemma_multiples(year);
}

/// A year is 366 days long if it is a leap year, and 365 days long if not.
pub proof fn lemma_year_length(year: int)
    ensures
        days_before_year(year + 1) == days_before_year(year) + if is_leap_year(year) {
            366int
        } else {
            365int
        },
{
    lemma_leap_years_step(year);
}

/// The years follow each other: a later year starts when the year before it
/// is over, or later.
pub proof fn lemma_later_year(year: int, later: int)
    requires
        year < later,
    ensures
        days_before_year(year + 1) <= days_before_year(later),
    decreases later - year,
{
    if year + 1 < later {
        lemma_later_year(year, later - 1);
        lemma_year_length(later - 1);
    }
}

/// The months follow each other: a later month starts when the month before
/// it is over, or later.
pub proof fn lemma_later_month(year: int, month: int, later: int)
    requires
        1 <= month < later,
    ensures
        days_before_month(year, month) + days_in_month(year, month) <= days_before_month(
            year,
            later,
        ),
    decreases later - month,
{
    if month + 1 < later {
        lemma_later_month(year, month, later - 1);
    }
}

/// A day of the calendar is a day of its year.
pub proof fn lemma_day_in_year(c: CivilTime)
    requires
        is_civil(c),
    ensures
        days_before_year(c.year) <= day_number(c) < days_before_year(c.year + 1),
{
    lemma_year_length(c.year);
    reveal_with_fuel(days_before_month, 13);
    if c.month < 12 {
        lemma_later_month(c.year, c.month, 12);
    }
}

/// A second falls in one minute of the calendar and the clock only.
pub proof fn lemma_one_minute(t: int, c: CivilTime, d: CivilTime)
    requires
        in_minute(c, t),
        in_minute(d, t),
    ensures
        c == d,
{
    assert(day_number(c) == day_number(d));
    assert(c.hour * 60 + c.minute == d.hour * 60 + d.minute);
    lemma_day_in_year(c);
    lemma_day_in_year(d);
    if c.year < d.year {
        lemma_later_year(c.year, d.year);
    }
    if d.year < c.year {
        lemma_later_year(d.year, c.year);
    }
    if c.month < d.month {
        lemma_later_month(c.year, c.month, d.month);
    }
    if d.month < c.month {
        lemma_later_month(c.year, d.month, c.month);
    }
}

/// The minute in which a second falls is the minute of that second: what is
/// written for second `t` is the writing of `c`.
pub proof fn lemma_minute_of(t: int, c: CivilTime)
    requires
        in_minute(c, t),
    ensures
        civil_of(t) == c,
        date_written(t) == written(c),
{
    lemma_one_minute(t, c, civil_of(t));
}

/// The date and time of `secs` seconds since the Unix epoch on a clock that is
/// `offset` seconds ahead of universal time.
///
/// This calls `chrono::FixedOffset::east_opt`, `TimeZone::timestamp_opt` on
/// that offset and `DateTime::format` with `%Y/%m/%d %R `. For a time that
/// can be written, `chrono` gives the date of the proleptic Gregorian calendar
/// and the time of day of second `secs + offset`, the year zero-padded to four
/// digits, the other fields to two. The contract claims nothing of other
/// times, for which `chrono` gives nothing or writes a sign before the year.
#[verifier::external_body]
pub(crate) fn fixed_offset_date(secs: i64, offset: i32) -> (text: Option<String>)
    ensures
        can_be_written(LocalTime { secs, offset }) ==> optional_text(text) == Some(
            date_written(secs + offset),
        ),
{
    match chrono::FixedOffset::east_opt(offset) {
        Some(zone) => match zone.timestamp_opt(secs, 0) {
            chrono::LocalResult::Single(date_time) => Some(
                date_time.format("%Y/%m/%d %R ").to_string(),
            ),
            _ => None,
        },
        None => None,
    }
}

impl LocalTime {
    /// Whether the time can be written.
    pub fn can_be_written(&self) -> (can: bool)
        ensures
            can == can_be_written(*self),
    {
        let local: i128 = self.secs as i128 + self.offset as i128;
        -86_400 < self.offset && self.offset < 86_400 && YEAR_0 as i128 <= local && local
            < YEAR_10000 as i128
    }
}

/// The date of a line changed at `modified`, as the date column shows it:
/// nothing for a line without a time, or with a time that cannot be written.
pub fn date_text(modified: Option<LocalTime>) -> (text: Option<String>)
    ensures
        optional_text(text) == date_shown(modified),
{
    match modified {
        Some(time) => {
            if time.can_be_written() {
                fixed_offset_date(time.secs, time.offset)
            } else {
                None
            }
        },
        None => None,
    }
}

} // verus!
