//! Calendar dates and instants as plain values.
//!
//! A [`Date`] is a day of the proleptic Gregorian calendar, a [`Timestamp`]
//! an instant in UTC given as a date and the time elapsed since its midnight.
//! Month arithmetic is done here; day arithmetic, formatting and time zone
//! conversion are left to `chrono` and `tzfile`.

use crate::text::{decimal, four_digits, two_digits};
use chrono::{Datelike, Timelike};
use vstd::prelude::*;

verus! {

/// A time zone read from the system's zone database; opaque here.
#[verifier::external_type_specification]
#[verifier::external_body]
pub struct ExTz(tzfile::Tz);

/// The earliest year a [`Date`] can hold (the first year of `chrono::NaiveDate`).
pub const MIN_YEAR: i32 = -262143;

/// The latest year a [`Date`] can hold (the last year of `chrono::NaiveDate`).
pub const MAX_YEAR: i32 = 262142;

/// Whether `year` has a 29th of February.
pub open spec fn is_leap_year(year: int) -> bool {
    year % 4 == 0 && (year % 100 != 0 || year % 400 == 0)
}

/// The number of days of `month` (1 to 12) in `year`; 0 for any other month.
pub open spec fn days_in_month(year: int, month: int) -> int {
    if month == 2 {
        if is_leap_year(year) { 29 } else { 28 }
    } else if month == 4 || month == 6 || month == 9 || month == 11 {
        30
    } else if 1 <= month <= 12 {
        31
    } else {
        0
    }
}

/// Whether `(year, month, day)` names a day that a [`Date`] can hold.
pub open spec fn is_calendar_day(year: int, month: int, day: int) -> bool {
    &&& MIN_YEAR <= year <= MAX_YEAR
    &&& 1 <= month <= 12
    &&& 1 <= day <= days_in_month(year, month)
}

/// A calendar date.
#[derive(Clone, Copy, Debug, PartialEq, Eq, Structural)]
pub struct Date {
    pub year: i32,
    pub month: u32,
    pub day: u32,
}

/// Executable form of [`is_leap_year`].
pub fn leap_year(year: i32) -> (r: bool)
    ensures
        r == is_leap_year(year as int),
{
    // The shift is a multiple of 400, so it keeps every remainder, and it
    // makes every year positive.
    let shifted: i64 = year as i64 + 2_147_484_000;
    shifted % 4 == 0 && (shifted % 100 != 0 || shifted % 400 == 0)
}

/// Executable form of [`days_in_month`].
pub fn month_length(year: i32, month: u32) -> (r: u32)
    ensures
        r == days_in_month(year as int, month as int),
{
    if month == 2 {
        if leap_year(year) { 29 } else { 28 }
    } else if month == 4 || month == 6 || month == 9 || month == 11 {
        30
    } else if 1 <= month && month <= 12 {
        31
    } else {
        0
    }
}

/// An instant in UTC: a date, the whole seconds since its midnight, and the
/// nanoseconds since that second (a billion or more inside a leap second).
#[derive(Clone, Copy, Debug, PartialEq, Eq, Structural)]
pub struct Timestamp {
    pub date: Date,
    pub secs: u32,
    pub frac: u32,
}

impl Date {
    /// Whether this value is a day of the calendar.
    pub open spec fn wf(self) -> bool {
        is_calendar_day(self.year as int, self.month as int, self.day as int)
    }

    /// Whether this date is strictly earlier than `other`.
    pub open spec fn before(self, other: Date) -> bool {
        ||| self.year < other.year
        ||| self.year == other.year && self.month < other.month
        ||| self.year == other.year && self.month == other.month && self.day < other.day
    }

    /// The first day of this date's month.
    pub open spec fn month_start(self) -> Date {
        Date { year: self.year, month: self.month, day: 1 }
    }

    /// The last day of this date's month.
    pub open spec fn month_end(self) -> Date {
        Date {
            year: self.year,
            month: self.month,
            day: days_in_month(self.year as int, self.month as int) as u32,
        }
    }

    /// The first day of the month after this date's month, unless that month
    /// lies beyond [`MAX_YEAR`].
    pub open spec fn next_month_start(self) -> Option<Date> {
        if self.month < 12 {
            Some(Date { year: self.year, month: (self.month + 1) as u32, day: 1 })
        } else if self.year < MAX_YEAR {
            Some(Date { year: (self.year + 1) as i32, month: 1, day: 1 })
        } else {
            None
        }
    }

    /// Whether this value is a day of the calendar.
    pub fn is_wf(&self) -> (r: bool)
        ensures
            r == self.wf(),
    {
        MIN_YEAR <= self.year && self.year <= MAX_YEAR && 1 <= self.month && self.month <= 12 && 1
            <= self.day && self.day <= month_length(self.year, self.month)
    }

    /// Whether this date is strictly earlier than `other`.
    pub fn is_before(&self, other: &Date) -> (r: bool)
        ensures
            r == self.before(*other),
    {
        self.year < other.year || (self.year == other.year && (self.month < other.month || (
        self.month == other.month && self.day < other.day)))
    }

    /// The first day of this date's month.
    pub fn first_of_month(&self) -> (r: Date)
        ensures
            r == self.month_start(),
            self.wf() ==> r.wf(),
    {
        Date { year: self.year, month: self.month, day: 1 }
    }

    /// The last day of this date's month.
    pub fn last_of_month(&self) -> (r: Date)
        ensures
            r == self.month_end(),
            self.wf() ==> r.wf(),
    {
        Date { year: self.year, month: self.month, day: month_length(self.year, self.month) }
    }

    /// The first day of the following month; `None` in December of the last year.
    pub fn first_of_next_month(&self) -> (r: Option<Date>)
        ensures
            r == self.next_month_start(),
            self.wf() ==> (r matches Some(d) ==> d.wf() && self.before(d)),
    {
        if self.month < 12 {
            Some(Date { year: self.year, month: self.month + 1, day: 1 })
        } else if self.year < MAX_YEAR {
            Some(Date { year: self.year + 1, month: 1, day: 1 })
        } else {
            None
        }
    }

    /// The date of the given year, month and day, if there is such a day.
    pub fn from_ymd(year: i32, month: u32, day: u32) -> (r: Option<Date>)
        ensures
            r is Some <==> is_calendar_day(year as int, month as int, day as int),
            r matches Some(d) ==> d.year == year && d.month == month && d.day == day,
    {
        if year < MIN_YEAR || year > MAX_YEAR || month < 1 || month > 12 || day < 1 {
            return None;
        }
        if day > month_length(year, month) {
            return None;
        }
        Some(Date { year, month, day })
    }
}

impl Timestamp {
    /// Whether the date is a day of the calendar and the time lies within it.
    pub open spec fn wf(self) -> bool {
        self.date.wf() && self.secs < 86_400 && self.frac < 2_000_000_000
    }

    /// Whether this instant is strictly earlier than `other`.
    pub open spec fn before(self, other: Timestamp) -> bool {
        ||| self.date.before(other.date)
        ||| self.date == other.date && self.secs < other.secs
        ||| self.date == other.date && self.secs == other.secs && self.frac < other.frac
    }

    /// Whether this instant is strictly earlier than `other`.
    pub fn is_before(&self, other: &Timestamp) -> (r: bool)
        ensures
            r == self.before(*other),
    {
        if self.date.is_before(&other.date) {
            true
        } else if self.date == other.date {
            self.secs < other.secs || (self.secs == other.secs && self.frac < other.frac)
        } else {
            false
        }
    }
}

/// The days of the calendar before the first day of `year`, counted from the
/// first day of year 1: none for year 1, and a negative number before it.
pub open spec fn days_before_year(year: int) -> int {
    let y = year - 1;
    365 * y + y / 4 - y / 100 + y / 400
}

/// The days of `year` before the first day of `month`.
pub open spec fn days_before_month(year: int, month: int) -> int {
    let common: int = if month <= 1 {
        0
    } else if month == 2 {
        31
    } else if month == 3 {
        59
    } else if month == 4 {
        90
    } else if month == 5 {
        120
    } else if month == 6 {
        151
    } else if month == 7 {
        181
    } else if month == 8 {
        212
    } else if month == 9 {
        243
    } else if month == 10 {
        273
    } else if month == 11 {
        304
    } else {
        334
    };
    if month > 2 && is_leap_year(year) {
        common + 1
    } else {
        common
    }
}

/// The number of a day when the days of the calendar are counted in order,
/// the first day of year 1 being day 1.
pub open spec fn day_number(date: Date) -> int {
    days_before_year(date.year as int) + days_before_month(date.year as int, date.month as int)
        + date.day
}

/// The day of the calendar with the number `n`, if the calendar reaches
/// that far.
pub open spec fn date_on(n: int) -> Option<Date> {
    if exists|d: Date| d.wf() && day_number(d) == n {
        Some(choose|d: Date| d.wf() && day_number(d) == n)
    } else {
        None
    }
}

/// The date `days` days before `date`; `None` where that lies before the
/// calendar, or where `date` is no day of it.
///
/// Calls `chrono::NaiveDate::checked_sub_days` on the date that
/// `chrono::NaiveDate::from_ymd_opt` makes of the three fields. Assumed: for
/// a day of the calendar the result is the day whose number is smaller by
/// `days`, if the calendar has that day; and a date that comes back is a day
/// of the calendar.
#[verifier::external_body]
pub(crate) fn days_before(date: &Date, days: u64) -> (r: Option<Date>)
    ensures
        date.wf() ==> r == date_on(day_number(*date) - days),
        !date.wf() ==> r is None,
        r matches Some(d) ==> d.wf(),
{
    let from = chrono::NaiveDate::from_ymd_opt(date.year, date.month, date.day)?;
    let to = from.checked_sub_days(chrono::Days::new(days))?;
    Some(Date { year: to.year(), month: to.month(), day: to.day() })
}

/// The date `days` days after `date`; `None` where that lies beyond the
/// calendar, or where `date` is no day of it.
///
/// Calls `chrono::NaiveDate::checked_add_days` on the date that
/// `chrono::NaiveDate::from_ymd_opt` makes of the three fields. Assumed: for
/// a day of the calendar the result is the day whose number is greater by
/// `days`, if the calendar has that day; and a date that comes back is a day
/// of the calendar.
#[verifier::external_body]
pub(crate) fn days_after(date: &Date, days: u64) -> (r: Option<Date>)
    ensures
        date.wf() ==> r == date_on(day_number(*date) + days),
        !date.wf() ==> r is None,
        r matches Some(d) ==> d.wf(),
{
    let from = chrono::NaiveDate::from_ymd_opt(date.year, date.month, date.day)?;
    let to = from.checked_add_days(chrono::Days::new(days))?;
    Some(Date { year: to.year(), month: to.month(), day: to.day() })
}

/// A year as text: in four digits from year 0 to year 9999; any other year
/// with its sign, `+` or `-`, and at least four digits.
pub open spec fn year_text(year: int) -> Seq<char> {
    if 0 <= year <= 9999 {
        four_digits(year)
    } else if year > 0 {
        seq!['+'] + decimal(year)
    } else if year >= -9999 {
        seq!['-'] + four_digits(-year)
    } else {
        seq!['-'] + decimal(-year)
    }
}

/// Year and month of a day of the calendar as text, the month in two digits
/// behind a hyphen; empty for a value that is no day of the calendar.
pub open spec fn year_month_text(date: Date) -> Seq<char> {
    if date.wf() {
        year_text(date.year as int) + seq!['-'] + two_digits(date.month as int)
    } else {
        Seq::empty()
    }
}

/// A day of the calendar in ISO 8601 form: year, month and day with hyphens
/// between them, month and day in two digits; empty for a value that is no
/// day of the calendar.
pub open spec fn iso_date_text(date: Date) -> Seq<char> {
    if date.wf() {
        year_month_text(date) + seq!['-'] + two_digits(date.day as int)
    } else {
        Seq::empty()
    }
}

/// Year and month of `date` as text.
///
/// Calls `chrono::NaiveDate::format` with the pattern `%Y-%m` on the date
/// that `chrono::NaiveDate::from_ymd_opt` makes of the three fields; the
/// text is empty where there is no such date. Assumed: the result is
/// [`year_month_text`] of the date.
#[verifier::external_body]
pub(crate) fn format_year_month(date: &Date) -> (r: String)
    ensures
        r@ == year_month_text(*date),
{
    match chrono::NaiveDate::from_ymd_opt(date.year, date.month, date.day) {
        Some(day) => day.format("%Y-%m").to_string(),
        None => String::new(),
    }
}

/// The date as text in ISO 8601 form.
///
/// Calls `to_string` on the date that `chrono::NaiveDate::from_ymd_opt`
/// makes of the three fields; the text is empty where there is no such date.
/// Assumed: the result is [`iso_date_text`] of the date.
#[verifier::external_body]
pub(crate) fn format_iso_date(date: &Date) -> (r: String)
    ensures
        r@ == iso_date_text(*date),
{
    match chrono::NaiveDate::from_ymd_opt(date.year, date.month, date.day) {
        Some(day) => day.to_string(),
        None => String::new(),
    }
}

/// Whether `at` can be the instant at which `date` begins in some time
/// zone: a whole second on the date or on the day before it, since no zone
/// is a day or more away from UTC.
pub open spec fn can_begin(date: Date, at: Timestamp) -> bool {
    &&& date.wf()
    &&& at.wf()
    &&& at.frac == 0
    &&& day_number(date) - 1 <= day_number(at.date) <= day_number(date)
}

/// The instant that `chrono` gives for midnight of `date` in `zone`, where
/// the zone's table has exactly one; `None` where it has none or two, or
/// where `date` is no day of the calendar. It is decided by the zone's table
/// and the date alone.
pub uninterp spec fn zone_midnight(zone: tzfile::Tz, date: Date) -> Option<Timestamp>;

/// The instant at which `date` begins in `zone`, where the zone has exactly
/// one such instant.
///
/// Calls `chrono::NaiveDateTime::and_local_timezone` with the zone, on
/// midnight of the date that `chrono::NaiveDate::from_ymd_opt` makes of the
/// three fields, and `chrono::MappedLocalTime::single` on what it gives.
/// Assumed: the result is [`zone_midnight`] of the zone and the date, and an
/// instant that comes back is one that [`can_begin`] the date.
#[verifier::external_body]
pub(crate) fn midnight_in_zone(zone: &tzfile::Tz, date: &Date) -> (r: Option<Timestamp>)
    ensures
        r == zone_midnight(*zone, *date),
        r matches Some(t) ==> can_begin(*date, t),
{
    let day = chrono::NaiveDate::from_ymd_opt(date.year, date.month, date.day)?;
    let utc = day.and_hms_opt(0, 0, 0)?.and_local_timezone(zone).single()?.naive_utc();
    Some(Timestamp {
        date: Date { year: utc.year(), month: utc.month(), day: utc.day() },
        secs: utc.num_seconds_from_midnight(),
        frac: utc.nanosecond(),
    })
}

/// From one number to the next a quotient grows by one exactly at the
/// multiples of the divisor.
proof fn quotient_steps(y: int, k: int)
    requires
        k == 4 || k == 100 || k == 400,
    ensures
        y / k - (y - 1) / k == if y % k == 0 {
            1int
        } else {
            0int
        },
{
}

/// A year has 365 days, or 366 where it has a 29th of February.
pub proof fn years_add_up(year: int)
    ensures
        days_before_year(year + 1) == days_before_year(year) + 365 + if is_leap_year(year) {
            1int
        } else {
            0int
        },
{
    quotient_steps(year, 4);
    quotient_steps(year, 100);
    quotient_steps(year, 400);
    hundreds_are_fours(year);
    let y = year - 1;
    let by_4 = year / 4 - y / 4;
    let by_100 = year / 100 - y / 100;
    let by_400 = year / 400 - y / 400;
    assert(days_before_year(year + 1) - days_before_year(year) == 365 + by_4 - by_100 + by_400);
}

/// A multiple of 400 is one of 100, and a multiple of 100 is one of 4.
proof fn hundreds_are_fours(year: int)
    ensures
        year % 400 == 0 ==> year % 100 == 0,
        year % 100 == 0 ==> year % 4 == 0,
{
    if year % 400 == 0 {
        assert(year == 400 * (year / 400));
        assert(year == 100 * (4 * (year / 400)));
    }
    if year % 100 == 0 {
        assert(year == 100 * (year / 100));
        assert(year == 4 * (25 * (year / 100)));
    }
}

/// Each month begins where the month before it ends, and December ends
/// with the year.
pub proof fn months_add_up(year: int, month: int)
    ensures
        1 <= month < 12 ==> days_before_month(year, month + 1) == days_before_month(year, month)
            + days_in_month(year, month),
        days_before_month(year, 1) == 0,
        days_before_month(year, 12) + 31 == 365 + if is_leap_year(year) {
            1int
        } else {
            0int
        },
{
}

/// The days before a year grow with the year, by at least 365 a year.
pub proof fn years_are_in_order(earlier: int, later: int)
    requires
        earlier <= later,
    ensures
        days_before_year(later) - days_before_year(earlier) >= 365 * (later - earlier),
    decreases later - earlier,
{
    if earlier < later {
        years_are_in_order(earlier, later - 1);
        years_add_up(later - 1);
    }
}

/// Day numbers follow the calendar: of two days the earlier has the smaller
/// number, and two days with the same number are the same day.
pub proof fn day_numbers_are_in_order(a: Date, b: Date)
    requires
        a.wf(),
        b.wf(),
    ensures
        a.before(b) <==> day_number(a) < day_number(b),
        a == b <==> day_number(a) == day_number(b),
{
    date_order_is_total(a, b, a);
    if a.year < b.year {
        years_are_in_order(a.year + 1, b.year as int);
        years_add_up(a.year as int);
        day_in_year_is_bounded(a);
        day_in_year_is_bounded(b);
    } else if b.year < a.year {
        years_are_in_order(b.year + 1, a.year as int);
        years_add_up(b.year as int);
        day_in_year_is_bounded(a);
        day_in_year_is_bounded(b);
    } else if a.month < b.month {
        months_are_in_order(a.year as int, a.month as int, b.month as int);
    } else if b.month < a.month {
        months_are_in_order(a.year as int, b.month as int, a.month as int);
    }
}

/// A day of the calendar lies within its year.
proof fn day_in_year_is_bounded(d: Date)
    requires
        d.wf(),
    ensures
        1 <= days_before_month(d.year as int, d.month as int) + d.day <= 365 + if is_leap_year(
            d.year as int,
        ) {
            1int
        } else {
            0int
        },
{
}

/// A later month begins after an earlier one has ended.
proof fn months_are_in_order(year: int, earlier: int, later: int)
    requires
        1 <= earlier < later <= 12,
    ensures
        days_before_month(year, later) >= days_before_month(year, earlier) + days_in_month(
            year,
            earlier,
        ),
{
}

/// Every day of the calendar is the day of its number.
pub proof fn date_on_its_number(d: Date)
    requires
        d.wf(),
    ensures
        date_on(day_number(d)) == Some(d),
{
    let found = choose|x: Date| x.wf() && day_number(x) == day_number(d);
    day_numbers_are_in_order(found, d);
}

/// The day that [`date_on`] gives has the number asked for.
pub proof fn date_on_has_its_number(n: int)
    ensures
        date_on(n) matches Some(d) ==> d.wf() && day_number(d) == n,
{
}

/// The first day of the following month comes right after the last day of
/// a month.
pub proof fn next_month_follows(d: Date)
    requires
        d.wf(),
    ensures
        d.month_end().wf(),
        day_number(d.month_end()) == day_number(d.month_start()) + days_in_month(
            d.year as int,
            d.month as int,
        ) - 1,
        d.next_month_start() matches Some(next) ==> next.wf() && day_number(next) == day_number(
            d.month_end(),
        ) + 1,
{
    years_add_up(d.year as int);
    months_add_up(d.year as int, d.month as int);
}

/// Dates are totally ordered by [`Date::before`]: no date is before itself,
/// of two different dates exactly one is before the other, and the relation
/// is transitive.
pub proof fn date_order_is_total(a: Date, b: Date, c: Date)
    ensures
        !a.before(a),
        a != b ==> (a.before(b) <==> !b.before(a)),
        a == b ==> !a.before(b),
        a.before(b) && b.before(c) ==> a.before(c),
{
}

/// Instants are totally ordered by [`Timestamp::before`].
pub proof fn timestamp_order_is_total(a: Timestamp, b: Timestamp, c: Timestamp)
    ensures
        !a.before(a),
        a != b ==> (a.before(b) <==> !b.before(a)),
        a == b ==> !a.before(b),
        a.before(b) && b.before(c) ==> a.before(c),
{
}

} // verus!
