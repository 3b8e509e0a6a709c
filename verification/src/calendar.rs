//! Calendar dates and UTC instants, as plain values ordered like the
//! chrono types they stand for.

use chrono::Datelike;
use vstd::prelude::*;

verus! {

/// Day number of the UNIX epoch (1970-01-01) counted from January 1 of year 1.
pub open spec fn unix_epoch_day() -> int {
    719_163
}

/// The calendar day (counted from January 1 of year 1) on which the UTC
/// instant `secs` seconds after the epoch falls.
pub open spec fn utc_day_of(secs: int) -> int {
    secs / 86_400 + unix_epoch_day()
}

/// Leap years of the proleptic Gregorian calendar.
pub open spec fn is_leap_year(year: int) -> bool {
    year % 4 == 0 && (year % 100 != 0 || year % 400 == 0)
}

/// The number of days in a year.
pub open spec fn days_in_year(year: int) -> int {
    if is_leap_year(year) {
        366
    } else {
        365
    }
}

/// The number of days in month `month` (1 to 12) of `year`.
pub open spec fn days_in_month(year: int, month: int) -> int {
    if month == 2 {
        if is_leap_year(year) {
            29
        } else {
            28
        }
    } else if month == 4 || month == 6 || month == 9 || month == 11 {
        30
    } else {
        31
    }
}

/// The days of `year` before the first of month `month` (1 to 12).
pub open spec fn days_before_month(year: int, month: int) -> int {
    let common: int = if month == 1 {
        0
    } else if month == 2 {
        31
    } else if month == 3 {
        59
    } else if month == 4 {
        90
    } else if month == 5 {
        120
    } else if month == 6 {
        151
    } else if month == 7 {
        181
    } else if month == 8 {
        212
    } else if month == 9 {
        243
    } else if month == 10 {
        273
    } else if month == 11 {
        304
    } else {
        334
    };
    if month > 2 && is_leap_year(year) {
        common + 1
    } else {
        common
    }
}

/// The days from January 1 of year 1 up to (not including) January 1 of
/// `year`; negative before year 1.
pub open spec fn days_before_year(year: int) -> int {
    let p = year - 1;
    365 * p + p / 4 - p / 100 + p / 400
}

/// The earliest and latest years that chrono's dates reach.
pub open spec fn min_year() -> int {
    -262_143
}

pub open spec fn max_year() -> int {
    262_142
}

/// Whether chrono's `NaiveDate::from_ymd_opt(year, month, day)` accepts the
/// triple (a real date within chrono's years), and if so its day number
/// (`num_days_from_ce`, January 1 of year 1 being day 1).
pub open spec fn gregorian_day_number(year: i32, month: u32, day: u32) -> Option<int> {
    if min_year() <= year <= max_year() && 1 <= month <= 12 && 1 <= day <= days_in_month(
        year as int,
        month as int,
    ) {
        Some(days_before_year(year as int) + days_before_month(year as int, month as int) + day)
    } else {
        None
    }
}

/// The first and last day numbers of chrono's dates.
pub open spec fn min_day_number() -> int {
    days_before_year(min_year()) + 1
}

pub open spec fn max_day_number() -> int {
    days_before_year(max_year() + 1)
}

/// Whether chrono's `DateTime::<Utc>::from_timestamp(secs, nanos)` accepts
/// the pair: the date falls within chrono's dates, and the nanosecond part
/// is under two seconds, reaching past one second only in the last second
/// of a minute (a leap second).
pub open spec fn utc_timestamp_accepted(secs: i64, nanos: u32) -> bool {
    &&& min_day_number() <= utc_day_of(secs as int) <= max_day_number()
    &&& nanos < 2_000_000_000
    &&& nanos >= 1_000_000_000 ==> secs % 60 == 59
}

/// A year's days run from the start of that year to the start of the next.
pub proof fn lemma_year_length(year: int)
    ensures
        days_before_year(year + 1) == days_before_year(year) + days_in_year(year),
{
    let p = year - 1;
    assert((p + 1) / 4 == p / 4 + (if year % 4 == 0 { 1int } else { 0 }));
    assert((p + 1) / 100 == p / 100 + (if year % 100 == 0 { 1int } else { 0 }));
    assert((p + 1) / 400 == p / 400 + (if year % 400 == 0 { 1int } else { 0 }));
}

/// Later years start after earlier years end.
pub proof fn lemma_years_in_order(earlier: int, later: int)
    requires
        earlier < later,
    ensures
        days_before_year(earlier) + days_in_year(earlier) <= days_before_year(later),
    decreases later - earlier,
{
    lemma_year_length(earlier);
    if earlier + 1 < later {
        lemma_years_in_order(earlier + 1, later);
    }
}

/// Dates built from a year, month and day are numbered in calendar order:
/// a triple that comes earlier (by year, then month, then day) has the
/// smaller day number.
pub proof fn lemma_day_numbers_follow_calendar_order(
    y1: i32,
    m1: u32,
    d1: u32,
    y2: i32,
    m2: u32,
    d2: u32,
)
    requires
        gregorian_day_number(y1, m1, d1) is Some,
        gregorian_day_number(y2, m2, d2) is Some,
        y1 < y2 || (y1 == y2 && m1 < m2) || (y1 == y2 && m1 == m2 && d1 < d2),
    ensures
        gregorian_day_number(y1, m1, d1)->0 < gregorian_day_number(y2, m2, d2)->0,
{
    if y1 < y2 {
        lemma_years_in_order(y1 as int, y2 as int);
        assert(days_before_month(y1 as int, m1 as int) + days_in_month(y1 as int, m1 as int)
            <= days_in_year(y1 as int));
    }
}

/// Calls `chrono::NaiveDate::from_ymd_opt` and reads `num_days_from_ce` of
/// the date. Claimed, from chrono's source and documentation: a date comes
/// back exactly for the triples that `gregorian_day_number` accepts, with
/// that day number.
#[verifier::external_body]
fn chrono_day_number(year: i32, month: u32, day: u32) -> (res: Option<i32>)
    ensures
        match res {
            Some(d) => gregorian_day_number(year, month, day) == Some(d as int),
            None => gregorian_day_number(year, month, day) is None,
        },
{
    chrono::NaiveDate::from_ymd_opt(year, month, day).map(|d| d.num_days_from_ce())
}

/// Calls `chrono::DateTime::<Utc>::from_timestamp` and reads the day number
/// of its UTC date. Claimed, from chrono's source: the instant exists exactly
/// when `utc_timestamp_accepted` holds, and its date is `secs` floor-divided
/// by 86 400 plus the epoch's day number.
#[verifier::external_body]
fn chrono_utc_day(secs: i64, nanos: u32) -> (res: Option<i32>)
    ensures
        res is Some <==> utc_timestamp_accepted(secs, nanos),
        res matches Some(d) ==> d as int == utc_day_of(secs as int),
{
    chrono::DateTime::from_timestamp(secs, nanos).map(|t| t.date_naive().num_days_from_ce())
}

/// A date of the proleptic Gregorian calendar, held as its day number
/// counted from January 1 of year 1 (that day being 1).
#[derive(Clone, Copy, Debug, PartialEq, Eq, Structural)]
pub struct CalendarDate {
    days: i32,
}

impl CalendarDate {
    /// The day number of the date; later dates have larger numbers.
    pub closed spec fn day_number(self) -> int {
        self.days as int
    }

    /// The date with the given year, month and day, or `None` where the
    /// calendar has no such date.
    pub fn from_ymd(year: i32, month: u32, day: u32) -> (res: Option<CalendarDate>)
        ensures
            match res {
                Some(d) => gregorian_day_number(year, month, day) == Some(d.day_number()),
                None => gregorian_day_number(year, month, day) is None,
            },
    {
        match chrono_day_number(year, month, day) {
            Some(days) => Some(CalendarDate { days }),
            None => None,
        }
    }

    /// The day number of the date.
    pub fn days_from_ce(&self) -> (res: i32)
        ensures
            res as int == self.day_number(),
    {
        self.days
    }

    /// `self` is strictly earlier than `other`.
    pub fn is_before(&self, other: &CalendarDate) -> (res: bool)
        ensures
            res == (self.day_number() < other.day_number()),
    {
        self.days < other.days
    }
}

/// An instant in UTC, held as seconds since the UNIX epoch and the
/// nanosecond part (which exceeds one second only inside a leap second),
/// together with the calendar day on which it falls.
#[derive(Clone, Copy, Debug)]
pub struct Timestamp {
    secs: i64,
    nanos: u32,
    day: i32,
}

impl Timestamp {
    #[verifier::type_invariant]
    closed spec fn well_formed(self) -> bool {
        &&& utc_timestamp_accepted(self.secs, self.nanos)
        &&& self.day as int == utc_day_of(self.secs as int)
    }

    /// Seconds since the UNIX epoch.
    pub closed spec fn seconds(self) -> int {
        self.secs as int
    }

    /// Nanoseconds past `seconds()`.
    pub closed spec fn subsec_nanos(self) -> int {
        self.nanos as int
    }

    /// The instant ordering: by seconds, then by the nanosecond part.
    pub open spec fn earlier_than(self, other: Timestamp) -> bool {
        ||| self.seconds() < other.seconds()
        ||| (self.seconds() == other.seconds() && self.subsec_nanos() < other.subsec_nanos())
    }

    /// The UTC instant `secs` seconds and `nanos` nanoseconds after the
    /// epoch, or `None` where chrono has no such instant.
    pub fn from_unix(secs: i64, nanos: u32) -> (res: Option<Timestamp>)
        ensures
            res is Some <==> utc_timestamp_accepted(secs, nanos),
            res matches Some(t) ==> t.seconds() == secs && t.subsec_nanos() == nanos,
    {
        match chrono_utc_day(secs, nanos) {
            Some(day) => Some(Timestamp { secs, nanos, day }),
            None => None,
        }
    }

    /// Seconds since the UNIX epoch.
    pub fn unix_seconds(&self) -> (res: i64)
        ensures
            res as int == self.seconds(),
    {
        self.secs
    }

    /// The nanosecond part.
    pub fn unix_subsec_nanos(&self) -> (res: u32)
        ensures
            res as int == self.subsec_nanos(),
    {
        self.nanos
    }

    /// The UTC calendar date of the instant.
    pub fn date_naive(&self) -> (res: CalendarDate)
        ensures
            res.day_number() == utc_day_of(self.seconds()),
    {
        proof {
            use_type_invariant(self);
        }
        CalendarDate { days: self.day }
    }

    /// `self` is strictly earlier than `other`.
    pub fn is_before(&self, other: &Timestamp) -> (res: bool)
        ensures
            res == self.earlier_than(*other),
            self.seconds() < other.seconds() ==> res,
            other.seconds() < self.seconds() ==> !res,
            self.seconds() == other.seconds() ==> res == (self.subsec_nanos() < other.subsec_nanos()),
    {
        self.secs < other.secs || (self.secs == other.secs && self.nanos < other.nanos)
    }
}

/// An instant whose second comes first is earlier, whatever the seconds'
/// distance and the nanosecond parts.
pub proof fn lemma_earlier_second_is_earlier(a: Timestamp, b: Timestamp)
    requires
        a.seconds() < b.seconds(),
    ensures
        a.earlier_than(b),
        !b.earlier_than(a),
{
}

/// The instant order is a strict total order: never reflexive, transitive,
/// and any two instants that differ in seconds or nanoseconds are ordered
/// one way or the other.
pub proof fn lemma_earlier_than_is_strict_total_order(a: Timestamp, b: Timestamp, c: Timestamp)
    ensures
        !a.earlier_than(a),
        a.earlier_than(b) && b.earlier_than(c) ==> a.earlier_than(c),
        a.earlier_than(b) ==> !b.earlier_than(a),
        (a.seconds() != b.seconds() || a.subsec_nanos() != b.subsec_nanos()) ==> (a.earlier_than(b)
            || b.earlier_than(a)),
        a.earlier_than(b) ==> a.seconds() <= b.seconds(),
{
}

} // verus!
