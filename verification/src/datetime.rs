//! A civil (local wall-clock) date-time model: year, month, day, hour,
//! minute, second as plain integers, with the Gregorian calendar rules the
//! recurrence engine needs. Instants are ordered through a total second
//! count from the start of year 1, so comparisons and hour differences are
//! plain integer arithmetic. The supported calendar range is year 1 through
//! year 9999.

use vstd::prelude::*;

verus! {

/// A leap year: divisible by 4 but not by 100, or divisible by 400.
pub open spec fn spec_is_leap_year(year: int) -> bool {
    (year % 4 == 0 && year % 100 != 0) || year % 400 == 0
}

/// Number of days in a month of a given year (standard 31/30/28-or-29 table).
pub open spec fn spec_days_in_month(month: int, year: int) -> int {
    if month == 2 {
        if spec_is_leap_year(year) { 29 } else { 28 }
    } else if month == 4 || month == 6 || month == 9 || month == 11 {
        30
    } else {
        31
    }
}

/// Number of days in a year: 366 in leap years, 365 otherwise.
pub open spec fn spec_days_in_year(year: int) -> int {
    if spec_is_leap_year(year) { 366 } else { 365 }
}

/// Days strictly before January 1 of `year`, counting from January 1 of
/// year 1 (so `spec_days_before_year(1) == 0`).
pub open spec fn spec_days_before_year(year: int) -> int
    decreases year,
{
    if year <= 1 {
        0
    } else {
        spec_days_before_year(year - 1) + spec_days_in_year(year - 1)
    }
}

/// Days of `year` strictly before the first day of `month`
/// (so `spec_days_before_month(1, year) == 0`).
pub open spec fn spec_days_before_month(month: int, year: int) -> int
    decreases month,
{
    if month <= 1 {
        0
    } else {
        spec_days_before_month(month - 1, year) + spec_days_in_month(month - 1, year)
    }
}

/// The day index of the last supported day, December 31 of year 9999.
pub open spec fn max_day_index() -> int {
    spec_days_before_year(10000) - 1
}

pub fn is_leap_year(year: i32) -> (r: bool)
    requires
        year >= 0,
    ensures
        r == spec_is_leap_year(year as int),
{
    (year % 4 == 0 && year % 100 != 0) || year % 400 == 0
}

/// Days in the given month, `1..=12`, of the given year.
pub fn days_in_month(month: u32, year: i32) -> (d: u32)
    requires
        1 <= month <= 12,
        year >= 0,
    ensures
        d == spec_days_in_month(month as int, year as int),
{
    match month {
        1 | 3 | 5 | 7 | 8 | 10 | 12 => 31,
        4 | 6 | 9 | 11 => 30,
        _ => {
            if is_leap_year(year) {
                29
            } else {
                28
            }
        },
    }
}

proof fn lemma_days_before_year_nonneg(year: int)
    ensures
        spec_days_before_year(year) >= 0,
    decreases year,
{
    if year > 1 {
        lemma_days_before_year_nonneg(year - 1);
    }
}

proof fn lemma_days_before_year_monotone(y1: int, y2: int)
    requires
        y1 <= y2,
    ensures
        spec_days_before_year(y1) <= spec_days_before_year(y2),
    decreases y2 - y1,
{
    if y1 < y2 {
        lemma_days_before_year_monotone(y1, y2 - 1);
        if y2 > 1 {
            lemma_days_before_year_nonneg(y2 - 1);
        }
    }
}

proof fn lemma_days_before_month_nonneg(month: int, year: int)
    ensures
        spec_days_before_month(month, year) >= 0,
    decreases month,
{
    if month > 1 {
        lemma_days_before_month_nonneg(month - 1, year);
    }
}

proof fn lemma_days_before_month_monotone(m1: int, m2: int, year: int)
    requires
        m1 <= m2,
    ensures
        spec_days_before_month(m1, year) <= spec_days_before_month(m2, year),
    decreases m2 - m1,
{
    if m1 < m2 {
        lemma_days_before_month_monotone(m1, m2 - 1, year);
    }
}

/// The months of one year sum to its day count.
proof fn lemma_months_fill_year(year: int)
    ensures
        spec_days_before_month(13, year) == spec_days_in_year(year),
{
    reveal_with_fuel(spec_days_before_month, 14);
}

/// A civil date-time: a calendar date with a time of day, interpreted in
/// the machine's local timezone throughout this crate.
#[derive(Clone, Copy, PartialEq, Eq, Structural, Debug)]
pub struct DateTime {
    pub year: i32,
    pub month: u32,
    pub day: u32,
    pub hour: u32,
    pub minute: u32,
    pub second: u32,
}

impl DateTime {
    /// A well-formed date-time: a real calendar day in years 1..=9999 with
    /// a valid time of day.
    pub open spec fn wf(self) -> bool {
        &&& 1 <= self.year <= 9999
        &&& 1 <= self.month <= 12
        &&& 1 <= self.day <= spec_days_in_month(self.month as int, self.year as int)
        &&& self.hour <= 23
        &&& self.minute <= 59
        &&& self.second <= 59
    }

    /// Days between January 1 of year 1 and this date.
    pub open spec fn spec_day_index(self) -> int {
        spec_days_before_year(self.year as int)
            + spec_days_before_month(self.month as int, self.year as int)
            + self.day - 1
    }

    /// Seconds between the start of year 1 and this instant: the total
    /// order on date-times used by every comparison in this crate.
    pub open spec fn spec_seconds(self) -> int {
        self.spec_day_index() * 86400 + self.hour * 3600 + self.minute * 60 + self.second
    }
}

/// A well-formed date stays within its own year's day range.
proof fn lemma_day_index_in_year(dt: DateTime)
    requires
        dt.wf(),
    ensures
        spec_days_before_year(dt.year as int) <= dt.spec_day_index(),
        dt.spec_day_index() < spec_days_before_year(dt.year as int + 1),
{
    let y = dt.year as int;
    let m = dt.month as int;
    lemma_days_before_month_nonneg(m, y);
    assert(spec_days_before_month(m + 1, y) == spec_days_before_month(m, y)
        + spec_days_in_month(m, y));
    lemma_days_before_month_monotone(m + 1, 13, y);
    lemma_months_fill_year(y);
}

/// December 31 of year 9999 is the last supported day.
proof fn lemma_last_day_is_max(dt: DateTime)
    requires
        dt.wf(),
        dt.year == 9999,
        dt.month == 12,
        dt.day == 31,
    ensures
        dt.spec_day_index() == max_day_index(),
{
    lemma_months_fill_year(9999);
    assert(spec_days_before_month(13, 9999) == spec_days_before_month(12, 9999) + 31);
    assert(spec_days_before_year(10000) == spec_days_before_year(9999)
        + spec_days_in_year(9999));
}

/// A date at most in year 9998 has at least a year of days before the end
/// of the supported range, so short advances stay representable.
pub proof fn lemma_day_headroom(dt: DateTime)
    requires
        dt.wf(),
        dt.year <= 9998,
    ensures
        dt.spec_day_index() + 365 <= max_day_index(),
{
    lemma_day_index_in_year(dt);
    lemma_days_before_year_monotone(dt.year as int + 1, 9999);
    assert(spec_days_before_year(10000) == spec_days_before_year(9999)
        + spec_days_in_year(9999));
    assert(!spec_is_leap_year(9999));
}

/// Days strictly before January 1 of `year`, counting from year 1.
fn days_before_year(year: i32) -> (d: i64)
    requires
        1 <= year <= 10000,
    ensures
        d == spec_days_before_year(year as int),
        0 <= d <= 366 * (year - 1),
{
    let mut d: i64 = 0;
    let mut y: i32 = 1;
    while y < year
        invariant
            1 <= y <= year <= 10000,
            d == spec_days_before_year(y as int),
            0 <= d <= 366 * (y - 1),
        decreases year - y,
    {
        let days: u32 = if is_leap_year(y) { 366 } else { 365 };
        d = d + days as i64;
        y = y + 1;
    }
    d
}

/// Days of `year` strictly before the first day of `month`.
fn days_before_month(month: u32, year: i32) -> (d: u32)
    requires
        1 <= month <= 12,
        year >= 0,
    ensures
        d == spec_days_before_month(month as int, year as int),
        d <= 31 * (month - 1),
{
    let mut d: u32 = 0;
    let mut m: u32 = 1;
    while m < month
        invariant
            1 <= m <= month <= 12,
            year >= 0,
            d == spec_days_before_month(m as int, year as int),
            d <= 31 * (m - 1),
        decreases month - m,
    {
        d = d + days_in_month(m, year);
        m = m + 1;
    }
    d
}

impl DateTime {
    /// Builds a date-time from its parts, if they form a real calendar day
    /// in the supported range; `None` otherwise.
    pub fn new(year: i32, month: u32, day: u32, hour: u32, minute: u32, second: u32)
        -> (r: Option<DateTime>)
        ensures
            r matches Some(dt) ==> dt == (DateTime { year, month, day, hour, minute, second })
                && dt.wf(),
            r is None ==> !(DateTime { year, month, day, hour, minute, second }).wf(),
    {
        if 1 <= year && year <= 9999 && 1 <= month && month <= 12 && 1 <= day
            && day <= days_in_month(month, year) && hour <= 23 && minute <= 59 && second <= 59 {
            Some(DateTime { year, month, day, hour, minute, second })
        } else {
            None
        }
    }

    /// Seconds between the start of year 1 and this instant.
    pub fn seconds(&self) -> (s: i64)
        requires
            self.wf(),
        ensures
            s == self.spec_seconds(),
            0 <= s <= 0x7fff_ffff_ffff,
    {
        proof {
            lemma_days_before_month_nonneg(self.month as int, self.year as int);
        }
        let days: i64 = days_before_year(self.year)
            + days_before_month(self.month, self.year) as i64 + self.day as i64 - 1;
        days * 86400 + self.hour as i64 * 3600 + self.minute as i64 * 60 + self.second as i64
    }

    /// Whether this instant is at or before `other`.
    pub fn le(&self, other: &DateTime) -> (r: bool)
        requires
            self.wf(),
            other.wf(),
        ensures
            r == (self.spec_seconds() <= other.spec_seconds()),
    {
        self.seconds() <= other.seconds()
    }

    /// Whether this instant is strictly before `other`.
    pub fn lt(&self, other: &DateTime) -> (r: bool)
        requires
            self.wf(),
            other.wf(),
        ensures
            r == (self.spec_seconds() < other.spec_seconds()),
    {
        self.seconds() < other.seconds()
    }
}

/// The calendar day after `dt`, with the time of day unchanged.
pub open spec fn spec_next_day(dt: DateTime) -> DateTime {
    if dt.day < spec_days_in_month(dt.month as int, dt.year as int) {
        DateTime { day: (dt.day + 1) as u32, ..dt }
    } else if dt.month < 12 {
        DateTime { month: (dt.month + 1) as u32, day: 1, ..dt }
    } else {
        DateTime { year: (dt.year + 1) as i32, month: 1, day: 1, ..dt }
    }
}

/// `dt` advanced by `n` calendar days, time of day unchanged.
pub open spec fn spec_add_days(dt: DateTime, n: nat) -> DateTime
    decreases n,
{
    if n == 0 {
        dt
    } else {
        spec_add_days(spec_next_day(dt), (n - 1) as nat)
    }
}

proof fn lemma_spec_next_day(dt: DateTime)
    requires
        dt.wf(),
        dt.spec_day_index() < max_day_index(),
    ensures
        !(dt.year == 9999 && dt.month == 12 && dt.day == 31),
        spec_next_day(dt).wf(),
        spec_next_day(dt).spec_day_index() == dt.spec_day_index() + 1,
        spec_next_day(dt).hour == dt.hour,
        spec_next_day(dt).minute == dt.minute,
        spec_next_day(dt).second == dt.second,
        spec_next_day(dt).spec_seconds() == dt.spec_seconds() + 86400,
{
    if dt.year == 9999 && dt.month == 12 && dt.day == 31 {
        lemma_last_day_is_max(dt);
    }
    let y = dt.year as int;
    let m = dt.month as int;
    if dt.day < spec_days_in_month(m, y) {
        // same month: the day field alone advances
    } else if dt.month < 12 {
        assert(spec_days_before_month(m + 1, y) == spec_days_before_month(m, y)
            + spec_days_in_month(m, y));
    } else {
        lemma_months_fill_year(y);
        assert(spec_days_before_month(13, y) == spec_days_before_month(12, y) + 31);
        assert(spec_days_before_year(y + 1) == spec_days_before_year(y)
            + spec_days_in_year(y));
    }
}

impl DateTime {
    /// The calendar day after this one, time of day unchanged.
    pub fn next_day(&self) -> (r: DateTime)
        requires
            self.wf(),
            self.spec_day_index() < max_day_index(),
        ensures
            r == spec_next_day(*self),
            r.wf(),
            r.spec_day_index() == self.spec_day_index() + 1,
            r.hour == self.hour,
            r.minute == self.minute,
            r.second == self.second,
            r.spec_seconds() == self.spec_seconds() + 86400,
    {
        proof {
            lemma_spec_next_day(*self);
        }
        if self.day < days_in_month(self.month, self.year) {
            DateTime { day: self.day + 1, ..*self }
        } else if self.month < 12 {
            DateTime { month: self.month + 1, day: 1, ..*self }
        } else {
            DateTime { year: self.year + 1, month: 1, day: 1, ..*self }
        }
    }

    /// This date advanced by `n` calendar days, time of day unchanged.
    pub fn add_days(&self, n: u32) -> (r: DateTime)
        requires
            self.wf(),
            self.spec_day_index() + n <= max_day_index(),
        ensures
            r == spec_add_days(*self, n as nat),
            r.wf(),
            r.spec_day_index() == self.spec_day_index() + n,
            r.spec_seconds() == self.spec_seconds() + n * 86400,
    {
        let mut cur: DateTime = *self;
        let mut i: u32 = 0;
        while i < n
            invariant
                i <= n,
                self.wf(),
                self.spec_day_index() + n <= max_day_index(),
                cur.wf(),
                cur.spec_day_index() == self.spec_day_index() + i,
                cur.spec_seconds() == self.spec_seconds() + i * 86400,
                spec_add_days(cur, (n - i) as nat) == spec_add_days(*self, n as nat),
            decreases n - i,
        {
            proof {
                assert(spec_add_days(cur, (n - i) as nat)
                    == spec_add_days(spec_next_day(cur), (n - i - 1) as nat));
            }
            cur = cur.next_day();
            i = i + 1;
        }
        cur
    }
}

/// The same time of day in the next calendar month, the day of month
/// clamped to the target month's length. December rolls into January of
/// the next year.
pub open spec fn spec_next_month(dt: DateTime) -> DateTime {
    let month = dt.month as int % 12 + 1;
    let year = if month == 1 { dt.year + 1 } else { dt.year as int };
    let day = if dt.day <= spec_days_in_month(month, year) {
        dt.day as int
    } else {
        spec_days_in_month(month, year)
    };
    DateTime {
        year: year as i32,
        month: month as u32,
        day: day as u32,
        ..dt
    }
}

/// The same month, day and time of day one year later, the day clamped to
/// the target month's length (February 29 falls back to February 28 in a
/// non-leap target year).
pub open spec fn spec_next_year(dt: DateTime) -> DateTime {
    let year = dt.year + 1;
    let day = if dt.day <= spec_days_in_month(dt.month as int, year) {
        dt.day as int
    } else {
        spec_days_in_month(dt.month as int, year)
    };
    DateTime { year: year as i32, day: day as u32, ..dt }
}

impl DateTime {
    /// The next calendar month, day clamped, time of day preserved.
    pub fn next_month(&self) -> (r: DateTime)
        requires
            self.wf(),
            self.month == 12 ==> self.year <= 9998,
        ensures
            r == spec_next_month(*self),
            r.wf(),
    {
        let month: u32 = self.month % 12 + 1;
        let year: i32 = if month == 1 { self.year + 1 } else { self.year };
        let dim = days_in_month(month, year);
        let day: u32 = if self.day <= dim { self.day } else { dim };
        DateTime { year, month, day, ..*self }
    }

    /// The same date one year later, day clamped, time of day preserved.
    pub fn next_year(&self) -> (r: DateTime)
        requires
            self.wf(),
            self.year <= 9998,
        ensures
            r == spec_next_year(*self),
            r.wf(),
    {
        let year: i32 = self.year + 1;
        let dim = days_in_month(self.month, year);
        let day: u32 = if self.day <= dim { self.day } else { dim };
        DateTime { year, day, ..*self }
    }
}

/// Relies on chrono: `Local::now()` and the `Datelike` / `Timelike`
/// accessors, whose documentation promises month 1..=12, day 1..=31,
/// hour 0..=23, minute 0..=59 and second 0..=59.
#[verifier::external_body]
fn local_now_fields() -> (r: (i32, u32, u32, u32, u32, u32))
    ensures
        1 <= r.1 <= 12,
        1 <= r.2 <= 31,
        r.3 <= 23,
        r.4 <= 59,
        r.5 <= 59,
{
    let now = chrono::Local::now();
    (
        chrono::Datelike::year(&now),
        chrono::Datelike::month(&now),
        chrono::Datelike::day(&now),
        chrono::Timelike::hour(&now),
        chrono::Timelike::minute(&now),
        chrono::Timelike::second(&now),
    )
}

/// The current local wall-clock time, brought into the supported calendar
/// range (the clock reading itself is outside this crate's control, so only
/// well-formedness is promised).
pub fn current_datetime() -> (dt: DateTime)
    ensures
        dt.wf(),
{
    let (y, month, d, hour, minute, second) = local_now_fields();
    let year: i32 = if y < 1 {
        1
    } else if y > 9999 {
        9999
    } else {
        y
    };
    let dim = days_in_month(month, year);
    let day: u32 = if d <= dim { d } else { dim };
    DateTime { year, month, day, hour, minute, second }
}

} // verus!
