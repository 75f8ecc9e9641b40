//! Parsing of the plain-text inputs a front end hands this library: times
//! as `HH:MM`, dates as `YYYY-MM-DD`, combined stamps as
//! `YYYY-MM-DD HH:MM`, and recurrence words. Also the structured command
//! set; the command-line parser itself lives in the surrounding program
//! and produces these values.

use vstd::prelude::*;
use crate::datetime::{DateTime, lemma_day_headroom, spec_add_days};
use crate::reminder::RecurrenceType;

verus! {

/// The validated command set a front end can hand to this library.
pub struct Cli {
    pub tui: bool,
    pub command: Option<Commands>,
}

pub enum Commands {
    Add { text: String, time: String, date: Option<String>, recurrence: String },
    List,
    Delete { id: Option<String>, index: Option<usize> },
    Edit { id: String, text: Option<String>, time: Option<String>, recurrence: Option<String> },
    Notify { desktop: bool },
    Export,
    Stats,
    Search { query: String },
    Help { command: Option<String> },
}

pub open spec fn spec_is_digit(c: char) -> bool {
    48 <= c as int <= 57
}

pub open spec fn spec_digit(c: char) -> int {
    c as int - 48
}

/// The character showing one digit value.
pub open spec fn spec_digit_char(v: int) -> char {
    ((48 + v) as u32) as char
}

/// A five-character `HH:MM` clock time.
pub open spec fn spec_valid_time(s: Seq<char>) -> bool {
    &&& s.len() == 5
    &&& spec_is_digit(s[0])
    &&& spec_is_digit(s[1])
    &&& s[2] == ':'
    &&& spec_is_digit(s[3])
    &&& spec_is_digit(s[4])
    &&& spec_time_hour(s) <= 23
    &&& spec_time_minute(s) <= 59
}

pub open spec fn spec_time_hour(s: Seq<char>) -> int {
    spec_digit(s[0]) * 10 + spec_digit(s[1])
}

pub open spec fn spec_time_minute(s: Seq<char>) -> int {
    spec_digit(s[3]) * 10 + spec_digit(s[4])
}

/// A ten-character `YYYY-MM-DD` shape. Whether the fields name a real
/// calendar day is checked separately, by `DateTime::new`.
pub open spec fn spec_valid_date_shape(s: Seq<char>) -> bool {
    &&& s.len() == 10
    &&& spec_is_digit(s[0])
    &&& spec_is_digit(s[1])
    &&& spec_is_digit(s[2])
    &&& spec_is_digit(s[3])
    &&& s[4] == '-'
    &&& spec_is_digit(s[5])
    &&& spec_is_digit(s[6])
    &&& s[7] == '-'
    &&& spec_is_digit(s[8])
    &&& spec_is_digit(s[9])
}

pub open spec fn spec_date_year(s: Seq<char>) -> int {
    spec_digit(s[0]) * 1000 + spec_digit(s[1]) * 100 + spec_digit(s[2]) * 10 + spec_digit(s[3])
}

pub open spec fn spec_date_month(s: Seq<char>) -> int {
    spec_digit(s[5]) * 10 + spec_digit(s[6])
}

pub open spec fn spec_date_day(s: Seq<char>) -> int {
    spec_digit(s[8]) * 10 + spec_digit(s[9])
}

/// A sixteen-character `YYYY-MM-DD HH:MM` shape.
pub open spec fn spec_datetime_shape(s: Seq<char>) -> bool {
    &&& s.len() == 16
    &&& spec_valid_date_shape(s.subrange(0, 10))
    &&& s[10] == ' '
    &&& spec_valid_time(s.subrange(11, 16))
}

/// The date-time a `YYYY-MM-DD HH:MM` string names, seconds at zero.
pub open spec fn spec_datetime_value(s: Seq<char>) -> DateTime {
    spec_combined(s.subrange(0, 10), s.subrange(11, 16))
}

/// The date-time named by a date string and a time string together.
pub open spec fn spec_combined(date: Seq<char>, time: Seq<char>) -> DateTime {
    DateTime {
        year: spec_date_year(date) as i32,
        month: spec_date_month(date) as u32,
        day: spec_date_day(date) as u32,
        hour: spec_time_hour(time) as u32,
        minute: spec_time_minute(time) as u32,
        second: 0,
    }
}

/// The digit value at position `i`, or `None` when the character there is
/// no digit.
fn digit_at(s: &str, i: usize) -> (r: Option<u32>)
    requires
        i < s@.len(),
    ensures
        r matches Some(v) ==> spec_is_digit(s@[i as int]) && v == spec_digit(s@[i as int]),
        r is None ==> !spec_is_digit(s@[i as int]),
{
    let c = s.get_char(i);
    let v = c as u32;
    if 48 <= v && v <= 57 {
        Some(v - 48)
    } else {
        None
    }
}

/// Parses `HH:MM` into hour and minute; `None` on any other shape.
pub fn parse_time(s: &str) -> (r: Option<(u32, u32)>)
    ensures
        r matches Some(hm) ==> spec_valid_time(s@) && hm.0 == spec_time_hour(s@)
            && hm.1 == spec_time_minute(s@),
        r is None ==> !spec_valid_time(s@),
{
    if s.unicode_len() != 5 {
        return None;
    }
    let d0 = match digit_at(s, 0) {
        Some(v) => v,
        None => { return None; },
    };
    let d1 = match digit_at(s, 1) {
        Some(v) => v,
        None => { return None; },
    };
    if s.get_char(2) != ':' {
        return None;
    }
    let d3 = match digit_at(s, 3) {
        Some(v) => v,
        None => { return None; },
    };
    let d4 = match digit_at(s, 4) {
        Some(v) => v,
        None => { return None; },
    };
    let hour = d0 * 10 + d1;
    let minute = d3 * 10 + d4;
    if hour <= 23 && minute <= 59 {
        Some((hour, minute))
    } else {
        None
    }
}

/// Parses `YYYY-MM-DD` into year, month and day fields; `None` on any
/// other shape. The fields are not yet checked against the calendar.
pub fn parse_date(s: &str) -> (r: Option<(i32, u32, u32)>)
    ensures
        r matches Some(ymd) ==> spec_valid_date_shape(s@) && ymd.0 == spec_date_year(s@)
            && ymd.1 == spec_date_month(s@) && ymd.2 == spec_date_day(s@),
        r is None ==> !spec_valid_date_shape(s@),
{
    if s.unicode_len() != 10 {
        return None;
    }
    let d0 = match digit_at(s, 0) {
        Some(v) => v,
        None => { return None; },
    };
    let d1 = match digit_at(s, 1) {
        Some(v) => v,
        None => { return None; },
    };
    let d2 = match digit_at(s, 2) {
        Some(v) => v,
        None => { return None; },
    };
    let d3 = match digit_at(s, 3) {
        Some(v) => v,
        None => { return None; },
    };
    if s.get_char(4) != '-' {
        return None;
    }
    let d5 = match digit_at(s, 5) {
        Some(v) => v,
        None => { return None; },
    };
    let d6 = match digit_at(s, 6) {
        Some(v) => v,
        None => { return None; },
    };
    if s.get_char(7) != '-' {
        return None;
    }
    let d8 = match digit_at(s, 8) {
        Some(v) => v,
        None => { return None; },
    };
    let d9 = match digit_at(s, 9) {
        Some(v) => v,
        None => { return None; },
    };
    let year = d0 * 1000 + d1 * 100 + d2 * 10 + d3;
    Some((year as i32, d5 * 10 + d6, d8 * 10 + d9))
}

/// Parses `YYYY-MM-DD HH:MM` into a date-time; `None` when the shape is
/// wrong or the fields name no real calendar day in the supported range.
pub fn parse_datetime(s: &str) -> (r: Option<DateTime>)
    ensures
        r matches Some(dt) ==> spec_datetime_shape(s@) && dt == spec_datetime_value(s@)
            && dt.wf(),
        r is None ==> !(spec_datetime_shape(s@) && spec_datetime_value(s@).wf()),
{
    if s.unicode_len() != 16 {
        return None;
    }
    if s.get_char(10) != ' ' {
        return None;
    }
    let date_part = s.substring_char(0, 10);
    let time_part = s.substring_char(11, 16);
    let (year, month, day) = match parse_date(date_part) {
        Some(ymd) => ymd,
        None => { return None; },
    };
    let (hour, minute) = match parse_time(time_part) {
        Some(hm) => hm,
        None => { return None; },
    };
    DateTime::new(year, month, day, hour, minute, 0)
}

/// Where the requested clock time lands when no date is given: today at
/// that time, or tomorrow if that instant has already passed.
pub open spec fn spec_default_dated(now: DateTime, hour: u32, minute: u32) -> DateTime {
    let candidate = DateTime {
        year: now.year,
        month: now.month,
        day: now.day,
        hour,
        minute,
        second: 0,
    };
    if candidate.spec_seconds() < now.spec_seconds() {
        spec_add_days(candidate, 1)
    } else {
        candidate
    }
}

/// Parses a `HH:MM` time with an optional `YYYY-MM-DD` date. With a date,
/// both must be valid and name a real day. Without one, the time is
/// placed on `now`'s date, moved to the next day when it already lies in
/// the past; that rule is load-bearing for every front end.
pub fn parse_datetime_with_default_date(
    time_str: &str,
    date_option: Option<&str>,
    now: DateTime,
) -> (r: Option<DateTime>)
    requires
        now.wf(),
        now.year <= 9998,
    ensures
        r matches Some(dt) ==> dt.wf(),
        !spec_valid_time(time_str@) ==> r is None,
        spec_valid_time(time_str@) ==> match date_option {
            Some(ds) => {
                &&& (r matches Some(dt) ==> spec_valid_date_shape(ds@)
                    && dt == spec_combined(ds@, time_str@))
                &&& (r is None ==> !(spec_valid_date_shape(ds@)
                    && spec_combined(ds@, time_str@).wf()))
            },
            None => r == Some(
                spec_default_dated(now, spec_time_hour(time_str@) as u32,
                    spec_time_minute(time_str@) as u32),
            ),
        },
{
    let (hour, minute) = match parse_time(time_str) {
        Some(hm) => hm,
        None => { return None; },
    };
    match date_option {
        Some(date_str) => {
            let (year, month, day) = match parse_date(date_str) {
                Some(ymd) => ymd,
                None => { return None; },
            };
            DateTime::new(year, month, day, hour, minute, 0)
        },
        None => {
            let candidate = DateTime {
                year: now.year,
                month: now.month,
                day: now.day,
                hour,
                minute,
                second: 0,
            };
            if candidate.lt(&now) {
                proof {
                    lemma_day_headroom(candidate);
                }
                Some(candidate.add_days(1))
            } else {
                Some(candidate)
            }
        },
    }
}

/// ASCII-case-blind equality of two characters.
pub open spec fn spec_char_eq_ci(a: char, b: char) -> bool {
    ||| a as int == b as int
    ||| (65 <= a as int <= 90 && b as int == a as int + 32)
    ||| (65 <= b as int <= 90 && a as int == b as int + 32)
}

/// ASCII-case-blind equality of two strings.
pub open spec fn spec_eq_ignore_ascii_case(a: Seq<char>, b: Seq<char>) -> bool {
    a.len() == b.len() && forall|i: int| 0 <= i < a.len() ==> spec_char_eq_ci(a[i], b[i])
}

/// ASCII-case-blind equality of two characters; see `spec_char_eq_ci`.
pub fn char_eq_ci(a: char, b: char) -> (r: bool)
    ensures
        r == spec_char_eq_ci(a, b),
{
    let x = a as u32;
    let y = b as u32;
    x == y || (65 <= x && x <= 90 && y == x + 32) || (65 <= y && y <= 90 && x == y + 32)
}

/// Whether two strings read the same up to ASCII letter case.
pub fn eq_ignore_ascii_case(a: &str, b: &str) -> (r: bool)
    ensures
        r == spec_eq_ignore_ascii_case(a@, b@),
{
    let a_len = a.unicode_len();
    if a_len != b.unicode_len() {
        return false;
    }
    let mut i: usize = 0;
    while i < a_len
        invariant
            i <= a_len,
            a_len == a@.len(),
            a@.len() == b@.len(),
            forall|j: int| 0 <= j < i ==> spec_char_eq_ci(a@[j], b@[j]),
        decreases a_len - i,
    {
        if !char_eq_ci(a.get_char(i), b.get_char(i)) {
            return false;
        }
        i = i + 1;
    }
    true
}

/// What reading the recurrence word `s` yields: the vocabulary `none`,
/// `daily`, `weekly`, `monthly`, `yearly` is matched without regard to
/// ASCII letter case; any other word becomes a `Custom` rule carrying the
/// word as typed.
pub open spec fn spec_recurrence_parsed(rec: RecurrenceType, s: Seq<char>) -> bool {
    match rec {
        RecurrenceType::Never => spec_eq_ignore_ascii_case(s, "none"@),
        RecurrenceType::Daily => spec_eq_ignore_ascii_case(s, "daily"@),
        RecurrenceType::Weekly => spec_eq_ignore_ascii_case(s, "weekly"@),
        RecurrenceType::Monthly => spec_eq_ignore_ascii_case(s, "monthly"@),
        RecurrenceType::Yearly => spec_eq_ignore_ascii_case(s, "yearly"@),
        RecurrenceType::Custom(rule) => rule@ == s
            && !spec_eq_ignore_ascii_case(s, "none"@)
            && !spec_eq_ignore_ascii_case(s, "daily"@)
            && !spec_eq_ignore_ascii_case(s, "weekly"@)
            && !spec_eq_ignore_ascii_case(s, "monthly"@)
            && !spec_eq_ignore_ascii_case(s, "yearly"@),
    }
}

/// Reads a recurrence word; see `spec_recurrence_parsed`. Only the empty
/// string is rejected; every other word is accepted, unknown ones as
/// `Custom`. This one permissive policy governs every call path in the
/// crate.
pub fn parse_recurrence(s: &str) -> (r: Option<RecurrenceType>)
    ensures
        r is None <==> s@.len() == 0,
        r matches Some(rec) ==> spec_recurrence_parsed(rec, s@),
{
    if s.unicode_len() == 0 {
        return None;
    }
    if eq_ignore_ascii_case(s, "none") {
        Some(RecurrenceType::Never)
    } else if eq_ignore_ascii_case(s, "daily") {
        Some(RecurrenceType::Daily)
    } else if eq_ignore_ascii_case(s, "weekly") {
        Some(RecurrenceType::Weekly)
    } else if eq_ignore_ascii_case(s, "monthly") {
        Some(RecurrenceType::Monthly)
    } else if eq_ignore_ascii_case(s, "yearly") {
        Some(RecurrenceType::Yearly)
    } else {
        Some(RecurrenceType::Custom(s.to_owned()))
    }
}

} // verus!
