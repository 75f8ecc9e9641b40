//! Common utilities: rendering a date-time back to its `YYYY-MM-DD HH:MM`
//! text, shortening list entries, substring tests, and the rule telling
//! fatal errors from recoverable ones.

use vstd::prelude::*;
use crate::datetime::DateTime;
use crate::reminder::Reminder;
use crate::cli::{
    spec_char_eq_ci, spec_eq_ignore_ascii_case, spec_datetime_shape, spec_datetime_value,
    spec_digit, spec_digit_char, spec_is_digit,
};

verus! {

/// Relies on std's `String::push`: appends exactly the one character.
#[verifier::external_body]
pub(crate) fn push_char(s: &mut String, c: char)
    ensures
        final(s)@ == old(s)@.push(c),
{
    s.push(c);
}

/// Relies on std's `String::pop`: removes and returns the last
/// character when the string is non-empty, and does nothing to an empty
/// one.
#[verifier::external_body]
pub(crate) fn pop_char(s: &mut String) -> (r: Option<char>)
    ensures
        old(s)@.len() == 0 ==> final(s)@ == old(s)@ && r is None,
        old(s)@.len() > 0 ==> final(s)@ == old(s)@.drop_last()
            && r == Some(old(s)@.last()),
{
    s.pop()
}

/// A digit character is recovered from its value.
proof fn lemma_digit_char_inverse(c: char)
    requires
        spec_is_digit(c),
    ensures
        spec_digit_char(spec_digit(c)) == c,
{
    broadcast use vstd::utf8::char_u32_cast;
    assert((48 + spec_digit(c)) as u32 == c as u32);
}

/// The character for one digit value.
fn digit_char(v: u32) -> (c: char)
    requires
        v <= 9,
    ensures
        spec_is_digit(c),
        spec_digit(c) == v,
{
    match v {
        0 => '0',
        1 => '1',
        2 => '2',
        3 => '3',
        4 => '4',
        5 => '5',
        6 => '6',
        7 => '7',
        8 => '8',
        _ => '9',
    }
}

/// Appends `v` as two decimal digits.
fn push_two_digits(s: &mut String, v: u32)
    requires
        v <= 99,
    ensures
        final(s)@.len() == old(s)@.len() as int + 2,
        forall|i: int| 0 <= i < old(s)@.len() ==> #[trigger] final(s)@[i] == old(s)@[i],
        spec_is_digit(final(s)@[old(s)@.len() as int]),
        spec_is_digit(final(s)@[old(s)@.len() as int + 1]),
        spec_digit(final(s)@[old(s)@.len() as int]) == v / 10,
        spec_digit(final(s)@[old(s)@.len() as int + 1]) == v % 10,
        spec_digit(final(s)@[old(s)@.len() as int]) * 10
            + spec_digit(final(s)@[old(s)@.len() as int + 1]) == v,
{
    let d0 = v / 10;
    let d1 = v % 10;
    push_char(s, digit_char(d0));
    push_char(s, digit_char(d1));
}

/// Appends `v` as four decimal digits.
fn push_four_digits(s: &mut String, v: u32)
    requires
        v <= 9999,
    ensures
        final(s)@.len() == old(s)@.len() as int + 4,
        forall|i: int| 0 <= i < old(s)@.len() ==> #[trigger] final(s)@[i] == old(s)@[i],
        spec_is_digit(final(s)@[old(s)@.len() as int]),
        spec_is_digit(final(s)@[old(s)@.len() as int + 1]),
        spec_is_digit(final(s)@[old(s)@.len() as int + 2]),
        spec_is_digit(final(s)@[old(s)@.len() as int + 3]),
        spec_digit(final(s)@[old(s)@.len() as int]) == v / 1000,
        spec_digit(final(s)@[old(s)@.len() as int + 1]) == (v % 1000) / 100,
        spec_digit(final(s)@[old(s)@.len() as int + 2]) == ((v % 1000) % 100) / 10,
        spec_digit(final(s)@[old(s)@.len() as int + 3]) == ((v % 1000) % 100) % 10,
        spec_digit(final(s)@[old(s)@.len() as int]) * 1000
            + spec_digit(final(s)@[old(s)@.len() as int + 1]) * 100
            + spec_digit(final(s)@[old(s)@.len() as int + 2]) * 10
            + spec_digit(final(s)@[old(s)@.len() as int + 3]) == v,
{
    let d0 = v / 1000;
    let r0 = v % 1000;
    let d1 = r0 / 100;
    let r1 = r0 % 100;
    let d2 = r1 / 10;
    let d3 = r1 % 10;
    push_char(s, digit_char(d0));
    push_char(s, digit_char(d1));
    push_char(s, digit_char(d2));
    push_char(s, digit_char(d3));
}

/// A number shown as two decimal digits.
pub open spec fn spec_two_digits(v: int) -> Seq<char> {
    seq![spec_digit_char(v / 10), spec_digit_char(v % 10)]
}

/// A number shown as four decimal digits.
pub open spec fn spec_four_digits(v: int) -> Seq<char> {
    seq![
        spec_digit_char(v / 1000),
        spec_digit_char((v % 1000) / 100),
        spec_digit_char(((v % 1000) % 100) / 10),
        spec_digit_char(((v % 1000) % 100) % 10),
    ]
}

/// The exact sixteen characters of a date-time shown as
/// `YYYY-MM-DD HH:MM` (seconds are not shown).
pub open spec fn spec_format_datetime(dt: DateTime) -> Seq<char> {
    spec_four_digits(dt.year as int) + seq!['-'] + spec_two_digits(dt.month as int)
        + seq!['-'] + spec_two_digits(dt.day as int) + seq![' ']
        + spec_two_digits(dt.hour as int) + seq![':'] + spec_two_digits(dt.minute as int)
}

/// Renders a date-time as `YYYY-MM-DD HH:MM`: sixteen characters that
/// parse back to the same instant with the seconds dropped.
pub fn format_datetime(dt: &DateTime) -> (r: String)
    requires
        dt.wf(),
    ensures
        r@.len() == 16,
        r@ == spec_format_datetime(*dt),
        spec_datetime_shape(r@),
        spec_datetime_value(r@) == (DateTime { second: 0, ..*dt }),
{
    let mut s = String::new();
    push_four_digits(&mut s, dt.year as u32);
    let ghost v1 = s@;
    push_char(&mut s, '-');
    let ghost v2 = s@;
    push_two_digits(&mut s, dt.month);
    let ghost v3 = s@;
    push_char(&mut s, '-');
    let ghost v4 = s@;
    push_two_digits(&mut s, dt.day);
    let ghost v5 = s@;
    push_char(&mut s, ' ');
    let ghost v6 = s@;
    push_two_digits(&mut s, dt.hour);
    let ghost v7 = s@;
    push_char(&mut s, ':');
    let ghost v8 = s@;
    push_two_digits(&mut s, dt.minute);
    proof {
        let f = s@;
        assert(forall|i: int| 0 <= i < 4 ==> #[trigger] v2[i] == v1[i]);
        assert(forall|i: int| 0 <= i < 5 ==> #[trigger] v3[i] == v2[i]);
        assert(forall|i: int| 0 <= i < 7 ==> #[trigger] v4[i] == v3[i]);
        assert(forall|i: int| 0 <= i < 8 ==> #[trigger] v5[i] == v4[i]);
        assert(forall|i: int| 0 <= i < 10 ==> #[trigger] v6[i] == v5[i]);
        assert(forall|i: int| 0 <= i < 11 ==> #[trigger] v7[i] == v6[i]);
        assert(forall|i: int| 0 <= i < 13 ==> #[trigger] v8[i] == v7[i]);
        assert(forall|i: int| 0 <= i < 14 ==> #[trigger] f[i] == v8[i]);
        assert(f[0] == v1[0] && f[1] == v1[1] && f[2] == v1[2] && f[3] == v1[3]);
        assert(f[4] == '-');
        assert(f[5] == v3[5] && f[6] == v3[6]);
        assert(f[7] == '-');
        assert(f[8] == v5[8] && f[9] == v5[9]);
        assert(f[10] == ' ');
        assert(f[11] == v7[11] && f[12] == v7[12]);
        assert(f[13] == ':');
        let date = f.subrange(0, 10);
        let time = f.subrange(11, 16);
        assert(forall|i: int| 0 <= i < 10 ==> #[trigger] date[i] == f[i]);
        assert(forall|i: int| 0 <= i < 5 ==> #[trigger] time[i] == f[11 + i]);
        assert(crate::cli::spec_date_year(date) == dt.year);
        assert(crate::cli::spec_date_month(date) == dt.month);
        assert(crate::cli::spec_date_day(date) == dt.day);
        assert(crate::cli::spec_time_hour(time) == dt.hour);
        assert(crate::cli::spec_time_minute(time) == dt.minute);
        assert(spec_datetime_shape(f));
        assert(spec_datetime_value(f) == (DateTime { second: 0, ..*dt }));
        lemma_digit_char_inverse(f[0]);
        lemma_digit_char_inverse(f[1]);
        lemma_digit_char_inverse(f[2]);
        lemma_digit_char_inverse(f[3]);
        lemma_digit_char_inverse(f[5]);
        lemma_digit_char_inverse(f[6]);
        lemma_digit_char_inverse(f[8]);
        lemma_digit_char_inverse(f[9]);
        lemma_digit_char_inverse(f[11]);
        lemma_digit_char_inverse(f[12]);
        lemma_digit_char_inverse(f[14]);
        lemma_digit_char_inverse(f[15]);
        assert(f =~= spec_format_datetime(*dt));
    }
    s
}

/// Renders the time of day as `HH:MM`: five characters that parse back
/// to the same hour and minute.
pub fn format_time(dt: &DateTime) -> (r: String)
    requires
        dt.wf(),
    ensures
        crate::cli::spec_valid_time(r@),
        crate::cli::spec_time_hour(r@) == dt.hour,
        crate::cli::spec_time_minute(r@) == dt.minute,
{
    let mut s = String::new();
    push_two_digits(&mut s, dt.hour);
    let ghost v1 = s@;
    push_char(&mut s, ':');
    let ghost v2 = s@;
    push_two_digits(&mut s, dt.minute);
    proof {
        let f = s@;
        assert(forall|i: int| 0 <= i < 2 ==> #[trigger] v2[i] == v1[i]);
        assert(forall|i: int| 0 <= i < 3 ==> #[trigger] f[i] == v2[i]);
        assert(f[0] == v1[0] && f[1] == v1[1]);
        assert(f[2] == ':');
    }
    s
}

/// Renders the date as `YYYY-MM-DD`: ten characters that parse back to
/// the same year, month and day.
pub fn format_date(dt: &DateTime) -> (r: String)
    requires
        dt.wf(),
    ensures
        crate::cli::spec_valid_date_shape(r@),
        crate::cli::spec_date_year(r@) == dt.year,
        crate::cli::spec_date_month(r@) == dt.month,
        crate::cli::spec_date_day(r@) == dt.day,
{
    let mut s = String::new();
    push_four_digits(&mut s, dt.year as u32);
    let ghost v1 = s@;
    push_char(&mut s, '-');
    let ghost v2 = s@;
    push_two_digits(&mut s, dt.month);
    let ghost v3 = s@;
    push_char(&mut s, '-');
    let ghost v4 = s@;
    push_two_digits(&mut s, dt.day);
    proof {
        let f = s@;
        assert(forall|i: int| 0 <= i < 4 ==> #[trigger] v2[i] == v1[i]);
        assert(forall|i: int| 0 <= i < 5 ==> #[trigger] v3[i] == v2[i]);
        assert(forall|i: int| 0 <= i < 7 ==> #[trigger] v4[i] == v3[i]);
        assert(forall|i: int| 0 <= i < 8 ==> #[trigger] f[i] == v4[i]);
        assert(f[0] == v1[0] && f[1] == v1[1] && f[2] == v1[2] && f[3] == v1[3]);
        assert(f[4] == '-');
        assert(f[5] == v3[5] && f[6] == v3[6]);
        assert(f[7] == '-');
    }
    s
}

/// Shortens a string to at most `max_len` characters, marking a cut with
/// a trailing ellipsis inside the limit. Counts characters, not bytes.
pub fn truncate_string(s: &str, max_len: usize) -> (r: String)
    requires
        s@.len() <= max_len || max_len >= 3,
    ensures
        s@.len() <= max_len ==> r@ == s@,
        s@.len() > max_len ==> r@ == s@.subrange(0, max_len - 3) + "..."@,
{
    let len = s.unicode_len();
    if len <= max_len {
        s.to_owned()
    } else {
        let prefix = s.substring_char(0, max_len - 3);
        let mut out = prefix.to_owned();
        out.append("...");
        out
    }
}

/// Whether `needle` occurs in `hay` as a contiguous run of characters.
pub open spec fn spec_contains_sub(hay: Seq<char>, needle: Seq<char>) -> bool {
    exists|k: int| 0 <= k && k + needle.len() <= hay.len()
        && #[trigger] hay.subrange(k, k + needle.len()) == needle
}

/// Substring test; see `spec_contains_sub`.
pub fn contains_sub(hay: &str, needle: &str) -> (r: bool)
    ensures
        r == spec_contains_sub(hay@, needle@),
{
    let n = hay.unicode_len();
    let m = needle.unicode_len();
    if m > n {
        return false;
    }
    let mut k: usize = 0;
    while k <= n - m
        invariant
            m <= n,
            n == hay@.len(),
            m == needle@.len(),
            k <= n - m + 1,
            forall|k2: int| 0 <= k2 < k
                ==> #[trigger] hay@.subrange(k2, k2 + m as int) != needle@,
        decreases n - m + 1 - k,
    {
        let mut all_eq = true;
        let mut j: usize = 0;
        while j < m
            invariant
                j <= m,
                k + m <= n,
                n == hay@.len(),
                m == needle@.len(),
                all_eq == (forall|t: int| 0 <= t < j ==> hay@[k + t] == needle@[t]),
            decreases m - j,
        {
            if hay.get_char(k + j) != needle.get_char(j) {
                all_eq = false;
            }
            j = j + 1;
        }
        if all_eq {
            proof {
                assert(hay@.subrange(k as int, k as int + m as int) =~= needle@);
            }
            return true;
        }
        proof {
            let t0 = choose|t: int| 0 <= t < m && hay@[k + t] != needle@[t];
            assert(hay@.subrange(k as int, k as int + m as int)[t0] == hay@[k + t0]);
        }
        k = k + 1;
    }
    false
}

/// Whether two date-times fall on the same calendar day.
pub open spec fn spec_same_day(a: DateTime, b: DateTime) -> bool {
    a.year == b.year && a.month == b.month && a.day == b.day
}

/// Whether `dt` falls on the same calendar day as `now`.
pub fn is_today(dt: &DateTime, now: &DateTime) -> (r: bool)
    ensures
        r == spec_same_day(*dt, *now),
{
    dt.year == now.year && dt.month == now.month && dt.day == now.day
}

/// How many reminders of `s` satisfy `pred`.
pub open spec fn spec_count(s: Seq<Reminder>, pred: spec_fn(Reminder) -> bool) -> int
    decreases s.len(),
{
    if s.len() == 0 {
        0
    } else {
        spec_count(s.drop_last(), pred) + if pred(s.last()) {
            1int
        } else {
            0int
        }
    }
}

/// How many reminders are completed.
pub open spec fn spec_count_completed(s: Seq<Reminder>) -> int {
    spec_count(s, |r: Reminder| r.completed)
}

/// How many open reminders fall due on `now`'s calendar day.
pub open spec fn spec_count_due_today(s: Seq<Reminder>, now: DateTime) -> int {
    spec_count(s, |r: Reminder| !r.completed && spec_same_day(r.due_time, now))
}

/// How many open reminders lie strictly in the past at `now`.
pub open spec fn spec_count_overdue(s: Seq<Reminder>, now: DateTime) -> int {
    spec_count(s, |r: Reminder| !r.completed && r.due_time.spec_seconds() < now.spec_seconds())
}

/// A summary of the collection: its size, how many reminders are done,
/// still open, due on the current day, and overdue.
pub struct Stats {
    pub total: usize,
    pub completed: usize,
    pub active: usize,
    pub due_today: usize,
    pub overdue: usize,
}

/// Counts the collection's reminders into a summary, in one pass.
pub fn compute_stats(reminders: &Vec<Reminder>, now: DateTime) -> (st: Stats)
    requires
        forall|i: int| 0 <= i < reminders@.len() ==> (#[trigger] reminders@[i]).wf(),
        now.wf(),
    ensures
        st.total == reminders@.len(),
        st.completed == spec_count_completed(reminders@),
        st.active == st.total - st.completed,
        st.due_today == spec_count_due_today(reminders@, now),
        st.overdue == spec_count_overdue(reminders@, now),
{
    let mut completed: usize = 0;
    let mut due_today: usize = 0;
    let mut overdue: usize = 0;
    let mut i: usize = 0;
    while i < reminders.len()
        invariant
            i <= reminders@.len(),
            forall|k: int| 0 <= k < reminders@.len() ==> (#[trigger] reminders@[k]).wf(),
            now.wf(),
            completed <= i,
            due_today <= i,
            overdue <= i,
            completed == spec_count_completed(reminders@.subrange(0, i as int)),
            due_today == spec_count_due_today(reminders@.subrange(0, i as int), now),
            overdue == spec_count_overdue(reminders@.subrange(0, i as int), now),
        decreases reminders@.len() - i,
    {
        proof {
            assert(reminders@.subrange(0, i + 1).drop_last()
                =~= reminders@.subrange(0, i as int));
            assert(reminders@.subrange(0, i + 1).last() == reminders@[i as int]);
        }
        let r = &reminders[i];
        if r.completed {
            completed = completed + 1;
        }
        if !r.completed && is_today(&r.due_time, &now) {
            due_today = due_today + 1;
        }
        if !r.completed && r.due_time.lt(&now) {
            overdue = overdue + 1;
        }
        i = i + 1;
    }
    proof {
        assert(reminders@.subrange(0, reminders@.len() as int) =~= reminders@);
    }
    Stats {
        total: reminders.len(),
        completed,
        active: reminders.len() - completed,
        due_today,
        overdue,
    }
}

/// Whether `needle` occurs in `hay` as a contiguous run of characters,
/// compared without regard to ASCII letter case.
pub open spec fn spec_contains_ci(hay: Seq<char>, needle: Seq<char>) -> bool {
    exists|k: int| 0 <= k && k + needle.len() <= hay.len()
        && #[trigger] spec_eq_ignore_ascii_case(hay.subrange(k, k + needle.len()), needle)
}

/// ASCII-case-blind substring test; see `spec_contains_ci`.
pub fn contains_ci(hay: &str, needle: &str) -> (r: bool)
    ensures
        r == spec_contains_ci(hay@, needle@),
{
    let n = hay.unicode_len();
    let m = needle.unicode_len();
    if m > n {
        return false;
    }
    let mut k: usize = 0;
    while k <= n - m
        invariant
            m <= n,
            n == hay@.len(),
            m == needle@.len(),
            k <= n - m + 1,
            forall|k2: int| 0 <= k2 < k ==> !#[trigger] spec_eq_ignore_ascii_case(
                hay@.subrange(k2, k2 + m as int), needle@,
            ),
        decreases n - m + 1 - k,
    {
        let mut all_eq = true;
        let mut j: usize = 0;
        while j < m
            invariant
                j <= m,
                k + m <= n,
                n == hay@.len(),
                m == needle@.len(),
                all_eq == (forall|t: int| 0 <= t < j ==> spec_char_eq_ci(
                    hay@[k + t], needle@[t],
                )),
            decreases m - j,
        {
            if !crate::cli::char_eq_ci(hay.get_char(k + j), needle.get_char(j)) {
                all_eq = false;
            }
            j = j + 1;
        }
        proof {
            let sub = hay@.subrange(k as int, k as int + m as int);
            assert(forall|t: int| 0 <= t < m ==> #[trigger] sub[t] == hay@[k + t]);
            if all_eq {
                assert(spec_eq_ignore_ascii_case(sub, needle@));
            }
        }
        if all_eq {
            return true;
        }
        k = k + 1;
    }
    false
}

/// The reminders of `s` whose text contains `query`, compared without
/// regard to ASCII letter case, in their original order.
pub open spec fn spec_matching_reminders(s: Seq<Reminder>, query: Seq<char>) -> Seq<Reminder> {
    s.filter(|r: Reminder| spec_contains_ci(r.text@, query))
}

/// One step of `spec_matching_reminders`, from the right.
proof fn lemma_matching_step(s: Seq<Reminder>, query: Seq<char>)
    requires
        s.len() > 0,
    ensures
        spec_matching_reminders(s, query) == if spec_contains_ci(s.last().text@, query) {
            spec_matching_reminders(s.drop_last(), query).push(s.last())
        } else {
            spec_matching_reminders(s.drop_last(), query)
        },
{
    reveal(Seq::filter);
}

/// The reminders whose text contains the query, matched without regard
/// to ASCII letter case.
pub fn search_reminders(reminders: &Vec<Reminder>, query: &str) -> (found: Vec<Reminder>)
    ensures
        found@ == spec_matching_reminders(reminders@, query@),
{
    let mut found: Vec<Reminder> = Vec::new();
    let mut i: usize = 0;
    while i < reminders.len()
        invariant
            i <= reminders@.len(),
            found@ == spec_matching_reminders(reminders@.subrange(0, i as int), query@),
        decreases reminders@.len() - i,
    {
        proof {
            lemma_matching_step(reminders@.subrange(0, i + 1), query@);
            assert(reminders@.subrange(0, i + 1).drop_last()
                =~= reminders@.subrange(0, i as int));
            assert(reminders@.subrange(0, i + 1).last() == reminders@[i as int]);
        }
        if contains_ci(reminders[i].text.as_str(), query) {
            found.push(reminders[i].clone());
        }
        i = i + 1;
    }
    proof {
        assert(reminders@.subrange(0, reminders@.len() as int) =~= reminders@);
    }
    found
}

/// Whether an error report names a condition the program cannot recover
/// from: a storage initialization failure or denied file permissions.
/// Everything else is reported and survived.
pub fn is_critical_error(error_text: &str) -> (r: bool)
    ensures
        r == (spec_contains_sub(error_text@, "Failed to initialize storage"@)
            || spec_contains_sub(error_text@, "permission denied"@)),
{
    contains_sub(error_text, "Failed to initialize storage")
        || contains_sub(error_text, "permission denied")
}

} // verus!
