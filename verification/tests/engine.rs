//! Tests of the calendar arithmetic, the reminder lifecycle, the store
//! and the due scanner.

use remindme::cli::{
    parse_date, parse_datetime, parse_datetime_with_default_date, parse_recurrence,
    parse_time, eq_ignore_ascii_case,
};
use remindme::datetime::{days_in_month, is_leap_year, DateTime};
use remindme::notification::Notifier;
use remindme::reminder::{RecurrenceType, Reminder};
use remindme::storage::Storage;
use remindme::utils::{
    compute_stats, contains_sub, format_date, format_datetime, format_time,
    is_critical_error, is_today, search_reminders, truncate_string,
};

fn dt(year: i32, month: u32, day: u32, hour: u32, minute: u32, second: u32) -> DateTime {
    DateTime { year, month, day, hour, minute, second }
}

fn plain_reminder(id: &str, text: &str, due: DateTime, recurrence: RecurrenceType) -> Reminder {
    Reminder {
        id: id.to_string(),
        text: text.to_string(),
        due_time: due,
        recurrence,
        created_at: dt(2025, 1, 1, 0, 0, 0),
        last_notified: None,
        completed: false,
    }
}

#[test]
fn leap_year_rule() {
    assert!(is_leap_year(2024));
    assert!(!is_leap_year(2025));
    assert!(!is_leap_year(1900));
    assert!(is_leap_year(2000));
}

#[test]
fn days_in_month_table() {
    assert_eq!(days_in_month(1, 2025), 31);
    assert_eq!(days_in_month(2, 2025), 28);
    assert_eq!(days_in_month(2, 2024), 29);
    assert_eq!(days_in_month(4, 2025), 30);
    assert_eq!(days_in_month(12, 2025), 31);
}

#[test]
fn datetime_new_validates() {
    assert!(DateTime::new(2025, 2, 29, 0, 0, 0).is_none());
    assert!(DateTime::new(2024, 2, 29, 0, 0, 0).is_some());
    assert!(DateTime::new(2025, 13, 1, 0, 0, 0).is_none());
    assert!(DateTime::new(2025, 6, 10, 24, 0, 0).is_none());
    assert!(DateTime::new(0, 6, 10, 12, 0, 0).is_none());
    let d = DateTime::new(2025, 6, 10, 23, 59, 59).unwrap();
    assert_eq!(d, dt(2025, 6, 10, 23, 59, 59));
}

#[test]
fn instants_are_ordered() {
    let a = dt(2025, 6, 10, 9, 0, 0);
    let b = dt(2025, 6, 10, 9, 0, 1);
    let c = dt(2026, 1, 1, 0, 0, 0);
    assert!(a.lt(&b));
    assert!(a.le(&b));
    assert!(b.le(&c));
    assert!(!c.le(&a));
    assert!(a.le(&a));
    assert!(!a.lt(&a));
}

#[test]
fn next_day_rolls_over() {
    assert_eq!(dt(2025, 2, 28, 9, 0, 0).next_day(), dt(2025, 3, 1, 9, 0, 0));
    assert_eq!(dt(2024, 2, 28, 9, 0, 0).next_day(), dt(2024, 2, 29, 9, 0, 0));
    assert_eq!(dt(2025, 12, 31, 23, 0, 0).next_day(), dt(2026, 1, 1, 23, 0, 0));
}

#[test]
fn add_days_keeps_the_clock() {
    assert_eq!(dt(2025, 6, 28, 9, 30, 0).add_days(7), dt(2025, 7, 5, 9, 30, 0));
    assert_eq!(dt(2025, 6, 28, 9, 30, 0).add_days(0), dt(2025, 6, 28, 9, 30, 0));
}

#[test]
fn monthly_rollover_clamps_the_day() {
    // due January 31: February has no day 31, so the day clamps
    assert_eq!(dt(2025, 1, 31, 9, 0, 0).next_month(), dt(2025, 2, 28, 9, 0, 0));
    assert_eq!(dt(2024, 1, 31, 9, 0, 0).next_month(), dt(2024, 2, 29, 9, 0, 0));
    assert_eq!(dt(2025, 12, 15, 8, 30, 0).next_month(), dt(2026, 1, 15, 8, 30, 0));
}

#[test]
fn yearly_rollover_clamps_leap_day() {
    assert_eq!(dt(2024, 2, 29, 9, 0, 0).next_year(), dt(2025, 2, 28, 9, 0, 0));
    assert_eq!(dt(2025, 7, 4, 9, 0, 0).next_year(), dt(2026, 7, 4, 9, 0, 0));
}

#[test]
fn fresh_ids_look_like_ids() {
    let r = Reminder::new(
        "note".to_string(),
        dt(2025, 6, 10, 9, 0, 0),
        RecurrenceType::Never,
    );
    assert_eq!(r.id.chars().count(), 36);
    let r2 = Reminder::new(
        "note".to_string(),
        dt(2025, 6, 10, 9, 0, 0),
        RecurrenceType::Never,
    );
    assert_ne!(r.id, r2.id);
}

#[test]
fn non_recurring_completes_once() {
    let now = dt(2025, 6, 10, 12, 0, 0);
    let mut r = plain_reminder("a", "water plants", dt(2025, 6, 10, 9, 0, 0), RecurrenceType::Never);
    assert!(r.is_due(now));
    r.mark_notified(now);
    assert!(r.completed);
    assert_eq!(r.due_time, dt(2025, 6, 10, 9, 0, 0));
    assert_eq!(r.last_notified, Some(now));
    // a second notification at the same instant changes nothing
    let snapshot = r.clone();
    r.mark_notified(now);
    assert_eq!(r.completed, snapshot.completed);
    assert_eq!(r.due_time, snapshot.due_time);
    assert_eq!(r.last_notified, snapshot.last_notified);
    assert!(!r.is_due(now));
}

#[test]
fn daily_reminder_rests_after_notification() {
    let now = dt(2025, 6, 10, 12, 0, 0);
    let mut r = plain_reminder("b", "standup", dt(2025, 6, 10, 9, 0, 0), RecurrenceType::Daily);
    assert!(r.is_due(now));
    r.mark_notified(now);
    assert!(!r.completed);
    assert_eq!(r.due_time, dt(2025, 6, 11, 9, 0, 0));
    // not due again at the same instant: the 24-hour rest has not elapsed
    assert!(!r.is_due(now));
    // 23 hours later it still rests, even though the due time passed again
    assert!(!r.is_due(dt(2025, 6, 11, 11, 0, 0)));
    // 24 whole hours later it may fire again
    assert!(r.is_due(dt(2025, 6, 11, 12, 0, 0)));
}

#[test]
fn weekly_reminder_moves_seven_days() {
    let now = dt(2025, 6, 10, 12, 0, 0);
    let mut r = plain_reminder("c", "review", dt(2025, 6, 10, 9, 0, 0), RecurrenceType::Weekly);
    r.mark_notified(now);
    assert_eq!(r.due_time, dt(2025, 6, 17, 9, 0, 0));
    assert!(!r.completed);
}

#[test]
fn custom_rule_is_inert() {
    let now = dt(2025, 6, 10, 12, 0, 0);
    let mut r = plain_reminder(
        "d",
        "exotic",
        dt(2025, 6, 10, 9, 0, 0),
        RecurrenceType::Custom("fortnightly".to_string()),
    );
    r.mark_notified(now);
    assert_eq!(r.due_time, dt(2025, 6, 10, 9, 0, 0));
    assert!(!r.completed);
    assert_eq!(r.last_notified, Some(now));
}

#[test]
fn completed_reminders_never_fire() {
    let mut r = plain_reminder("e", "done", dt(2025, 6, 10, 9, 0, 0), RecurrenceType::Daily);
    r.completed = true;
    assert!(!r.is_due(dt(2030, 1, 1, 0, 0, 0)));
}

#[test]
fn monthly_end_to_end() {
    // Add "Pay rent" due 2025-01-31 09:00, monthly
    let due = parse_datetime("2025-01-31 09:00").unwrap();
    let mut r = Reminder::new("Pay rent".to_string(), due, RecurrenceType::Monthly);
    let now = dt(2025, 1, 31, 10, 0, 0);
    assert!(r.is_due(now));
    r.mark_notified(now);
    assert_eq!(r.due_time, dt(2025, 2, 28, 9, 0, 0));
    assert!(!r.completed);
    assert!(!r.is_due(now));
}

#[test]
fn apply_edit_preserves_identity() {
    let mut r = plain_reminder("f", "old text", dt(2025, 6, 10, 9, 0, 0), RecurrenceType::Never);
    let created = r.created_at;
    r.apply_edit(
        Some("new text".to_string()),
        Some(dt(2025, 7, 1, 8, 0, 0)),
        None,
    );
    assert_eq!(r.id, "f");
    assert_eq!(r.created_at, created);
    assert_eq!(r.text, "new text");
    assert_eq!(r.due_time, dt(2025, 7, 1, 8, 0, 0));
    assert!(matches!(r.recurrence, RecurrenceType::Never));
}

#[test]
fn display_line_shows_the_reminder() {
    let mut r = plain_reminder("id-1", "pay rent", dt(2025, 1, 31, 9, 5, 0), RecurrenceType::Never);
    assert_eq!(r.display_string(), "[id-1] pay rent (Due: 2025-01-31 09:05) ");
    r.completed = true;
    assert_eq!(
        r.display_string(),
        "[id-1] pay rent (Due: 2025-01-31 09:05) [COMPLETED]"
    );
}

#[test]
fn parse_time_accepts_clock_times() {
    assert_eq!(parse_time("09:30"), Some((9, 30)));
    assert_eq!(parse_time("00:00"), Some((0, 0)));
    assert_eq!(parse_time("23:59"), Some((23, 59)));
    assert_eq!(parse_time("24:00"), None);
    assert_eq!(parse_time("12:60"), None);
    assert_eq!(parse_time("9:30"), None);
    assert_eq!(parse_time("ab:cd"), None);
    assert_eq!(parse_time(""), None);
}

#[test]
fn parse_date_checks_the_shape() {
    assert_eq!(parse_date("2025-01-31"), Some((2025, 1, 31)));
    assert_eq!(parse_date("2025-1-31"), None);
    assert_eq!(parse_date("2025/01/31"), None);
    assert_eq!(parse_date("31-01-2025"), None);
}

#[test]
fn parse_datetime_checks_the_calendar() {
    let d = parse_datetime("2025-01-31 09:00").unwrap();
    assert_eq!(d, dt(2025, 1, 31, 9, 0, 0));
    assert_eq!(parse_datetime("2025-02-30 09:00"), None);
    assert_eq!(parse_datetime("2025-01-31T09:00"), None);
    assert_eq!(parse_datetime("2025-01-31 09:00:00"), None);
}

#[test]
fn default_date_rule() {
    let now = dt(2025, 6, 10, 14, 0, 0);
    // 10:00 already passed at 14:00: tomorrow
    assert_eq!(
        parse_datetime_with_default_date("10:00", None, now),
        Some(dt(2025, 6, 11, 10, 0, 0))
    );
    // 18:00 still ahead: today
    assert_eq!(
        parse_datetime_with_default_date("18:00", None, now),
        Some(dt(2025, 6, 10, 18, 0, 0))
    );
    // an explicit date wins
    assert_eq!(
        parse_datetime_with_default_date("09:00", Some("2025-01-31"), now),
        Some(dt(2025, 1, 31, 9, 0, 0))
    );
    // a bad date is rejected
    assert_eq!(parse_datetime_with_default_date("09:00", Some("2025-02-30"), now), None);
    assert_eq!(parse_datetime_with_default_date("25:00", None, now), None);
}

#[test]
fn recurrence_vocabulary() {
    assert!(matches!(parse_recurrence("none"), Some(RecurrenceType::Never)));
    assert!(matches!(parse_recurrence("DAILY"), Some(RecurrenceType::Daily)));
    assert!(matches!(parse_recurrence("Weekly"), Some(RecurrenceType::Weekly)));
    assert!(matches!(parse_recurrence("monthly"), Some(RecurrenceType::Monthly)));
    assert!(matches!(parse_recurrence("yearly"), Some(RecurrenceType::Yearly)));
    match parse_recurrence("fortnightly") {
        Some(RecurrenceType::Custom(rule)) => assert_eq!(rule, "fortnightly"),
        other => panic!("expected a custom rule, got {:?}", other),
    }
    assert!(parse_recurrence("").is_none());
}

#[test]
fn case_blind_equality() {
    assert!(eq_ignore_ascii_case("None", "nONE"));
    assert!(!eq_ignore_ascii_case("none", "non"));
    assert!(!eq_ignore_ascii_case("none", "nonx"));
}

#[test]
fn store_round_trip() {
    let mut s = Storage::new();
    assert!(s.load().is_empty());
    s.add_reminder(plain_reminder("a", "one", dt(2025, 6, 10, 9, 0, 0), RecurrenceType::Never));
    s.add_reminder(plain_reminder("b", "two", dt(2025, 6, 11, 9, 0, 0), RecurrenceType::Daily));
    let all = s.load();
    assert_eq!(all.len(), 2);
    assert_eq!(all[0].id, "a");
    assert_eq!(all[1].id, "b");
    s.save(Vec::new());
    assert!(s.load().is_empty());
}

#[test]
fn store_deletes_by_id() {
    let mut s = Storage::new();
    s.add_reminder(plain_reminder("a", "one", dt(2025, 6, 10, 9, 0, 0), RecurrenceType::Never));
    s.add_reminder(plain_reminder("b", "two", dt(2025, 6, 11, 9, 0, 0), RecurrenceType::Never));
    s.add_reminder(plain_reminder("a", "twin", dt(2025, 6, 12, 9, 0, 0), RecurrenceType::Never));
    assert!(!s.delete_reminder("zzz"));
    assert_eq!(s.load().len(), 3);
    // every entry carrying the id goes
    assert!(s.delete_reminder("a"));
    let rest = s.load();
    assert_eq!(rest.len(), 1);
    assert_eq!(rest[0].id, "b");
}

#[test]
fn store_deletes_by_position() {
    let mut s = Storage::new();
    s.add_reminder(plain_reminder("a", "one", dt(2025, 6, 10, 9, 0, 0), RecurrenceType::Never));
    s.add_reminder(plain_reminder("b", "two", dt(2025, 6, 11, 9, 0, 0), RecurrenceType::Never));
    assert!(!s.delete_reminder_by_index(0));
    assert!(!s.delete_reminder_by_index(3));
    assert_eq!(s.load().len(), 2);
    assert!(s.delete_reminder_by_index(2));
    let rest = s.load();
    assert_eq!(rest.len(), 1);
    assert_eq!(rest[0].id, "a");
}

#[test]
fn store_updates_the_first_match() {
    let mut s = Storage::new();
    s.add_reminder(plain_reminder("a", "one", dt(2025, 6, 10, 9, 0, 0), RecurrenceType::Never));
    s.add_reminder(plain_reminder("b", "two", dt(2025, 6, 11, 9, 0, 0), RecurrenceType::Never));
    let updated = plain_reminder("b", "two, renamed", dt(2025, 6, 11, 10, 0, 0), RecurrenceType::Daily);
    assert!(s.update_reminder(updated));
    let all = s.load();
    assert_eq!(all[1].text, "two, renamed");
    assert_eq!(all[0].text, "one");
    let missing = plain_reminder("zzz", "ghost", dt(2025, 6, 11, 10, 0, 0), RecurrenceType::Never);
    assert!(!s.update_reminder(missing));
    assert_eq!(s.load().len(), 2);
}

#[test]
fn store_finds_by_id() {
    let mut s = Storage::new();
    s.add_reminder(plain_reminder("a", "one", dt(2025, 6, 10, 9, 0, 0), RecurrenceType::Never));
    let found = s.get_reminder_by_id("a").unwrap();
    assert_eq!(found.text, "one");
    assert!(s.get_reminder_by_id("b").is_none());
}

#[test]
fn scanner_marks_only_the_due() {
    let now = dt(2025, 6, 10, 12, 0, 0);
    let mut s = Storage::new();
    s.add_reminder(plain_reminder("a", "due daily", dt(2025, 6, 10, 9, 0, 0), RecurrenceType::Daily));
    s.add_reminder(plain_reminder("b", "not yet", dt(2025, 6, 10, 13, 0, 0), RecurrenceType::Never));
    s.add_reminder(plain_reminder("c", "due once", dt(2025, 6, 10, 8, 0, 0), RecurrenceType::Never));
    let mut done = plain_reminder("d", "finished", dt(2025, 6, 9, 8, 0, 0), RecurrenceType::Never);
    done.completed = true;
    s.add_reminder(done);

    let mut notifier = Notifier::new(s);
    let due = notifier.check_due_reminders(now);
    // the due ones come back as they stood before the scan, in order
    assert_eq!(due.len(), 2);
    assert_eq!(due[0].id, "a");
    assert_eq!(due[0].due_time, dt(2025, 6, 10, 9, 0, 0));
    assert!(due[0].last_notified.is_none());
    assert_eq!(due[1].id, "c");

    let all = notifier.storage.load();
    assert_eq!(all[0].due_time, dt(2025, 6, 11, 9, 0, 0));
    assert_eq!(all[0].last_notified, Some(now));
    assert!(!all[0].completed);
    assert_eq!(all[1].due_time, dt(2025, 6, 10, 13, 0, 0));
    assert!(all[1].last_notified.is_none());
    assert!(all[2].completed);
    assert_eq!(all[2].last_notified, Some(now));

    // an immediate second scan finds nothing
    let again = notifier.check_due_reminders(now);
    assert!(again.is_empty());
}

#[test]
fn formats_read_back() {
    let d = dt(2025, 1, 31, 9, 5, 7);
    assert_eq!(format_datetime(&d), "2025-01-31 09:05");
    assert_eq!(format_time(&d), "09:05");
    assert_eq!(format_date(&d), "2025-01-31");
}

#[test]
fn truncation_keeps_short_strings() {
    assert_eq!(truncate_string("hello", 10), "hello");
    assert_eq!(truncate_string("hello world", 8), "hello...");
    assert_eq!(truncate_string("abc", 3), "abc");
    assert_eq!(truncate_string("abcd", 3), "...");
}

#[test]
fn substring_search() {
    assert!(contains_sub("permission denied by kernel", "permission denied"));
    assert!(!contains_sub("permission granted", "permission denied"));
    assert!(contains_sub("anything", ""));
}

#[test]
fn critical_errors_are_named() {
    assert!(is_critical_error("Failed to initialize storage: disk on fire"));
    assert!(is_critical_error("open /etc/x: permission denied"));
    assert!(!is_critical_error("Invalid date time format"));
}

#[test]
fn stats_count_the_collection() {
    let now = dt(2025, 6, 10, 12, 0, 0);
    let mut rs = Vec::new();
    rs.push(plain_reminder("a", "overdue", dt(2025, 6, 9, 9, 0, 0), RecurrenceType::Never));
    rs.push(plain_reminder("b", "today", dt(2025, 6, 10, 15, 0, 0), RecurrenceType::Never));
    let mut done = plain_reminder("c", "done", dt(2025, 6, 1, 9, 0, 0), RecurrenceType::Never);
    done.completed = true;
    rs.push(done);
    let st = compute_stats(&rs, now);
    assert_eq!(st.total, 3);
    assert_eq!(st.completed, 1);
    assert_eq!(st.active, 2);
    // only "b" falls due on the current day; "a" fell due the day before
    assert_eq!(st.due_today, 1);
    assert_eq!(st.overdue, 1);
    assert!(is_today(&dt(2025, 6, 10, 1, 0, 0), &now));
    assert!(!is_today(&dt(2025, 6, 9, 12, 0, 0), &now));
}

#[test]
fn search_ignores_letter_case() {
    let mut rs = Vec::new();
    rs.push(plain_reminder("a", "Pay Rent", dt(2025, 6, 10, 9, 0, 0), RecurrenceType::Never));
    rs.push(plain_reminder("b", "water plants", dt(2025, 6, 10, 9, 0, 0), RecurrenceType::Never));
    let found = search_reminders(&rs, "RENT");
    assert_eq!(found.len(), 1);
    assert_eq!(found[0].id, "a");
    let none_found = search_reminders(&rs, "taxes");
    assert!(none_found.is_empty());
}
