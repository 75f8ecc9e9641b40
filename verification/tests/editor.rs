//! Tests of the interactive editor's form state machine.

use remindme::datetime::DateTime;
use remindme::reminder::{RecurrenceType, Reminder};
use remindme::storage::Storage;
use remindme::tui::{field_at, ActiveField, App, CurrentView, InputMode, KeyInput, FIELD_COUNT};

fn dt(year: i32, month: u32, day: u32, hour: u32, minute: u32, second: u32) -> DateTime {
    DateTime { year, month, day, hour, minute, second }
}

fn entry(id: &str, text: &str, due: DateTime, recurrence: RecurrenceType) -> Reminder {
    Reminder {
        id: id.to_string(),
        text: text.to_string(),
        due_time: due,
        recurrence,
        created_at: dt(2025, 1, 1, 0, 0, 0),
        last_notified: None,
        completed: false,
    }
}

fn three_item_app() -> App {
    let mut s = Storage::new();
    s.add_reminder(entry("a", "one", dt(2025, 6, 10, 9, 0, 0), RecurrenceType::Never));
    s.add_reminder(entry("b", "two", dt(2025, 6, 11, 9, 0, 0), RecurrenceType::Daily));
    s.add_reminder(entry("c", "three", dt(2025, 6, 12, 9, 0, 0), RecurrenceType::Never));
    App::new(s)
}

fn type_word(app: &mut App, now: DateTime, word: &str) {
    for c in word.chars() {
        app.handle_editing_key(KeyInput::Char(c), now);
    }
}

#[test]
fn fresh_editor_shows_the_list() {
    let app = three_item_app();
    assert_eq!(app.current_view, CurrentView::List);
    assert_eq!(app.input_mode, InputMode::Normal);
    assert_eq!(app.selected_index, 0);
    assert_eq!(app.active_field, 0);
    assert_eq!(app.reminders.len(), 3);
    assert_eq!(app.new_reminder_recurrence, "none");
    assert!(app.error_message.is_none());
}

#[test]
fn arrows_move_the_selection() {
    let mut app = three_item_app();
    assert!(!app.handle_normal_key(KeyInput::Down));
    assert_eq!(app.selected_index, 1);
    app.handle_normal_key(KeyInput::Down);
    assert_eq!(app.selected_index, 2);
    // the selection stops at the last entry
    app.handle_normal_key(KeyInput::Down);
    assert_eq!(app.selected_index, 2);
    app.handle_normal_key(KeyInput::Up);
    assert_eq!(app.selected_index, 1);
    app.handle_normal_key(KeyInput::Up);
    app.handle_normal_key(KeyInput::Up);
    assert_eq!(app.selected_index, 0);
}

#[test]
fn quit_key_exits() {
    let mut app = three_item_app();
    assert!(app.handle_normal_key(KeyInput::Char('q')));
    assert!(!app.handle_normal_key(KeyInput::Char('x')));
}

#[test]
fn deleting_the_last_item_clamps_the_selection() {
    let mut app = three_item_app();
    app.handle_normal_key(KeyInput::Down);
    app.handle_normal_key(KeyInput::Down);
    assert_eq!(app.selected_index, 2);
    app.handle_normal_key(KeyInput::Char('d'));
    assert_eq!(app.reminders.len(), 2);
    assert_eq!(app.selected_index, 1);
    assert_eq!(app.reminders[0].id, "a");
    assert_eq!(app.reminders[1].id, "b");
}

#[test]
fn deleting_the_sole_item_leaves_an_empty_list() {
    let mut s = Storage::new();
    s.add_reminder(entry("only", "alone", dt(2025, 6, 10, 9, 0, 0), RecurrenceType::Never));
    let mut app = App::new(s);
    app.handle_normal_key(KeyInput::Char('d'));
    assert!(app.reminders.is_empty());
    assert_eq!(app.selected_index, 0);
    // deleting from an empty list does nothing
    app.handle_normal_key(KeyInput::Char('d'));
    assert!(app.reminders.is_empty());
    assert_eq!(app.selected_index, 0);
}

#[test]
fn five_forward_cycles_return_to_the_text_field() {
    let now = dt(2025, 6, 10, 12, 0, 0);
    let mut app = three_item_app();
    app.handle_normal_key(KeyInput::Char('a'));
    assert_eq!(app.active_field, 0);
    for _ in 0..5 {
        app.handle_editing_key(KeyInput::Tab, now);
    }
    assert_eq!(app.active_field, 0);
}

#[test]
fn backward_cycle_wraps_before_the_start() {
    let now = dt(2025, 6, 10, 12, 0, 0);
    let mut app = three_item_app();
    app.handle_normal_key(KeyInput::Char('a'));
    // one step back from the text field wraps to the submit entry
    app.handle_editing_key(KeyInput::BackTab, now);
    assert_eq!(app.active_field, 4);
    // a second step back reaches the recurrence field
    app.handle_editing_key(KeyInput::BackTab, now);
    assert_eq!(app.active_field, 3);
    app.handle_editing_key(KeyInput::BackTab, now);
    app.handle_editing_key(KeyInput::BackTab, now);
    assert_eq!(app.active_field, 1);
    // one forward step undoes one backward step
    app.handle_editing_key(KeyInput::Tab, now);
    assert_eq!(app.active_field, 2);
}

#[test]
fn typing_fills_the_active_buffer() {
    let now = dt(2025, 6, 10, 12, 0, 0);
    let mut app = three_item_app();
    app.handle_normal_key(KeyInput::Char('a'));
    assert_eq!(app.current_view, CurrentView::Add);
    assert_eq!(app.input_mode, InputMode::Editing);
    type_word(&mut app, now, "call mom");
    assert_eq!(app.new_reminder_text, "call mom");
    app.handle_editing_key(KeyInput::Backspace, now);
    app.handle_editing_key(KeyInput::Backspace, now);
    app.handle_editing_key(KeyInput::Backspace, now);
    assert_eq!(app.new_reminder_text, "call ");
    app.handle_editing_key(KeyInput::Tab, now);
    type_word(&mut app, now, "18:00");
    assert_eq!(app.new_reminder_time, "18:00");
    assert_eq!(app.new_reminder_text, "call ");
}

#[test]
fn escape_discards_the_form() {
    let now = dt(2025, 6, 10, 12, 0, 0);
    let mut app = three_item_app();
    app.handle_normal_key(KeyInput::Char('a'));
    type_word(&mut app, now, "draft");
    app.handle_editing_key(KeyInput::Esc, now);
    assert_eq!(app.current_view, CurrentView::List);
    assert_eq!(app.input_mode, InputMode::Normal);
    assert_eq!(app.new_reminder_text, "");
    assert_eq!(app.new_reminder_recurrence, "none");
    assert!(app.editing_reminder_id.is_none());
    assert_eq!(app.reminders.len(), 3);
}

#[test]
fn help_and_list_views_switch() {
    let mut app = three_item_app();
    app.handle_normal_key(KeyInput::Char('h'));
    assert_eq!(app.current_view, CurrentView::Help);
    app.handle_normal_key(KeyInput::Char('l'));
    assert_eq!(app.current_view, CurrentView::List);
}

#[test]
fn add_commit_creates_a_reminder() {
    let now = dt(2025, 6, 10, 14, 0, 0);
    let mut app = three_item_app();
    app.handle_normal_key(KeyInput::Char('a'));
    type_word(&mut app, now, "dentist");
    app.handle_editing_key(KeyInput::Enter, now);
    type_word(&mut app, now, "10:00");
    app.handle_editing_key(KeyInput::Enter, now);
    app.handle_editing_key(KeyInput::Enter, now);
    // the recurrence buffer starts at its default "none"
    for _ in 0..4 {
        app.handle_editing_key(KeyInput::Backspace, now);
    }
    type_word(&mut app, now, "daily");
    app.handle_editing_key(KeyInput::Enter, now);
    assert_eq!(app.active_field, 4);
    app.handle_editing_key(KeyInput::Enter, now);
    assert_eq!(app.current_view, CurrentView::List);
    assert_eq!(app.input_mode, InputMode::Normal);
    assert!(app.error_message.is_none());
    assert_eq!(app.reminders.len(), 4);
    let added = &app.reminders[3];
    assert_eq!(added.text, "dentist");
    // 10:00 had already passed at 14:00, so the due date moved to the
    // next day
    assert_eq!(added.due_time, dt(2025, 6, 11, 10, 0, 0));
    assert!(matches!(added.recurrence, RecurrenceType::Daily));
    assert!(!added.completed);
    assert!(added.last_notified.is_none());
    assert_eq!(added.id.chars().count(), 36);
}

#[test]
fn add_commit_reports_missing_text() {
    let now = dt(2025, 6, 10, 14, 0, 0);
    let mut app = three_item_app();
    app.handle_normal_key(KeyInput::Char('a'));
    for _ in 0..4 {
        app.handle_editing_key(KeyInput::Enter, now);
    }
    app.handle_editing_key(KeyInput::Enter, now);
    assert_eq!(app.error_message.as_deref(), Some("Reminder text cannot be empty"));
    assert_eq!(app.current_view, CurrentView::Add);
    assert_eq!(app.input_mode, InputMode::Editing);
    assert_eq!(app.reminders.len(), 3);
}

#[test]
fn add_commit_reports_missing_time() {
    let now = dt(2025, 6, 10, 14, 0, 0);
    let mut app = three_item_app();
    app.handle_normal_key(KeyInput::Char('a'));
    type_word(&mut app, now, "no time given");
    for _ in 0..5 {
        app.handle_editing_key(KeyInput::Enter, now);
    }
    assert_eq!(app.error_message.as_deref(), Some("Time must be specified (HH:MM)"));
    assert_eq!(app.reminders.len(), 3);
}

#[test]
fn add_commit_reports_a_bad_time() {
    let now = dt(2025, 6, 10, 14, 0, 0);
    let mut app = three_item_app();
    app.handle_normal_key(KeyInput::Char('a'));
    type_word(&mut app, now, "bad clock");
    app.handle_editing_key(KeyInput::Enter, now);
    type_word(&mut app, now, "25:99");
    for _ in 0..4 {
        app.handle_editing_key(KeyInput::Enter, now);
    }
    assert_eq!(app.error_message.as_deref(), Some("Invalid date/time"));
    assert_eq!(app.reminders.len(), 3);
}

#[test]
fn add_commit_reports_a_bad_date() {
    let now = dt(2025, 6, 10, 14, 0, 0);
    let mut app = three_item_app();
    app.handle_normal_key(KeyInput::Char('a'));
    type_word(&mut app, now, "impossible day");
    app.handle_editing_key(KeyInput::Enter, now);
    type_word(&mut app, now, "09:00");
    app.handle_editing_key(KeyInput::Enter, now);
    type_word(&mut app, now, "2025-02-30");
    app.handle_editing_key(KeyInput::Enter, now);
    app.handle_editing_key(KeyInput::Enter, now);
    app.handle_editing_key(KeyInput::Enter, now);
    assert_eq!(app.error_message.as_deref(), Some("Invalid date/time"));
    assert_eq!(app.reminders.len(), 3);
}

#[test]
fn unknown_recurrence_word_is_kept_as_custom() {
    let now = dt(2025, 6, 10, 14, 0, 0);
    let mut app = three_item_app();
    app.handle_normal_key(KeyInput::Char('a'));
    type_word(&mut app, now, "stretch");
    app.handle_editing_key(KeyInput::Enter, now);
    type_word(&mut app, now, "18:00");
    app.handle_editing_key(KeyInput::Enter, now);
    app.handle_editing_key(KeyInput::Enter, now);
    for _ in 0..4 {
        app.handle_editing_key(KeyInput::Backspace, now);
    }
    type_word(&mut app, now, "hourly");
    app.handle_editing_key(KeyInput::Enter, now);
    app.handle_editing_key(KeyInput::Enter, now);
    assert!(app.error_message.is_none());
    let added = &app.reminders[3];
    match &added.recurrence {
        RecurrenceType::Custom(rule) => assert_eq!(rule, "hourly"),
        other => panic!("expected a custom rule, got {:?}", other),
    }
}

#[test]
fn edit_commit_replaces_in_place() {
    let now = dt(2025, 6, 10, 14, 0, 0);
    let mut app = three_item_app();
    let created = app.reminders[1].created_at;
    app.handle_normal_key(KeyInput::Down);
    app.handle_normal_key(KeyInput::Char('e'));
    assert_eq!(app.current_view, CurrentView::Edit);
    assert_eq!(app.input_mode, InputMode::Editing);
    assert_eq!(app.editing_reminder_id.as_deref(), Some("b"));
    // the form opens filled from the selected entry
    assert_eq!(app.new_reminder_text, "two");
    assert_eq!(app.new_reminder_time, "09:00");
    assert_eq!(app.new_reminder_date, "2025-06-11");
    assert_eq!(app.new_reminder_recurrence, "daily");
    // rename it and move it to the evening
    for _ in 0..3 {
        app.handle_editing_key(KeyInput::Backspace, now);
    }
    type_word(&mut app, now, "two, rescheduled");
    app.handle_editing_key(KeyInput::Tab, now);
    for _ in 0..5 {
        app.handle_editing_key(KeyInput::Backspace, now);
    }
    type_word(&mut app, now, "20:15");
    app.handle_editing_key(KeyInput::Tab, now);
    app.handle_editing_key(KeyInput::Tab, now);
    app.handle_editing_key(KeyInput::Tab, now);
    assert_eq!(app.active_field, 4);
    app.handle_editing_key(KeyInput::Enter, now);
    assert_eq!(app.current_view, CurrentView::List);
    assert!(app.error_message.is_none());
    assert!(app.editing_reminder_id.is_none());
    assert_eq!(app.reminders.len(), 3);
    let edited = &app.reminders[1];
    assert_eq!(edited.id, "b");
    assert_eq!(edited.text, "two, rescheduled");
    assert_eq!(edited.due_time, dt(2025, 6, 11, 20, 15, 0));
    assert!(matches!(edited.recurrence, RecurrenceType::Daily));
    assert_eq!(edited.created_at, created);
    // the neighbours are untouched
    assert_eq!(app.reminders[0].text, "one");
    assert_eq!(app.reminders[2].text, "three");
}

#[test]
fn edit_on_an_empty_list_does_nothing() {
    let mut app = App::new(Storage::new());
    app.handle_normal_key(KeyInput::Char('e'));
    assert_eq!(app.current_view, CurrentView::List);
    assert_eq!(app.input_mode, InputMode::Normal);
}

#[test]
fn field_order_is_fixed() {
    assert_eq!(FIELD_COUNT, 5);
    assert_eq!(field_at(0), ActiveField::Text);
    assert_eq!(field_at(1), ActiveField::Time);
    assert_eq!(field_at(2), ActiveField::Date);
    assert_eq!(field_at(3), ActiveField::Recurrence);
    assert_eq!(field_at(4), ActiveField::Submit);
}
