//! The interactive editor's form state machine: views, input modes, the
//! five-field form with one active field, and the key-by-key transitions,
//! including commit validation for creating and editing reminders. The
//! terminal itself (drawing, raw key events) lives in the surrounding
//! program, which feeds this machine one `KeyInput` at a time.

use vstd::prelude::*;
use crate::cli::{
    parse_datetime_with_default_date, parse_recurrence, spec_combined, spec_default_dated,
    spec_recurrence_parsed, spec_valid_date_shape, spec_valid_time, spec_date_year,
    spec_date_month, spec_date_day, spec_time_hour, spec_time_minute,
};
use crate::datetime::DateTime;
use crate::reminder::{Reminder, RecurrenceType};
use crate::storage::{
    Storage, lemma_first_index_with_id, lemma_without_id_wf, spec_first_index_with_id,
    spec_without_id,
};
use crate::utils::{format_date, format_time, pop_char, push_char};

verus! {

#[derive(Clone, Copy, PartialEq, Eq, Structural, Debug)]
pub enum InputMode {
    Normal,
    Editing,
}

#[derive(Clone, Copy, PartialEq, Eq, Structural, Debug)]
pub enum CurrentView {
    List,
    Add,
    Edit,
    Help,
}

/// The form's fields, in their fixed order. The form state itself keeps
/// an index into this order, so the wrap-around arithmetic is written
/// once.
#[derive(Clone, Copy, PartialEq, Eq, Structural, Debug)]
pub enum ActiveField {
    Text,
    Time,
    Date,
    Recurrence,
    Submit,
}

/// The number of entries in the field order.
pub const FIELD_COUNT: usize = 5;

/// The field at a position of the fixed order.
pub open spec fn spec_field_at(i: int) -> ActiveField {
    if i == 0 {
        ActiveField::Text
    } else if i == 1 {
        ActiveField::Time
    } else if i == 2 {
        ActiveField::Date
    } else if i == 3 {
        ActiveField::Recurrence
    } else {
        ActiveField::Submit
    }
}

pub fn field_at(i: usize) -> (f: ActiveField)
    requires
        i < 5,
    ensures
        f == spec_field_at(i as int),
{
    match i {
        0 => ActiveField::Text,
        1 => ActiveField::Time,
        2 => ActiveField::Date,
        3 => ActiveField::Recurrence,
        _ => ActiveField::Submit,
    }
}

/// The next field position, wrapping past the end back to the start.
pub open spec fn spec_forward(i: int) -> int {
    (i + 1) % 5
}

/// The previous field position, wrapping before the start to the end.
pub open spec fn spec_backward(i: int) -> int {
    (i + 4) % 5
}

/// Cycling the active field wraps: five forward steps return any
/// position to itself, and one backward step undoes one forward step.
pub proof fn lemma_field_cycle(i: int)
    requires
        0 <= i < 5,
    ensures
        spec_forward(spec_forward(spec_forward(spec_forward(spec_forward(i))))) == i,
        spec_backward(spec_forward(i)) == i,
        spec_forward(spec_backward(i)) == i,
{
}

/// One key of input, as the editor understands it. The surrounding
/// program translates raw terminal events into these.
#[derive(Clone, Copy, PartialEq, Eq, Structural, Debug)]
pub enum KeyInput {
    Char(char),
    Enter,
    Tab,
    BackTab,
    Backspace,
    Esc,
    Up,
    Down,
    Other,
}

/// Where the selection lands after the list shrinks to `len` entries:
/// clamped into `[0, len - 1]`, or 0 on an empty list.
pub open spec fn spec_clamped_index(i: int, len: int) -> int {
    if len == 0 {
        0
    } else if i >= len {
        len - 1
    } else {
        i
    }
}

/// A buffer edit: the character removed from the end, when there is one.
pub open spec fn spec_popped(s: Seq<char>) -> Seq<char> {
    if s.len() == 0 {
        s
    } else {
        s.drop_last()
    }
}

/// The interactive editor's whole state.
pub struct App {
    pub reminders: Vec<Reminder>,
    pub storage: Storage,
    pub current_view: CurrentView,
    pub input_mode: InputMode,
    pub input: String,
    pub selected_index: usize,
    pub new_reminder_text: String,
    pub new_reminder_time: String,
    pub new_reminder_date: String,
    pub new_reminder_recurrence: String,
    pub editing_reminder_id: Option<String>,
    pub active_field: usize,
    pub error_message: Option<String>,
}

/// The form buffers hold their defaults and no error is shown.
pub open spec fn spec_form_reset(a: App) -> bool {
    &&& a.new_reminder_text@.len() == 0
    &&& a.new_reminder_time@.len() == 0
    &&& a.new_reminder_date@.len() == 0
    &&& a.new_reminder_recurrence@ == "none"@
    &&& a.error_message is None
}

/// Everything outside the given error message is as it was: a failed
/// commit only reports, it changes no other state.
pub open spec fn spec_commit_failed(pre: App, post: App, msg: Seq<char>) -> bool {
    &&& post.error_message matches Some(m) && m@ == msg
    &&& post.storage == pre.storage
    &&& post.reminders == pre.reminders
    &&& post.current_view == pre.current_view
    &&& post.input_mode == pre.input_mode
    &&& post.input == pre.input
    &&& post.selected_index == pre.selected_index
    &&& post.new_reminder_text == pre.new_reminder_text
    &&& post.new_reminder_time == pre.new_reminder_time
    &&& post.new_reminder_date == pre.new_reminder_date
    &&& post.new_reminder_recurrence == pre.new_reminder_recurrence
    &&& post.editing_reminder_id == pre.editing_reminder_id
    &&& post.active_field == pre.active_field
}

/// The form passes commit validation: a text, a well-formed `HH:MM`
/// time, an absent or valid date, and a non-empty recurrence word.
pub open spec fn spec_form_ok(a: App) -> bool {
    &&& a.new_reminder_text@.len() > 0
    &&& spec_valid_time(a.new_reminder_time@)
    &&& spec_form_due_ok(a)
    &&& a.new_reminder_recurrence@.len() > 0
}

/// The date buffer is empty (the default-date rule applies) or names a
/// real calendar day together with the time buffer.
pub open spec fn spec_form_due_ok(a: App) -> bool {
    if a.new_reminder_date@.len() == 0 {
        true
    } else {
        spec_valid_date_shape(a.new_reminder_date@)
            && spec_combined(a.new_reminder_date@, a.new_reminder_time@).wf()
    }
}

/// The due time a valid form names, given the current moment.
pub open spec fn spec_form_due(a: App, now: DateTime) -> DateTime {
    if a.new_reminder_date@.len() == 0 {
        spec_default_dated(
            now,
            spec_time_hour(a.new_reminder_time@) as u32,
            spec_time_minute(a.new_reminder_time@) as u32,
        )
    } else {
        spec_combined(a.new_reminder_date@, a.new_reminder_time@)
    }
}

/// What a successful commit leaves behind: form reset, list view, normal
/// mode, the list refreshed from storage.
pub open spec fn spec_commit_succeeded(pre: App, post: App) -> bool {
    &&& spec_form_reset(post)
    &&& post.current_view is List
    &&& post.input_mode is Normal
    &&& post.reminders@ == post.storage.reminders@
    &&& post.input == pre.input
    &&& post.selected_index == pre.selected_index
    &&& post.active_field == pre.active_field
}

/// The reminder a valid form describes, except for its identity fields.
pub open spec fn spec_form_reminder(pre: App, now: DateTime, r: Reminder) -> bool {
    &&& r.text@ == pre.new_reminder_text@
    &&& r.due_time == spec_form_due(pre, now)
    &&& r.due_time.wf()
    &&& spec_recurrence_parsed(r.recurrence, pre.new_reminder_recurrence@)
    &&& r.last_notified is None
    &&& !r.completed
}

impl App {
    /// The editor's invariant: a valid field index, well-formed storage,
    /// the list mirroring storage, a selection inside the list (or 0 on
    /// an empty list), editing mode only over the two form views, and an
    /// editing target whenever the edit view is open.
    pub open spec fn wf(self) -> bool {
        &&& self.active_field < 5
        &&& self.storage.wf()
        &&& self.reminders@ == self.storage.reminders@
        &&& (self.reminders@.len() == 0 ==> self.selected_index == 0)
        &&& (self.reminders@.len() > 0 ==> self.selected_index < self.reminders@.len())
        &&& (self.input_mode is Editing ==> self.current_view is Add
            || self.current_view is Edit)
        &&& (self.current_view is Edit ==> self.editing_reminder_id is Some)
    }

    /// A fresh editor over a store: list view, normal mode, empty form.
    pub fn new(storage: Storage) -> (app: App)
        requires
            storage.wf(),
        ensures
            app.wf(),
            app.storage == storage,
            app.reminders@ == storage.reminders@,
            app.current_view is List,
            app.input_mode is Normal,
            app.selected_index == 0,
            spec_form_reset(app),
            app.editing_reminder_id is None,
            app.active_field == 0,
            app.input@.len() == 0,
    {
        let reminders = storage.load();
        App {
            reminders,
            storage,
            current_view: CurrentView::List,
            input_mode: InputMode::Normal,
            input: String::new(),
            selected_index: 0,
            new_reminder_text: String::new(),
            new_reminder_time: String::new(),
            new_reminder_date: String::new(),
            new_reminder_recurrence: String::from_str("none"),
            editing_reminder_id: None,
            active_field: 0,
            error_message: None,
        }
    }

    /// Reloads the list from storage; nothing else moves.
    pub fn refresh_reminders(&mut self)
        ensures
            final(self).reminders@ == old(self).storage.reminders@,
            *final(self) == (App { reminders: final(self).reminders, ..*old(self) }),
    {
        self.reminders = self.storage.load();
    }

    /// Opens the edit view over the selected reminder: remembers its id
    /// and fills the form buffers from its fields (time as `HH:MM`, date
    /// as `YYYY-MM-DD`, the recurrence by its lower-case name).
    pub fn start_editing_selected_reminder(&mut self)
        requires
            old(self).wf(),
            old(self).reminders@.len() > 0,
        ensures
            final(self).wf(),
            final(self).editing_reminder_id matches Some(eid)
                && eid@ == old(self).reminders@[old(self).selected_index as int].id@,
            final(self).new_reminder_text@
                == old(self).reminders@[old(self).selected_index as int].text@,
            spec_valid_time(final(self).new_reminder_time@),
            spec_time_hour(final(self).new_reminder_time@)
                == old(self).reminders@[old(self).selected_index as int].due_time.hour,
            spec_time_minute(final(self).new_reminder_time@)
                == old(self).reminders@[old(self).selected_index as int].due_time.minute,
            spec_valid_date_shape(final(self).new_reminder_date@),
            spec_date_year(final(self).new_reminder_date@)
                == old(self).reminders@[old(self).selected_index as int].due_time.year,
            spec_date_month(final(self).new_reminder_date@)
                == old(self).reminders@[old(self).selected_index as int].due_time.month,
            spec_date_day(final(self).new_reminder_date@)
                == old(self).reminders@[old(self).selected_index as int].due_time.day,
            match old(self).reminders@[old(self).selected_index as int].recurrence {
                RecurrenceType::Never => final(self).new_reminder_recurrence@ == "none"@,
                RecurrenceType::Daily => final(self).new_reminder_recurrence@ == "daily"@,
                RecurrenceType::Weekly => final(self).new_reminder_recurrence@ == "weekly"@,
                RecurrenceType::Monthly => final(self).new_reminder_recurrence@
                    == "monthly"@,
                RecurrenceType::Yearly => final(self).new_reminder_recurrence@ == "yearly"@,
                RecurrenceType::Custom(rule) => final(self).new_reminder_recurrence@
                    == rule@,
            },
            final(self).current_view is Edit,
            final(self).input_mode is Editing,
            final(self).active_field == 0,
            final(self).error_message is None,
            final(self).storage == old(self).storage,
            final(self).reminders == old(self).reminders,
            final(self).selected_index == old(self).selected_index,
            final(self).input == old(self).input,
    {
        let selected = &self.reminders[self.selected_index];
        let due = selected.due_time;
        self.editing_reminder_id = Some(selected.id.clone());
        self.new_reminder_text = selected.text.clone();
        self.new_reminder_recurrence = selected.recurrence.name_string();
        self.new_reminder_time = format_time(&due);
        self.new_reminder_date = format_date(&due);
        self.current_view = CurrentView::Edit;
        self.input_mode = InputMode::Editing;
        self.active_field = 0;
        self.error_message = None;
    }

    /// Clears the form buffers back to their defaults and drops any
    /// error message.
    fn reset_form(&mut self)
        ensures
            spec_form_reset(*final(self)),
            *final(self) == (App {
                new_reminder_text: final(self).new_reminder_text,
                new_reminder_time: final(self).new_reminder_time,
                new_reminder_date: final(self).new_reminder_date,
                new_reminder_recurrence: final(self).new_reminder_recurrence,
                error_message: None,
                ..*old(self)
            }),
    {
        self.new_reminder_text = String::new();
        self.new_reminder_time = String::new();
        self.new_reminder_date = String::new();
        self.new_reminder_recurrence = String::from_str("none");
        self.error_message = None;
    }

    /// Commit of the add form: validates the buffers in order (text,
    /// time, date-and-time, recurrence word), and on the first failure
    /// reports it and leaves every other part of the state alone. On
    /// success a new reminder built from the form is appended to storage,
    /// the form resets, and the editor returns to the list in normal
    /// mode. Success comes exactly when `spec_form_ok` holds.
    pub fn create_reminder(&mut self, now: DateTime)
        requires
            old(self).wf(),
            now.wf(),
            now.year <= 9998,
        ensures
            final(self).wf(),
            old(self).new_reminder_text@.len() == 0 ==> spec_commit_failed(
                *old(self), *final(self), "Reminder text cannot be empty"@,
            ),
            old(self).new_reminder_text@.len() > 0
                && old(self).new_reminder_time@.len() == 0 ==> spec_commit_failed(
                *old(self), *final(self), "Time must be specified (HH:MM)"@,
            ),
            old(self).new_reminder_text@.len() > 0
                && old(self).new_reminder_time@.len() > 0
                && !(spec_valid_time(old(self).new_reminder_time@)
                    && spec_form_due_ok(*old(self))) ==> spec_commit_failed(
                *old(self), *final(self), "Invalid date/time"@,
            ),
            old(self).new_reminder_text@.len() > 0
                && spec_valid_time(old(self).new_reminder_time@)
                && spec_form_due_ok(*old(self))
                && old(self).new_reminder_recurrence@.len() == 0 ==> spec_commit_failed(
                *old(self), *final(self), "Invalid recurrence"@,
            ),
            spec_form_ok(*old(self)) ==> {
                &&& spec_commit_succeeded(*old(self), *final(self))
                &&& final(self).storage.reminders@.len()
                    == old(self).storage.reminders@.len() + 1
                &&& final(self).storage.reminders@.subrange(
                    0, old(self).storage.reminders@.len() as int,
                ) == old(self).storage.reminders@
                &&& spec_form_reminder(
                    *old(self), now, final(self).storage.reminders@.last(),
                )
                &&& final(self).storage.reminders@.last().id@.len() == 36
                &&& final(self).editing_reminder_id == old(self).editing_reminder_id
            },
    {
        if self.new_reminder_text.as_str().unicode_len() == 0 {
            self.error_message = Some(String::from_str("Reminder text cannot be empty"));
            return;
        }
        if self.new_reminder_time.as_str().unicode_len() == 0 {
            self.error_message = Some(String::from_str("Time must be specified (HH:MM)"));
            return;
        }
        let date_option: Option<&str> = if self.new_reminder_date.as_str().unicode_len()
            == 0 {
            None
        } else {
            Some(self.new_reminder_date.as_str())
        };
        let due = match parse_datetime_with_default_date(
            self.new_reminder_time.as_str(), date_option, now,
        ) {
            Some(d) => d,
            None => {
                self.error_message = Some(String::from_str("Invalid date/time"));
                return;
            },
        };
        let recurrence = match parse_recurrence(self.new_reminder_recurrence.as_str()) {
            Some(r) => r,
            None => {
                self.error_message = Some(String::from_str("Invalid recurrence"));
                return;
            },
        };
        let reminder = Reminder::new(self.new_reminder_text.clone(), due, recurrence);
        let ghost before = self.storage.reminders@;
        self.storage.add_reminder(reminder);
        proof {
            assert(self.storage.reminders@.subrange(0, before.len() as int) =~= before);
        }
        self.reset_form();
        self.current_view = CurrentView::List;
        self.input_mode = InputMode::Normal;
        self.refresh_reminders();
    }

    /// Commit of the edit form: the same validation as `create_reminder`,
    /// with the same reports on failure. On success the first stored
    /// reminder carrying the remembered id is replaced by one built from
    /// the form, keeping that id and the stored `created_at`; if the id
    /// is no longer present the collection is unchanged. Either way the
    /// form resets and the editor returns to the list in normal mode.
    pub fn update_reminder(&mut self, now: DateTime)
        requires
            old(self).wf(),
            old(self).editing_reminder_id is Some,
            now.wf(),
            now.year <= 9998,
        ensures
            final(self).wf(),
            old(self).new_reminder_text@.len() == 0 ==> spec_commit_failed(
                *old(self), *final(self), "Reminder text cannot be empty"@,
            ),
            old(self).new_reminder_text@.len() > 0
                && old(self).new_reminder_time@.len() == 0 ==> spec_commit_failed(
                *old(self), *final(self), "Time must be specified (HH:MM)"@,
            ),
            old(self).new_reminder_text@.len() > 0
                && old(self).new_reminder_time@.len() > 0
                && !(spec_valid_time(old(self).new_reminder_time@)
                    && spec_form_due_ok(*old(self))) ==> spec_commit_failed(
                *old(self), *final(self), "Invalid date/time"@,
            ),
            old(self).new_reminder_text@.len() > 0
                && spec_valid_time(old(self).new_reminder_time@)
                && spec_form_due_ok(*old(self))
                && old(self).new_reminder_recurrence@.len() == 0 ==> spec_commit_failed(
                *old(self), *final(self), "Invalid recurrence"@,
            ),
            spec_form_ok(*old(self)) ==> {
                &&& spec_commit_succeeded(*old(self), *final(self))
                &&& spec_edit_applied(*old(self), *final(self), now)
                &&& final(self).editing_reminder_id is None
            },
    {
        if self.new_reminder_text.as_str().unicode_len() == 0 {
            self.error_message = Some(String::from_str("Reminder text cannot be empty"));
            return;
        }
        if self.new_reminder_time.as_str().unicode_len() == 0 {
            self.error_message = Some(String::from_str("Time must be specified (HH:MM)"));
            return;
        }
        let date_option: Option<&str> = if self.new_reminder_date.as_str().unicode_len()
            == 0 {
            None
        } else {
            Some(self.new_reminder_date.as_str())
        };
        let due = match parse_datetime_with_default_date(
            self.new_reminder_time.as_str(), date_option, now,
        ) {
            Some(d) => d,
            None => {
                self.error_message = Some(String::from_str("Invalid date/time"));
                return;
            },
        };
        let recurrence = match parse_recurrence(self.new_reminder_recurrence.as_str()) {
            Some(r) => r,
            None => {
                self.error_message = Some(String::from_str("Invalid recurrence"));
                return;
            },
        };
        let editing_id = match &self.editing_reminder_id {
            Some(id) => id.clone(),
            None => {
                proof {
                    assert(false);
                }
                String::new()
            },
        };
        let ghost pre_storage = self.storage.reminders@;
        match self.storage.get_reminder_by_id(editing_id.as_str()) {
            Some(existing) => {
                proof {
                    lemma_first_index_with_id(pre_storage, editing_id@);
                    let idx0 = spec_first_index_with_id(pre_storage, editing_id@);
                    assert(old(self).storage.reminders@[idx0].wf());
                    assert(existing.wf());
                }
                let updated = Reminder {
                    id: editing_id,
                    text: self.new_reminder_text.clone(),
                    due_time: due,
                    recurrence,
                    created_at: existing.created_at,
                    last_notified: None,
                    completed: false,
                };
                proof {
                    assert(updated.wf());
                }
                let _found = self.storage.update_reminder(updated);
                proof {
                    assert(self.storage.wf());
                }
            },
            None => {},
        }
        self.reset_form();
        self.editing_reminder_id = None;
        self.current_view = CurrentView::List;
        self.input_mode = InputMode::Normal;
        self.refresh_reminders();
    }
}

/// Whether a key does anything at all in normal mode.
pub open spec fn spec_normal_handled(key: KeyInput) -> bool {
    match key {
        KeyInput::Char(c) => c == 'q' || c == 'a' || c == 'e' || c == 'h' || c == 'l'
            || c == 'd',
        KeyInput::Up => true,
        KeyInput::Down => true,
        _ => false,
    }
}

impl App {
    /// One key of input in normal mode. Returns whether the program
    /// should exit (`q`). `a` opens a cleared add form; `e` opens the
    /// edit form over the selection; `h` and `l` switch views; `d`
    /// deletes the selected reminder and clamps the selection; the
    /// arrows move the selection within the list; everything else is
    /// ignored.
    pub fn handle_normal_key(&mut self, key: KeyInput) -> (quit: bool)
        requires
            old(self).wf(),
            old(self).input_mode is Normal,
        ensures
            final(self).wf(),
            quit == (key == KeyInput::Char('q')),
            key == KeyInput::Char('q') ==> *final(self) == *old(self),
            key == KeyInput::Char('a') ==> {
                &&& final(self).current_view is Add
                &&& final(self).input_mode is Editing
                &&& final(self).active_field == 0
                &&& spec_form_reset(*final(self))
                &&& final(self).editing_reminder_id is None
                &&& final(self).storage == old(self).storage
                &&& final(self).reminders == old(self).reminders
                &&& final(self).selected_index == old(self).selected_index
                &&& final(self).input == old(self).input
            },
            key == KeyInput::Char('e')
                && old(self).current_view is List
                && old(self).reminders@.len() > 0 ==> {
                &&& final(self).current_view is Edit
                &&& final(self).input_mode is Editing
                &&& final(self).active_field == 0
                &&& final(self).error_message is None
                &&& final(self).editing_reminder_id matches Some(eid) && eid@
                    == old(self).reminders@[old(self).selected_index as int].id@
                &&& final(self).new_reminder_text@
                    == old(self).reminders@[old(self).selected_index as int].text@
                &&& final(self).storage == old(self).storage
                &&& final(self).reminders == old(self).reminders
                &&& final(self).selected_index == old(self).selected_index
            },
            key == KeyInput::Char('e')
                && !(old(self).current_view is List && old(self).reminders@.len() > 0)
                ==> *final(self) == *old(self),
            key == KeyInput::Char('h') ==> *final(self) == (App {
                current_view: CurrentView::Help,
                ..*old(self)
            }),
            key == KeyInput::Char('l') ==> {
                &&& final(self).current_view is List
                &&& final(self).reminders@ == old(self).storage.reminders@
                &&& *final(self) == (App {
                    current_view: CurrentView::List,
                    reminders: final(self).reminders,
                    ..*old(self)
                })
            },
            key == KeyInput::Char('d')
                && old(self).current_view is List
                && old(self).reminders@.len() > 0 ==> {
                &&& final(self).storage.reminders@ == spec_without_id(
                    old(self).storage.reminders@,
                    old(self).reminders@[old(self).selected_index as int].id@,
                )
                &&& final(self).reminders@ == final(self).storage.reminders@
                &&& final(self).selected_index == spec_clamped_index(
                    old(self).selected_index as int,
                    final(self).reminders@.len() as int,
                )
                &&& final(self).current_view == old(self).current_view
                &&& final(self).input_mode == old(self).input_mode
                &&& final(self).new_reminder_text == old(self).new_reminder_text
                &&& final(self).new_reminder_time == old(self).new_reminder_time
                &&& final(self).new_reminder_date == old(self).new_reminder_date
                &&& final(self).new_reminder_recurrence
                    == old(self).new_reminder_recurrence
                &&& final(self).editing_reminder_id == old(self).editing_reminder_id
                &&& final(self).error_message == old(self).error_message
                &&& final(self).active_field == old(self).active_field
            },
            key == KeyInput::Char('d')
                && !(old(self).current_view is List && old(self).reminders@.len() > 0)
                ==> *final(self) == *old(self),
            key == KeyInput::Up ==> *final(self) == (App {
                selected_index: if old(self).selected_index > 0 {
                    (old(self).selected_index - 1) as usize
                } else {
                    0
                },
                ..*old(self)
            }),
            key == KeyInput::Down ==> *final(self) == (App {
                selected_index: if old(self).reminders@.len() > 0
                    && old(self).selected_index < old(self).reminders@.len() - 1 {
                    (old(self).selected_index + 1) as usize
                } else {
                    old(self).selected_index
                },
                ..*old(self)
            }),
            !spec_normal_handled(key) ==> *final(self) == *old(self),
    {
        match key {
            KeyInput::Char(c) => {
                if c == 'q' {
                    return true;
                }
                if c == 'a' {
                    self.current_view = CurrentView::Add;
                    self.input_mode = InputMode::Editing;
                    self.active_field = 0;
                    self.editing_reminder_id = None;
                    self.reset_form();
                } else if c == 'e' {
                    if self.current_view == CurrentView::List && self.reminders.len() > 0 {
                        self.start_editing_selected_reminder();
                    }
                } else if c == 'h' {
                    self.current_view = CurrentView::Help;
                } else if c == 'l' {
                    self.current_view = CurrentView::List;
                    self.refresh_reminders();
                } else if c == 'd' {
                    if self.current_view == CurrentView::List && self.reminders.len() > 0 {
                        let id = self.reminders[self.selected_index].id.clone();
                        let _deleted = self.storage.delete_reminder(id.as_str());
                        proof {
                            lemma_without_id_wf(old(self).storage.reminders@, id@);
                        }
                        self.refresh_reminders();
                        if self.reminders.len() == 0 {
                            self.selected_index = 0;
                        } else if self.selected_index >= self.reminders.len() {
                            self.selected_index = self.reminders.len() - 1;
                        }
                    }
                }
            },
            KeyInput::Up => {
                if self.selected_index > 0 {
                    self.selected_index = self.selected_index - 1;
                }
            },
            KeyInput::Down => {
                if self.reminders.len() > 0 && self.selected_index < self.reminders.len() - 1 {
                    self.selected_index = self.selected_index + 1;
                }
            },
            _ => {},
        }
        false
    }

    /// One key of input in editing mode, over the add or edit form.
    /// Characters and backspace edit the active field's buffer; Tab and
    /// Shift-Tab cycle the active field with wrap-around; Enter advances
    /// to the next field, or commits on the submit entry; Esc discards
    /// the form and returns to the list. `now` feeds the commit's
    /// default-date rule.
    pub fn handle_editing_key(&mut self, key: KeyInput, now: DateTime)
        requires
            old(self).wf(),
            old(self).input_mode is Editing,
            now.wf(),
            now.year <= 9998,
        ensures
            final(self).wf(),
            key == KeyInput::Esc ==> {
                &&& final(self).input_mode is Normal
                &&& final(self).current_view is List
                &&& spec_form_reset(*final(self))
                &&& final(self).editing_reminder_id is None
                &&& final(self).storage == old(self).storage
                &&& final(self).reminders == old(self).reminders
                &&& final(self).selected_index == old(self).selected_index
                &&& final(self).active_field == old(self).active_field
            },
            key == KeyInput::Tab ==> *final(self) == (App {
                active_field: ((old(self).active_field + 1) % 5) as usize,
                ..*old(self)
            }),
            key == KeyInput::BackTab ==> *final(self) == (App {
                active_field: ((old(self).active_field + 4) % 5) as usize,
                ..*old(self)
            }),
            key == KeyInput::Enter && old(self).active_field < 4 ==> *final(self) == (App {
                active_field: (old(self).active_field + 1) as usize,
                ..*old(self)
            }),
            key == KeyInput::Enter && old(self).active_field == 4
                && old(self).current_view is Add ==> spec_create_commit_step(
                *old(self), *final(self), now,
            ),
            key == KeyInput::Enter && old(self).active_field == 4
                && old(self).current_view is Edit ==> spec_update_commit_step(
                *old(self), *final(self), now,
            ),
            key matches KeyInput::Char(c) ==> (old(self).active_field < 4 ==> {
                &&& final(self).new_reminder_text@ == if old(self).active_field == 0 {
                    old(self).new_reminder_text@.push(c)
                } else {
                    old(self).new_reminder_text@
                }
                &&& final(self).new_reminder_time@ == if old(self).active_field == 1 {
                    old(self).new_reminder_time@.push(c)
                } else {
                    old(self).new_reminder_time@
                }
                &&& final(self).new_reminder_date@ == if old(self).active_field == 2 {
                    old(self).new_reminder_date@.push(c)
                } else {
                    old(self).new_reminder_date@
                }
                &&& final(self).new_reminder_recurrence@ == if old(self).active_field == 3 {
                    old(self).new_reminder_recurrence@.push(c)
                } else {
                    old(self).new_reminder_recurrence@
                }
                &&& spec_same_outside_form(*old(self), *final(self))
            }),
            key matches KeyInput::Char(_) && old(self).active_field == 4
                ==> *final(self) == *old(self),
            key == KeyInput::Backspace && old(self).active_field < 4 ==> {
                &&& final(self).new_reminder_text@ == if old(self).active_field == 0 {
                    spec_popped(old(self).new_reminder_text@)
                } else {
                    old(self).new_reminder_text@
                }
                &&& final(self).new_reminder_time@ == if old(self).active_field == 1 {
                    spec_popped(old(self).new_reminder_time@)
                } else {
                    old(self).new_reminder_time@
                }
                &&& final(self).new_reminder_date@ == if old(self).active_field == 2 {
                    spec_popped(old(self).new_reminder_date@)
                } else {
                    old(self).new_reminder_date@
                }
                &&& final(self).new_reminder_recurrence@ == if old(self).active_field == 3 {
                    spec_popped(old(self).new_reminder_recurrence@)
                } else {
                    old(self).new_reminder_recurrence@
                }
                &&& spec_same_outside_form(*old(self), *final(self))
            },
            key == KeyInput::Backspace && old(self).active_field == 4
                ==> *final(self) == *old(self),
            (key == KeyInput::Up || key == KeyInput::Down || key == KeyInput::Other)
                ==> *final(self) == *old(self),
    {
        match key {
            KeyInput::Esc => {
                self.input_mode = InputMode::Normal;
                self.current_view = CurrentView::List;
                self.editing_reminder_id = None;
                self.reset_form();
            },
            KeyInput::Enter => {
                if self.active_field < 4 {
                    self.active_field = self.active_field + 1;
                } else {
                    if self.current_view == CurrentView::Add {
                        self.create_reminder(now);
                    } else {
                        self.update_reminder(now);
                    }
                }
            },
            KeyInput::Tab => {
                self.active_field = (self.active_field + 1) % FIELD_COUNT;
            },
            KeyInput::BackTab => {
                self.active_field = (self.active_field + FIELD_COUNT - 1) % FIELD_COUNT;
            },
            KeyInput::Char(c) => {
                if self.active_field == 0 {
                    push_char(&mut self.new_reminder_text, c);
                } else if self.active_field == 1 {
                    push_char(&mut self.new_reminder_time, c);
                } else if self.active_field == 2 {
                    push_char(&mut self.new_reminder_date, c);
                } else if self.active_field == 3 {
                    push_char(&mut self.new_reminder_recurrence, c);
                }
            },
            KeyInput::Backspace => {
                if self.active_field == 0 {
                    pop_char(&mut self.new_reminder_text);
                } else if self.active_field == 1 {
                    pop_char(&mut self.new_reminder_time);
                } else if self.active_field == 2 {
                    pop_char(&mut self.new_reminder_date);
                } else if self.active_field == 3 {
                    pop_char(&mut self.new_reminder_recurrence);
                }
            },
            _ => {},
        }
    }
}

/// Everything but the form buffers and the error message is as it was.
pub open spec fn spec_same_outside_form(pre: App, post: App) -> bool {
    &&& post.storage == pre.storage
    &&& post.reminders == pre.reminders
    &&& post.current_view == pre.current_view
    &&& post.input_mode == pre.input_mode
    &&& post.input == pre.input
    &&& post.selected_index == pre.selected_index
    &&& post.editing_reminder_id == pre.editing_reminder_id
    &&& post.active_field == pre.active_field
    &&& post.error_message == pre.error_message
}

/// The whole add-commit transition, failure reports included, as
/// `create_reminder` promises it.
pub open spec fn spec_create_commit_step(pre: App, post: App, now: DateTime) -> bool {
    &&& (pre.new_reminder_text@.len() == 0 ==> spec_commit_failed(
        pre, post, "Reminder text cannot be empty"@,
    ))
    &&& (pre.new_reminder_text@.len() > 0 && pre.new_reminder_time@.len() == 0
        ==> spec_commit_failed(pre, post, "Time must be specified (HH:MM)"@))
    &&& (pre.new_reminder_text@.len() > 0 && pre.new_reminder_time@.len() > 0
        && !(spec_valid_time(pre.new_reminder_time@) && spec_form_due_ok(pre))
        ==> spec_commit_failed(pre, post, "Invalid date/time"@))
    &&& (pre.new_reminder_text@.len() > 0 && spec_valid_time(pre.new_reminder_time@)
        && spec_form_due_ok(pre) && pre.new_reminder_recurrence@.len() == 0
        ==> spec_commit_failed(pre, post, "Invalid recurrence"@))
    &&& (spec_form_ok(pre) ==> {
        &&& spec_commit_succeeded(pre, post)
        &&& post.storage.reminders@.len() == pre.storage.reminders@.len() + 1
        &&& post.storage.reminders@.subrange(0, pre.storage.reminders@.len() as int)
            == pre.storage.reminders@
        &&& spec_form_reminder(pre, now, post.storage.reminders@.last())
        &&& post.storage.reminders@.last().id@.len() == 36
        &&& post.editing_reminder_id == pre.editing_reminder_id
    })
}

/// The whole edit-commit transition, failure reports included, as
/// `update_reminder` promises it.
pub open spec fn spec_update_commit_step(pre: App, post: App, now: DateTime) -> bool {
    &&& (pre.new_reminder_text@.len() == 0 ==> spec_commit_failed(
        pre, post, "Reminder text cannot be empty"@,
    ))
    &&& (pre.new_reminder_text@.len() > 0 && pre.new_reminder_time@.len() == 0
        ==> spec_commit_failed(pre, post, "Time must be specified (HH:MM)"@))
    &&& (pre.new_reminder_text@.len() > 0 && pre.new_reminder_time@.len() > 0
        && !(spec_valid_time(pre.new_reminder_time@) && spec_form_due_ok(pre))
        ==> spec_commit_failed(pre, post, "Invalid date/time"@))
    &&& (pre.new_reminder_text@.len() > 0 && spec_valid_time(pre.new_reminder_time@)
        && spec_form_due_ok(pre) && pre.new_reminder_recurrence@.len() == 0
        ==> spec_commit_failed(pre, post, "Invalid recurrence"@))
    &&& (spec_form_ok(pre) ==> {
        &&& spec_commit_succeeded(pre, post)
        &&& spec_edit_applied(pre, post, now)
        &&& post.editing_reminder_id is None
    })
}

/// What a successful edit commit does to storage: the first reminder
/// carrying the remembered id is replaced by one built from the form,
/// keeping the id and the stored `created_at` and starting a fresh
/// lifecycle (not notified, not completed); every other reminder stays,
/// and a vanished id leaves the collection unchanged.
pub open spec fn spec_edit_applied(pre: App, post: App, now: DateTime) -> bool {
    match pre.editing_reminder_id {
        Some(eid) => {
            let s = pre.storage.reminders@;
            let idx = spec_first_index_with_id(s, eid@);
            if idx >= 0 {
                &&& post.storage.reminders@.len() == s.len()
                &&& post.storage.reminders@[idx].id@ == eid@
                &&& post.storage.reminders@[idx].text@ == pre.new_reminder_text@
                &&& post.storage.reminders@[idx].due_time == spec_form_due(pre, now)
                &&& spec_recurrence_parsed(
                    post.storage.reminders@[idx].recurrence,
                    pre.new_reminder_recurrence@,
                )
                &&& post.storage.reminders@[idx].created_at == s[idx].created_at
                &&& post.storage.reminders@[idx].last_notified is None
                &&& !post.storage.reminders@[idx].completed
                &&& forall|j: int| 0 <= j < s.len() && j != idx
                    ==> post.storage.reminders@[j] == s[j]
            } else {
                post.storage.reminders == pre.storage.reminders
            }
        },
        None => false,
    }
}

} // verus!
