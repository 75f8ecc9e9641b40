//! The reminder entity: due detection and post-notification rescheduling.

use vstd::prelude::*;
use crate::datetime::{
    DateTime, lemma_day_headroom, spec_add_days, spec_next_month, spec_next_year,
};

verus! {

/// How a reminder repeats after it fires. `Custom` carries a free-form
/// rule string reserved for future rule types; it is currently inert and
/// has no rescheduling effect.
#[derive(Debug)]
pub enum RecurrenceType {
    Never,
    Daily,
    Weekly,
    Monthly,
    Yearly,
    Custom(String),
}

impl RecurrenceType {
    /// Whether a notification moves the due time forward under this rule.
    pub open spec fn spec_reschedules(self) -> bool {
        match self {
            RecurrenceType::Never => false,
            RecurrenceType::Custom(_) => false,
            _ => true,
        }
    }
}

impl RecurrenceType {
    /// The lower-case word naming this rule, as the form's recurrence
    /// buffer shows it; a custom rule yields its own rule string.
    pub fn name_string(&self) -> (r: String)
        ensures
            match self {
                RecurrenceType::Never => r@ == "none"@,
                RecurrenceType::Daily => r@ == "daily"@,
                RecurrenceType::Weekly => r@ == "weekly"@,
                RecurrenceType::Monthly => r@ == "monthly"@,
                RecurrenceType::Yearly => r@ == "yearly"@,
                RecurrenceType::Custom(rule) => r@ == rule@,
            },
    {
        match self {
            RecurrenceType::Never => String::from_str("none"),
            RecurrenceType::Daily => String::from_str("daily"),
            RecurrenceType::Weekly => String::from_str("weekly"),
            RecurrenceType::Monthly => String::from_str("monthly"),
            RecurrenceType::Yearly => String::from_str("yearly"),
            RecurrenceType::Custom(rule) => rule.clone(),
        }
    }
}

impl Clone for RecurrenceType {
    fn clone(&self) -> (r: Self)
        ensures
            r == *self,
    {
        match self {
            RecurrenceType::Never => RecurrenceType::Never,
            RecurrenceType::Daily => RecurrenceType::Daily,
            RecurrenceType::Weekly => RecurrenceType::Weekly,
            RecurrenceType::Monthly => RecurrenceType::Monthly,
            RecurrenceType::Yearly => RecurrenceType::Yearly,
            RecurrenceType::Custom(rule) => RecurrenceType::Custom(rule.clone()),
        }
    }
}

/// A time-bound note that may repeat on a schedule. `id` and `created_at`
/// are assigned once at creation; the due scanner sets `last_notified`,
/// advances `due_time` and, for non-recurring reminders, flips `completed`.
#[derive(Debug)]
pub struct Reminder {
    pub id: String,
    pub text: String,
    pub due_time: DateTime,
    pub recurrence: RecurrenceType,
    pub created_at: DateTime,
    pub last_notified: Option<DateTime>,
    pub completed: bool,
}

impl Clone for Reminder {
    fn clone(&self) -> (r: Self)
        ensures
            r == *self,
    {
        Reminder {
            id: self.id.clone(),
            text: self.text.clone(),
            due_time: self.due_time,
            recurrence: self.recurrence.clone(),
            created_at: self.created_at,
            last_notified: self.last_notified,
            completed: self.completed,
        }
    }
}

/// Relies on uuid: `Uuid::new_v4()` displayed in its hyphenated form,
/// which is always 36 ASCII characters. The value is random, so nothing
/// more is promised of it.
#[verifier::external_body]
fn fresh_id() -> (r: String)
    ensures
        r@.len() == 36,
{
    uuid::Uuid::new_v4().to_string()
}

impl Reminder {
    /// Every date carried by the reminder is a real calendar date-time.
    pub open spec fn wf(self) -> bool {
        &&& self.due_time.wf()
        &&& self.created_at.wf()
        &&& (self.last_notified matches Some(t) ==> t.wf())
    }

    /// Due right now: the due time has passed, the reminder is not
    /// completed, and either it was never notified, or it repeats and the
    /// last notification lies at least 24 whole hours in the past. A
    /// non-recurring reminder is never due again once notified.
    pub open spec fn spec_is_due(self, now: DateTime) -> bool {
        &&& self.due_time.spec_seconds() <= now.spec_seconds()
        &&& !self.completed
        &&& match self.last_notified {
            None => true,
            Some(last) => !(self.recurrence matches RecurrenceType::Never)
                && now.spec_seconds() - last.spec_seconds() >= 86400,
        }
    }

    /// The due time after a notification, by recurrence rule: unchanged
    /// for `Never` and the inert `Custom`, one day later for `Daily`, seven
    /// for `Weekly`, next month (day clamped) for `Monthly`, next year
    /// (day clamped) for `Yearly`.
    pub open spec fn spec_due_after(self) -> DateTime {
        match self.recurrence {
            RecurrenceType::Never => self.due_time,
            RecurrenceType::Daily => spec_add_days(self.due_time, 1),
            RecurrenceType::Weekly => spec_add_days(self.due_time, 7),
            RecurrenceType::Monthly => spec_next_month(self.due_time),
            RecurrenceType::Yearly => spec_next_year(self.due_time),
            RecurrenceType::Custom(_) => self.due_time,
        }
    }

    /// The whole effect of `mark_notified`: the notification instant is
    /// recorded, the due time advances per `spec_due_after`, and a
    /// non-recurring reminder becomes completed.
    pub open spec fn spec_mark_notified(self, now: DateTime) -> Reminder {
        Reminder {
            due_time: self.spec_due_after(),
            last_notified: Some(now),
            completed: self.completed || (self.recurrence matches RecurrenceType::Never),
            ..self
        }
    }

    /// Creates a reminder: a fresh id, the given content, `created_at`
    /// taken from the local clock, not yet notified, not completed.
    pub fn new(text: String, due_time: DateTime, recurrence: RecurrenceType) -> (r: Reminder)
        requires
            due_time.wf(),
        ensures
            r.id@.len() == 36,
            r.text == text,
            r.due_time == due_time,
            r.recurrence == recurrence,
            r.last_notified is None,
            !r.completed,
            r.wf(),
    {
        Reminder {
            id: fresh_id(),
            text,
            due_time,
            recurrence,
            created_at: crate::datetime::current_datetime(),
            last_notified: None,
            completed: false,
        }
    }

    /// Creates a reminder under a caller-chosen id; otherwise as `new`.
    pub fn new_with_id(id: String, text: String, due_time: DateTime, recurrence: RecurrenceType)
        -> (r: Reminder)
        requires
            due_time.wf(),
        ensures
            r.id == id,
            r.text == text,
            r.due_time == due_time,
            r.recurrence == recurrence,
            r.last_notified is None,
            !r.completed,
            r.wf(),
    {
        Reminder {
            id,
            text,
            due_time,
            recurrence,
            created_at: crate::datetime::current_datetime(),
            last_notified: None,
            completed: false,
        }
    }

    /// The one-line listing of a reminder: its id, text, due time to the
    /// minute, and a completion marker.
    pub fn display_string(&self) -> (r: String)
        requires
            self.due_time.wf(),
        ensures
            r@ == "["@ + self.id@ + "] "@ + self.text@ + " (Due: "@
                + crate::utils::spec_format_datetime(self.due_time) + ") "@
                + if self.completed { "[COMPLETED]"@ } else { Seq::<char>::empty() },
    {
        let mut s = String::from_str("[");
        s.append(self.id.as_str());
        s.append("] ");
        s.append(self.text.as_str());
        s.append(" (Due: ");
        let stamp = crate::utils::format_datetime(&self.due_time);
        s.append(stamp.as_str());
        s.append(") ");
        if self.completed {
            s.append("[COMPLETED]");
        }
        proof {
            assert(s@ =~= "["@ + self.id@ + "] "@ + self.text@ + " (Due: "@
                + crate::utils::spec_format_datetime(self.due_time) + ") "@
                + if self.completed { "[COMPLETED]"@ } else { Seq::<char>::empty() });
        }
        s
    }

    /// Applies an edit: replaces the text, due time and recurrence
    /// wherever a new value is given. The identity fields `id` and
    /// `created_at` never change, and the notification state
    /// (`last_notified`, `completed`) is kept as loaded.
    pub fn apply_edit(
        &mut self,
        text: Option<String>,
        due_time: Option<DateTime>,
        recurrence: Option<RecurrenceType>,
    )
        ensures
            final(self).text == (match text {
                Some(t) => t,
                None => old(self).text,
            }),
            final(self).due_time == (match due_time {
                Some(d) => d,
                None => old(self).due_time,
            }),
            final(self).recurrence == (match recurrence {
                Some(r) => r,
                None => old(self).recurrence,
            }),
            final(self).id == old(self).id,
            final(self).created_at == old(self).created_at,
            final(self).last_notified == old(self).last_notified,
            final(self).completed == old(self).completed,
    {
        if let Some(t) = text {
            self.text = t;
        }
        if let Some(d) = due_time {
            self.due_time = d;
        }
        if let Some(r) = recurrence {
            self.recurrence = r;
        }
    }

    /// Whether the reminder is due at `now`; see `spec_is_due`.
    pub fn is_due(&self, now: DateTime) -> (r: bool)
        requires
            self.wf(),
            now.wf(),
        ensures
            r == self.spec_is_due(now),
    {
        if self.completed {
            return false;
        }
        if !self.due_time.le(&now) {
            return false;
        }
        match &self.last_notified {
            None => true,
            Some(last) => match &self.recurrence {
                RecurrenceType::Never => false,
                _ => now.seconds() - last.seconds() >= 86400,
            },
        }
    }

    /// Records a notification at `now` and reschedules by the recurrence
    /// rule; see `spec_mark_notified`. Rules that advance the calendar ask
    /// for a due year at most 9998 so the result stays in the supported
    /// range.
    pub fn mark_notified(&mut self, now: DateTime)
        requires
            old(self).wf(),
            now.wf(),
            old(self).recurrence.spec_reschedules() ==> old(self).due_time.year <= 9998,
        ensures
            *final(self) == old(self).spec_mark_notified(now),
            final(self).wf(),
    {
        self.last_notified = Some(now);
        match &self.recurrence {
            RecurrenceType::Never => {
                self.completed = true;
            },
            RecurrenceType::Daily => {
                proof {
                    lemma_day_headroom(self.due_time);
                }
                self.due_time = self.due_time.add_days(1);
            },
            RecurrenceType::Weekly => {
                proof {
                    lemma_day_headroom(self.due_time);
                }
                self.due_time = self.due_time.add_days(7);
            },
            RecurrenceType::Monthly => {
                self.due_time = self.due_time.next_month();
            },
            RecurrenceType::Yearly => {
                self.due_time = self.due_time.next_year();
            },
            RecurrenceType::Custom(_) => {},
        }
    }
}

/// A non-recurring reminder reaches a terminal state: the first
/// notification completes it, and notifying again at the same instant
/// changes nothing at all.
pub proof fn lemma_non_recurring_terminal(r: Reminder, now: DateTime)
    requires
        r.recurrence matches RecurrenceType::Never,
    ensures
        r.spec_mark_notified(now).completed,
        r.spec_mark_notified(now).spec_mark_notified(now) == r.spec_mark_notified(now),
{
}

/// A completed reminder never re-triggers a due check, at any instant.
pub proof fn lemma_completed_never_due(r: Reminder, now: DateTime)
    requires
        r.completed,
    ensures
        !r.spec_is_due(now),
{
}

/// A daily reminder with a past due time that was never notified is due,
/// and immediately after `mark_notified` it is no longer due at that same
/// instant, even though less than the 24-hour threshold has elapsed.
pub proof fn lemma_daily_due_then_resting(r: Reminder, now: DateTime)
    requires
        r.recurrence matches RecurrenceType::Daily,
        r.due_time.spec_seconds() <= now.spec_seconds(),
        r.last_notified is None,
        !r.completed,
    ensures
        r.spec_is_due(now),
        !r.spec_mark_notified(now).spec_is_due(now),
{
}

} // verus!
