//! The due scanner: walks the whole reminder collection, marks every due
//! reminder as notified (rescheduling it by its recurrence rule), and
//! returns the list of reminders that were due, as they stood before the
//! mutation. Delivering the notifications themselves (terminal, desktop,
//! sound) is a best-effort side effect of the surrounding program, which
//! runs over the returned list; its failures never affect the scan.

use vstd::prelude::*;
use vstd::pervasive::VecAdditionalExecFns;
use crate::datetime::DateTime;
use crate::reminder::Reminder;
use crate::storage::Storage;

verus! {

/// The reminders of `s` that are due at `now`, in storage order.
pub open spec fn spec_due_reminders(s: Seq<Reminder>, now: DateTime) -> Seq<Reminder> {
    s.filter(|r: Reminder| r.spec_is_due(now))
}

/// One step of `spec_due_reminders`, from the right.
proof fn lemma_due_step(s: Seq<Reminder>, now: DateTime)
    requires
        s.len() > 0,
    ensures
        spec_due_reminders(s, now) == if s.last().spec_is_due(now) {
            spec_due_reminders(s.drop_last(), now).push(s.last())
        } else {
            spec_due_reminders(s.drop_last(), now)
        },
{
    reveal(Seq::filter);
}

/// Runs the due scan against a reminder store.
pub struct Notifier {
    pub storage: Storage,
}

impl Notifier {
    pub fn new(storage: Storage) -> (n: Notifier)
        ensures
            n.storage == storage,
    {
        Notifier { storage }
    }

    /// Scans the whole collection at `now`: every reminder due at `now`
    /// is marked notified in place (see `spec_mark_notified`), every other
    /// reminder is left untouched, and the due ones are returned as they
    /// stood before the mutation, in storage order.
    pub fn check_due_reminders(&mut self, now: DateTime) -> (due: Vec<Reminder>)
        requires
            old(self).storage.wf(),
            now.wf(),
            forall|i: int| 0 <= i < old(self).storage.reminders@.len()
                && (#[trigger] old(self).storage.reminders@[i]).recurrence.spec_reschedules()
                ==> old(self).storage.reminders@[i].due_time.year <= 9998,
        ensures
            due@ == spec_due_reminders(old(self).storage.reminders@, now),
            final(self).storage.reminders@.len() == old(self).storage.reminders@.len(),
            forall|i: int| 0 <= i < old(self).storage.reminders@.len()
                ==> final(self).storage.reminders@[i]
                    == if (#[trigger] old(self).storage.reminders@[i]).spec_is_due(now) {
                        old(self).storage.reminders@[i].spec_mark_notified(now)
                    } else {
                        old(self).storage.reminders@[i]
                    },
            final(self).storage.wf(),
    {
        let ghost orig = self.storage.reminders@;
        let mut due: Vec<Reminder> = Vec::new();
        let mut i: usize = 0;
        while i < self.storage.reminders.len()
            invariant
                i <= orig.len(),
                self.storage.reminders@.len() == orig.len(),
                old(self).storage.reminders@ == orig,
                old(self).storage.wf(),
                now.wf(),
                forall|k: int| 0 <= k < orig.len()
                    && (#[trigger] orig[k]).recurrence.spec_reschedules()
                    ==> orig[k].due_time.year <= 9998,
                forall|j: int| i <= j < orig.len()
                    ==> #[trigger] self.storage.reminders@[j] == orig[j],
                forall|j: int| 0 <= j < i
                    ==> #[trigger] self.storage.reminders@[j]
                        == if orig[j].spec_is_due(now) {
                            orig[j].spec_mark_notified(now)
                        } else {
                            orig[j]
                        },
                forall|j: int| 0 <= j < i
                    ==> (#[trigger] self.storage.reminders@[j]).wf(),
                due@ == spec_due_reminders(orig.subrange(0, i as int), now),
            decreases orig.len() - i,
        {
            proof {
                lemma_due_step(orig.subrange(0, i + 1), now);
                assert(orig.subrange(0, i + 1).drop_last() =~= orig.subrange(0, i as int));
                assert(orig.subrange(0, i + 1).last() == orig[i as int]);
                assert(orig[i as int].wf());
            }
            if self.storage.reminders[i].is_due(now) {
                due.push(self.storage.reminders[i].clone());
                let mut updated = self.storage.reminders[i].clone();
                updated.mark_notified(now);
                self.storage.reminders.set(i, updated);
            }
            i = i + 1;
        }
        proof {
            assert(orig.subrange(0, orig.len() as int) =~= orig);
        }
        due
    }
}

} // verus!
