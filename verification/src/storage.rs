//! The reminder store, modeled as the whole collection it holds. Only
//! load-all and replace-all are exposed, plus the collection edits built
//! on them. Reading the collection from disk and writing it back are left
//! to the surrounding program.

use vstd::prelude::*;
use vstd::pervasive::VecAdditionalExecFns;
use crate::reminder::Reminder;

verus! {

/// The reminders of `s` whose id does not read `id`, in their original
/// order: what deleting by id leaves behind.
pub open spec fn spec_without_id(s: Seq<Reminder>, id: Seq<char>) -> Seq<Reminder> {
    s.filter(|r: Reminder| r.id@ != id)
}

/// One step of `spec_without_id`, from the right: the last reminder is
/// kept exactly when its id differs.
proof fn lemma_without_id_step(s: Seq<Reminder>, id: Seq<char>)
    requires
        s.len() > 0,
    ensures
        spec_without_id(s, id) == if s.last().id@ != id {
            spec_without_id(s.drop_last(), id).push(s.last())
        } else {
            spec_without_id(s.drop_last(), id)
        },
{
    reveal(Seq::filter);
}

/// What remains after deleting by id was already in the store, so a
/// store of well-formed reminders stays well formed.
pub proof fn lemma_without_id_wf(s: Seq<Reminder>, id: Seq<char>)
    requires
        forall|i: int| 0 <= i < s.len() ==> (#[trigger] s[i]).wf(),
    ensures
        forall|i: int| 0 <= i < spec_without_id(s, id).len()
            ==> (#[trigger] spec_without_id(s, id)[i]).wf(),
    decreases s.len(),
{
    if s.len() == 0 {
        reveal(Seq::filter);
        assert(spec_without_id(s, id) == s);
    } else {
        lemma_without_id_step(s, id);
        assert(forall|j: int| 0 <= j < s.len() - 1 ==> #[trigger] s.drop_last()[j] == s[j]);
        lemma_without_id_wf(s.drop_last(), id);
        let prev = spec_without_id(s.drop_last(), id);
        let out = spec_without_id(s, id);
        assert forall|i: int| 0 <= i < out.len() implies (#[trigger] out[i]).wf() by {
            if s.last().id@ != id {
                if i < prev.len() {
                    assert(out[i] == prev[i]);
                } else {
                    assert(out[i] == s.last());
                }
            } else {
                assert(out[i] == prev[i]);
            }
        }
    }
}

/// Index of the first reminder in `s` whose id reads `id`, or -1 when no
/// reminder carries that id.
pub open spec fn spec_first_index_with_id(s: Seq<Reminder>, id: Seq<char>) -> int
    decreases s.len(),
{
    if s.len() == 0 {
        -1
    } else if s[0].id@ == id {
        0
    } else if spec_first_index_with_id(s.drop_first(), id) == -1 {
        -1
    } else {
        spec_first_index_with_id(s.drop_first(), id) + 1
    }
}

/// What `spec_first_index_with_id` finds: -1 exactly when no id matches,
/// otherwise the position of the first match.
pub proof fn lemma_first_index_with_id(s: Seq<Reminder>, id: Seq<char>)
    ensures
        -1 <= spec_first_index_with_id(s, id) < s.len(),
        spec_first_index_with_id(s, id) == -1 ==> forall|j: int|
            0 <= j < s.len() ==> (#[trigger] s[j]).id@ != id,
        spec_first_index_with_id(s, id) >= 0 ==> s[spec_first_index_with_id(s, id)].id@ == id,
        spec_first_index_with_id(s, id) >= 0 ==> forall|j: int|
            0 <= j < spec_first_index_with_id(s, id) ==> (#[trigger] s[j]).id@ != id,
    decreases s.len(),
{
    if s.len() > 0 && s[0].id@ != id {
        lemma_first_index_with_id(s.drop_first(), id);
        assert(forall|j: int| 1 <= j < s.len() ==> #[trigger] s[j] == s.drop_first()[j - 1]);
    }
}

/// The full reminder collection, held in memory. The surrounding program
/// fills it from the backing file and writes it back after each change.
pub struct Storage {
    pub reminders: Vec<Reminder>,
}

impl Storage {
    /// Every reminder held carries well-formed dates.
    pub open spec fn wf(self) -> bool {
        forall|i: int| 0 <= i < self.reminders@.len() ==> (#[trigger] self.reminders@[i]).wf()
    }

    /// An empty store.
    pub fn new() -> (s: Storage)
        ensures
            s.reminders@ == Seq::<Reminder>::empty(),
            s.wf(),
    {
        Storage { reminders: Vec::new() }
    }

    /// The whole collection, in storage order.
    pub fn load(&self) -> (r: Vec<Reminder>)
        ensures
            r@ == self.reminders@,
    {
        let mut r: Vec<Reminder> = Vec::new();
        let mut i: usize = 0;
        while i < self.reminders.len()
            invariant
                i <= self.reminders@.len(),
                r@ == self.reminders@.subrange(0, i as int),
            decreases self.reminders@.len() - i,
        {
            r.push(self.reminders[i].clone());
            proof {
                assert(r@ =~= self.reminders@.subrange(0, i + 1));
            }
            i = i + 1;
        }
        proof {
            assert(r@ =~= self.reminders@);
        }
        r
    }

    /// Replaces the whole collection.
    pub fn save(&mut self, reminders: Vec<Reminder>)
        ensures
            final(self).reminders == reminders,
    {
        self.reminders = reminders;
    }

    /// Appends a reminder at the end of the collection.
    pub fn add_reminder(&mut self, reminder: Reminder)
        ensures
            final(self).reminders@ == old(self).reminders@.push(reminder),
    {
        self.reminders.push(reminder);
    }

    /// Removes every reminder whose id reads `id`; reports whether any
    /// was removed. The remaining reminders keep their order.
    pub fn delete_reminder(&mut self, id: &str) -> (deleted: bool)
        ensures
            final(self).reminders@ == spec_without_id(old(self).reminders@, id@),
            deleted == exists|i: int|
                0 <= i < old(self).reminders@.len()
                    && (#[trigger] old(self).reminders@[i]).id@ == id@,
    {
        let id_string: String = id.to_owned();
        let ghost orig = self.reminders@;
        let mut kept: Vec<Reminder> = Vec::new();
        let mut found = false;
        let mut i: usize = 0;
        while i < self.reminders.len()
            invariant
                i <= orig.len(),
                self.reminders@ == orig,
                kept@ == spec_without_id(orig.subrange(0, i as int), id@),
                found == exists|j: int| 0 <= j < i && (#[trigger] orig[j]).id@ == id_string@,
                id_string@ == id@,
            decreases orig.len() - i,
        {
            let r = self.reminders[i].clone();
            proof {
                lemma_without_id_step(orig.subrange(0, i + 1), id@);
                assert(orig.subrange(0, i + 1).drop_last() =~= orig.subrange(0, i as int));
                assert(orig.subrange(0, i + 1).last() == orig[i as int]);
            }
            if r.id == id_string {
                found = true;
            } else {
                kept.push(r);
            }
            i = i + 1;
        }
        proof {
            assert(orig.subrange(0, orig.len() as int) =~= orig);
        }
        self.reminders = kept;
        found
    }

    /// Replaces the first reminder whose id matches `updated.id` with
    /// `updated`; reports whether one was found. Without a match the
    /// collection is unchanged.
    pub fn update_reminder(&mut self, updated: Reminder) -> (found: bool)
        ensures
            found == (spec_first_index_with_id(old(self).reminders@, updated.id@) >= 0),
            found ==> final(self).reminders@ == old(self).reminders@.update(
                spec_first_index_with_id(old(self).reminders@, updated.id@),
                updated,
            ),
            !found ==> final(self).reminders == old(self).reminders,
    {
        proof {
            lemma_first_index_with_id(self.reminders@, updated.id@);
        }
        let ghost orig = self.reminders@;
        let mut i: usize = 0;
        while i < self.reminders.len()
            invariant
                i <= orig.len(),
                self.reminders == old(self).reminders,
                self.reminders@ == orig,
                forall|j: int| 0 <= j < i ==> (#[trigger] orig[j]).id@ != updated.id@,
            decreases orig.len() - i,
        {
            if self.reminders[i].id == updated.id {
                proof {
                    lemma_first_index_with_id(orig, updated.id@);
                    assert(orig[i as int].id@ == updated.id@);
                    assert(spec_first_index_with_id(orig, updated.id@) == i as int);
                }
                self.reminders.set(i, updated);
                return true;
            }
            proof {
                assert(orig[i as int].id@ != updated.id@);
            }
            i = i + 1;
        }
        proof {
            lemma_first_index_with_id(orig, updated.id@);
        }
        false
    }

    /// Deletes by 1-based list position, as the listing shows them:
    /// looks up the id at that position and removes every reminder
    /// carrying it. Reports whether the position was valid.
    pub fn delete_reminder_by_index(&mut self, index: usize) -> (ok: bool)
        ensures
            ok == (1 <= index <= old(self).reminders@.len()),
            ok ==> final(self).reminders@ == spec_without_id(
                old(self).reminders@,
                old(self).reminders@[index - 1].id@,
            ),
            !ok ==> final(self).reminders == old(self).reminders,
    {
        if index == 0 || index > self.reminders.len() {
            return false;
        }
        let id = self.reminders[index - 1].id.clone();
        let _deleted = self.delete_reminder(id.as_str());
        true
    }

    /// The first reminder whose id reads `id`, if any.
    pub fn get_reminder_by_id(&self, id: &str) -> (r: Option<Reminder>)
        ensures
            r matches Some(found) ==> spec_first_index_with_id(self.reminders@, id@) >= 0
                && found == self.reminders@[spec_first_index_with_id(self.reminders@, id@)],
            r is None ==> spec_first_index_with_id(self.reminders@, id@) == -1,
    {
        proof {
            lemma_first_index_with_id(self.reminders@, id@);
        }
        let id_string: String = id.to_owned();
        let mut i: usize = 0;
        while i < self.reminders.len()
            invariant
                i <= self.reminders@.len(),
                forall|j: int| 0 <= j < i ==> (#[trigger] self.reminders@[j]).id@ != id@,
                id_string@ == id@,
            decreases self.reminders@.len() - i,
        {
            if self.reminders[i].id == id_string {
                proof {
                    lemma_first_index_with_id(self.reminders@, id@);
                }
                return Some(self.reminders[i].clone());
            }
            i = i + 1;
        }
        None
    }
}

} // verus!
