//! Versioned snapshots of a machine, and the metadata they carry.

use crate::history::StateHistory;
use vstd::prelude::*;

verus! {

/// The snapshot format this engine writes and the newest it reads.
pub const CHECKPOINT_VERSION: u32 = 1;

/// Why a checkpoint could not be written or read back.
#[derive(Debug)]
pub enum CheckpointError {
    /// Encoding the snapshot failed.
    SerializationFailed(String),
    /// Decoding the snapshot failed.
    DeserializationFailed(String),
    /// The snapshot is newer than this engine.
    UnsupportedVersion { found: u32, supported: u32 },
    /// The snapshot's data is not valid.
    ValidationFailed(String),
}

/// The count that `entries` holds for `name`: the count of the first entry
/// with that name, or 0 when there is none.
pub open spec fn attempts_for(entries: Seq<(String, usize)>, name: Seq<char>) -> nat
    decreases entries.len(),
{
    if entries.len() == 0 {
        0
    } else if entries[0].0@ == name {
        entries[0].1 as nat
    } else {
        attempts_for(entries.drop_first(), name)
    }
}

/// Bookkeeping of a machine, updated on every committed transition.
pub struct MachineMetadata {
    /// When the machine was created, in milliseconds since the Unix epoch.
    pub created_at: i64,
    /// When a transition was last committed, in milliseconds since the Unix epoch.
    pub updated_at: i64,
    /// Attempt count of the transition under way.
    pub current_attempt: usize,
    /// Committed transitions per source state name, read by `attempts_for`.
    pub total_attempts: Vec<(String, usize)>,
}

proof fn lemma_skip_other_names(entries: Seq<(String, usize)>, name: Seq<char>, i: int)
    requires
        0 <= i <= entries.len(),
        forall|j: int| 0 <= j < i ==> entries[j].0@ != name,
    ensures
        attempts_for(entries, name) == attempts_for(entries.subrange(i, entries.len() as int), name),
    decreases i,
{
    if i == 0 {
        assert(entries.subrange(0, entries.len() as int) =~= entries);
    } else {
        let rest = entries.drop_first();
        lemma_skip_other_names(rest, name, i - 1);
        assert(rest.subrange(i - 1, rest.len() as int) =~= entries.subrange(i, entries.len() as int));
    }
}

proof fn lemma_update_keeps_other_names(
    entries: Seq<(String, usize)>,
    i: int,
    entry: (String, usize),
    other: Seq<char>,
)
    requires
        0 <= i < entries.len(),
        entries[i].0@ == entry.0@,
        entry.0@ != other,
    ensures
        attempts_for(entries.update(i, entry), other) == attempts_for(entries, other),
    decreases i,
{
    let updated = entries.update(i, entry);
    if i > 0 {
        lemma_update_keeps_other_names(entries.drop_first(), i - 1, entry, other);
        assert(updated.drop_first() =~= entries.drop_first().update(i - 1, entry));
        assert(updated[0] == entries[0]);
    } else {
        assert(updated.drop_first() =~= entries.drop_first());
    }
}

proof fn lemma_push_keeps_other_names(
    entries: Seq<(String, usize)>,
    entry: (String, usize),
    other: Seq<char>,
)
    requires
        entry.0@ != other,
    ensures
        attempts_for(entries.push(entry), other) == attempts_for(entries, other),
    decreases entries.len(),
{
    if entries.len() > 0 {
        lemma_push_keeps_other_names(entries.drop_first(), entry, other);
        assert(entries.push(entry).drop_first() =~= entries.drop_first().push(entry));
    } else {
        assert(entries.push(entry).drop_first() =~= entries);
    }
}

impl Default for MachineMetadata {
    /// Metadata of a machine created now.
    fn default() -> (m: Self)
        ensures
            m.created_at == m.updated_at,
            m.current_attempt == 0,
            m.total_attempts@.len() == 0,
    {
        MachineMetadata::new()
    }
}

impl MachineMetadata {
    /// Metadata of a machine created at `now`: no attempts, no counts.
    pub fn created(now: i64) -> (m: Self)
        ensures
            m.created_at == now,
            m.updated_at == now,
            m.current_attempt == 0,
            m.total_attempts@.len() == 0,
    {
        MachineMetadata {
            created_at: now,
            updated_at: now,
            current_attempt: 0,
            total_attempts: Vec::new(),
        }
    }

    /// Metadata of a machine created now.
    pub fn new() -> (m: Self)
        ensures
            m.created_at == m.updated_at,
            m.current_attempt == 0,
            m.total_attempts@.len() == 0,
    {
        MachineMetadata::created(crate::clock::now_millis())
    }

    /// A copy of this metadata.
    pub fn duplicate(&self) -> (m: Self)
        ensures
            m.created_at == self.created_at,
            m.updated_at == self.updated_at,
            m.current_attempt == self.current_attempt,
            m.total_attempts@ == self.total_attempts@,
    {
        let mut total_attempts: Vec<(String, usize)> = Vec::new();
        let mut i: usize = 0;
        while i < self.total_attempts.len()
            invariant
                i <= self.total_attempts.len(),
                total_attempts@ == self.total_attempts@.subrange(0, i as int),
            decreases self.total_attempts.len() - i,
        {
            let entry = &self.total_attempts[i];
            total_attempts.push((entry.0.clone(), entry.1));
            proof {
                assert(total_attempts@[i as int] == self.total_attempts@[i as int]);
                assert(total_attempts@ =~= self.total_attempts@.subrange(0, i + 1));
            }
            i += 1;
        }
        proof {
            assert(self.total_attempts@.subrange(0, self.total_attempts@.len() as int)
                =~= self.total_attempts@);
        }
        MachineMetadata {
            created_at: self.created_at,
            updated_at: self.updated_at,
            current_attempt: self.current_attempt,
            total_attempts,
        }
    }

    /// Count one more committed transition out of the state named `name`, at
    /// time `now`. A count that has reached `usize::MAX` stays there.
    pub fn record_commit(&mut self, name: String, now: i64)
        ensures
            final(self).created_at == old(self).created_at,
            final(self).updated_at == now,
            final(self).current_attempt == old(self).current_attempt,
            attempts_for(final(self).total_attempts@, name@) == if attempts_for(
                old(self).total_attempts@,
                name@,
            ) < usize::MAX {
                attempts_for(old(self).total_attempts@, name@) + 1
            } else {
                usize::MAX as nat
            },
            forall|other: Seq<char>|
                other != name@ ==> #[trigger] attempts_for(final(self).total_attempts@, other)
                    == attempts_for(old(self).total_attempts@, other),
    {
        self.updated_at = now;
        let ghost before = self.total_attempts@;
        let mut i: usize = 0;
        while i < self.total_attempts.len()
            invariant
                i <= self.total_attempts.len(),
                self.total_attempts@ == before,
                before == old(self).total_attempts@,
                self.created_at == old(self).created_at,
                self.updated_at == now,
                self.current_attempt == old(self).current_attempt,
                forall|j: int| 0 <= j < i ==> before[j].0@ != name@,
            decreases self.total_attempts.len() - i,
        {
            if self.total_attempts[i].0 == name {
                let count = self.total_attempts[i].1.saturating_add(1);
                let entry = (name, count);
                proof {
                    lemma_skip_other_names(before, name@, i as int);
                    assert(before.subrange(i as int, before.len() as int)[0] == before[i as int]);
                    let after = before.update(i as int, entry);
                    lemma_skip_other_names(after, name@, i as int);
                    assert(after.subrange(i as int, after.len() as int)[0] == entry);
                    assert forall|other: Seq<char>| other != name@ implies #[trigger] attempts_for(
                        after,
                        other,
                    ) == attempts_for(before, other) by {
                        lemma_update_keeps_other_names(before, i as int, entry, other);
                    }
                }
                self.total_attempts.set(i, entry);
                return;
            }
            i += 1;
        }
        let entry = (name, 1usize);
        proof {
            let after = before.push(entry);
            lemma_skip_other_names(before, name@, before.len() as int);
            lemma_skip_other_names(after, name@, before.len() as int);
            assert(after.subrange(before.len() as int, after.len() as int)[0] == entry);
            assert forall|other: Seq<char>| other != name@ implies #[trigger] attempts_for(
                after,
                other,
            ) == attempts_for(before, other) by {
                lemma_push_keeps_other_names(before, entry, other);
            }
        }
        self.total_attempts.push(entry);
    }
}

/// A snapshot of a machine: everything but its transitions, which cannot be
/// stored and are supplied again on restore.
pub struct Checkpoint<S> {
    /// Snapshot format version.
    pub version: u32,
    /// Identifier of this snapshot.
    pub id: String,
    /// When the snapshot was taken, in milliseconds since the Unix epoch.
    pub timestamp: i64,
    pub initial_state: S,
    pub current_state: S,
    pub history: StateHistory<S>,
    pub metadata: MachineMetadata,
}

} // verus!
