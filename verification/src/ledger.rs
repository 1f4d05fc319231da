//! The append-only ledger of completed pipeline runs.

use vstd::prelude::*;

use crate::external::{fresh_id, now_timestamp};
use crate::types::{LedgerEntry, LedgerEntryModel, Statement, Vote, REFERENCE_SENTINEL};

verus! {

/// The model of a stored entry sequence: each entry abstracted to its model.
pub open spec fn entries_model(entries: Seq<LedgerEntry>) -> Seq<LedgerEntryModel> {
    entries.map_values(|e: LedgerEntry| e@)
}

/// An in-memory, append-only, ordered record of completed pipeline runs.
///
/// Entries are only ever added at the end, are immutable once added, and
/// are handed out to callers only as copies, never as the live storage.
pub struct Ledger {
    entries: Vec<LedgerEntry>,
}

impl View for Ledger {
    type V = Seq<LedgerEntryModel>;

    closed spec fn view(&self) -> Seq<LedgerEntryModel> {
        entries_model(self.entries@)
    }
}

impl Ledger {
    /// A ledger with no entries, as at process start.
    pub fn new() -> (l: Ledger)
        ensures
            l@ == Seq::<LedgerEntryModel>::empty(),
    {
        let l = Ledger { entries: Vec::new() };
        proof {
            assert(l@ =~= Seq::<LedgerEntryModel>::empty());
        }
        l
    }

    /// How many entries the ledger holds.
    pub fn len(&self) -> (n: usize)
        ensures
            n == self@.len(),
    {
        self.entries.len()
    }

    /// The single mutating operation: constructs a new entry with a fresh
    /// identifier and the current timestamp, adds it at the end, and
    /// returns a copy of the stored entry. A failed reference lookup,
    /// handed in as `None`, is recorded as [`REFERENCE_SENTINEL`].
    pub fn append(
        &mut self,
        statement: Statement,
        votes: Vec<Vote>,
        decision_note: String,
        external_ref: Option<u64>,
    ) -> (e: LedgerEntry)
        ensures
            final(self)@ == old(self)@.push(e@),
            e@.statement == statement,
            e@.votes == votes@,
            e@.decision_note == decision_note,
            e@.external_ref == (match external_ref {
                Some(v) => v,
                None => REFERENCE_SENTINEL,
            }),
            e@.id@.len() == 36,
    {
        let id = fresh_id();
        let created_at = now_timestamp();
        let reference: u64 = match external_ref {
            Some(v) => v,
            None => REFERENCE_SENTINEL,
        };
        let entry = LedgerEntry {
            id,
            statement,
            votes,
            decision_note,
            external_ref: reference,
            created_at,
        };
        let returned = entry.clone();
        self.entries.push(entry);
        proof {
            assert(final(self)@ =~= old(self)@.push(returned@));
        }
        returned
    }

    /// An element-for-element copy of all entries, in append order. The
    /// live storage is never exposed, so a later append cannot be observed
    /// through an earlier snapshot.
    pub fn snapshot(&self) -> (r: Vec<LedgerEntry>)
        ensures
            entries_model(r@) == self@,
    {
        let n = self.entries.len();
        let mut r: Vec<LedgerEntry> = Vec::new();
        let mut i: usize = 0;
        while i < n
            invariant
                n == self.entries@.len(),
                i <= n,
                r@.len() == i,
                forall|j: int| 0 <= j < i ==> (#[trigger] r@[j])@ == self.entries@[j]@,
            decreases n - i,
        {
            r.push(self.entries[i].clone());
            i = i + 1;
        }
        proof {
            assert forall|j: int| 0 <= j < n implies entries_model(r@)[j] == self@[j] by {
                assert(r@[j]@ == self.entries@[j]@);
            }
            assert(entries_model(r@) =~= self@);
        }
        r
    }
}

/// The append-only law: adding an entry grows the record by exactly one,
/// leaves every earlier entry unchanged at its position, and places the
/// new entry at the end.
pub proof fn lemma_append_preserves_prefix(before: Seq<LedgerEntryModel>, e: LedgerEntryModel)
    ensures
        before.push(e).len() == before.len() + 1,
        forall|i: int| 0 <= i < before.len() ==> before.push(e)[i] == before[i],
        before.push(e)[before.len() as int] == e,
{
}

} // verus!
