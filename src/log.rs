//! The append-only record of what happened in a duel.

use vstd::prelude::*;
use crate::item::{Effect, ItemKind};

verus! {

/// How many entries the final summary shows.
pub const MAX_ENTRIES: usize = 30;

/// One event of a duel. Names are the battlers' display names.
#[derive(Clone, Debug, PartialEq, Eq)]
pub enum Entry {
    /// Weapon icon, attacker, target, and the damage that got through.
    Attack(String, String, String, usize),
    /// Attacker, target, and the damage that got through a critical hit.
    Critical(String, String, usize),
    /// Who gave up.
    Surrender(String),
    /// Who let the turn run out.
    Timeout(String),
    /// The item, its user, the user's opponent, and what it did, with the
    /// amount actually applied.
    Item(ItemKind, String, String, Effect),
}

/// The `n` most recent of `entries`, most recent first (all of them when
/// there are fewer).
pub open spec fn spec_recent(entries: Seq<Entry>, n: nat) -> Seq<Entry> {
    let k = if n < entries.len() { n as int } else { entries.len() as int };
    Seq::new(k as nat, |i: int| entries[entries.len() - 1 - i])
}

/// Entries in the order they were added; none is ever changed or removed.
#[derive(Clone, Debug)]
pub struct Log {
    pub entries: Vec<Entry>,
}

impl Log {
    pub fn new() -> (r: Log)
        ensures
            r.entries@.len() == 0,
    {
        Log { entries: Vec::new() }
    }

    pub fn add(&mut self, entry: Entry)
        ensures
            final(self).entries@ == old(self).entries@.push(entry),
    {
        self.entries.push(entry);
    }

    pub fn len(&self) -> (r: usize)
        ensures
            r == self.entries@.len(),
    {
        self.entries.len()
    }

    /// The entry added last, if any.
    pub fn last(&self) -> (r: Option<&Entry>)
        ensures
            self.entries@.len() == 0 ==> r is None,
            self.entries@.len() > 0 ==> r == Some(&self.entries@.last()),
    {
        if self.entries.len() == 0 {
            None
        } else {
            Some(&self.entries[self.entries.len() - 1])
        }
    }

    /// The `n` most recent entries, most recent first, for the live view;
    /// `None` while the log is empty.
    pub fn get_last_entries(&self, n: usize) -> (r: Option<Vec<&Entry>>)
        ensures
            self.entries@.len() == 0 <==> r is None,
            r matches Some(v) ==> v@.len() == spec_recent(self.entries@, n as nat).len()
                && forall|i: int| 0 <= i < v@.len() ==> #[trigger] v@[i] == spec_recent(self.entries@, n as nat)[i],
    {
        if self.entries.len() == 0 {
            None
        } else {
            Some(self.recent(n))
        }
    }

    /// The `n` most recent entries, most recent first.
    pub fn recent(&self, n: usize) -> (r: Vec<&Entry>)
        ensures
            r@.len() == spec_recent(self.entries@, n as nat).len(),
            forall|i: int| 0 <= i < r@.len() ==> #[trigger] r@[i] == spec_recent(self.entries@, n as nat)[i],
    {
        let len = self.entries.len();
        let k = if n < len { n } else { len };
        let mut r: Vec<&Entry> = Vec::new();
        let mut i: usize = 0;
        while i < k
            invariant
                k <= len,
                len == self.entries@.len(),
                k == spec_recent(self.entries@, n as nat).len(),
                i <= k,
                r@.len() == i,
                forall|j: int| 0 <= j < i ==> #[trigger] r@[j] == spec_recent(self.entries@, n as nat)[j],
            decreases k - i,
        {
            r.push(&self.entries[len - 1 - i]);
            i = i + 1;
        }
        r
    }

    /// Up to the thirty most recent entries, most recent first, for the
    /// final summary.
    pub fn full(&self) -> (r: Vec<&Entry>)
        ensures
            r@.len() == spec_recent(self.entries@, MAX_ENTRIES as nat).len(),
            forall|i: int| 0 <= i < r@.len() ==> #[trigger] r@[i] == spec_recent(self.entries@, MAX_ENTRIES as nat)[i],
    {
        self.recent(MAX_ENTRIES)
    }
}

} // verus!
