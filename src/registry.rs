//! The record of duels in progress: each session id with the users taking
//! part, consulted before a new duel may start. Sharing it between sessions
//! (and locking it) is the caller's business; this is the bookkeeping.

use vstd::prelude::*;

verus! {

pub type Session = (u128, Vec<Option<u64>>);

pub open spec fn session_ids_unique(s: Seq<Session>) -> bool {
    forall|i: int, j: int| 0 <= i < s.len() && 0 <= j < s.len() && i != j ==> s[i].0 != s[j].0
}

pub open spec fn seq_has_session(s: Seq<Session>, id: u128) -> bool {
    exists|i: int| 0 <= i < s.len() && s[i].0 == id
}

/// Some session in `s` has `user` taking part.
pub open spec fn seq_engaged(s: Seq<Session>, user: u64) -> bool {
    exists|i: int, j: int| 0 <= i < s.len() && 0 <= j < s[i].1@.len() && s[i].1@[j] == Some(user)
}

/// `s2` is `s` with session `id` recorded for `users`: added at the end, or
/// in place of an earlier record under the same id.
pub open spec fn registered(s: Seq<Session>, id: u128, users: Vec<Option<u64>>, s2: Seq<Session>) -> bool {
    if seq_has_session(s, id) {
        exists|i: int| 0 <= i < s.len() && s[i].0 == id && s2 == #[trigger] s.update(i, (id, users))
    } else {
        s2 == s.push((id, users))
    }
}

/// `s2` is `s` without session `id`.
pub open spec fn deregistered(s: Seq<Session>, id: u128, s2: Seq<Session>) -> bool {
    if seq_has_session(s, id) {
        exists|i: int| 0 <= i < s.len() && s[i].0 == id && s2 == #[trigger] s.remove(i)
    } else {
        s2 == s
    }
}

/// The duels in progress, in the order they started, each session id at
/// most once. A list rather than a hash map, so that every question asked of
/// it (who is engaged) is answered by a plain scan whose result is stated
/// exactly, with no dependence on a walk order.
pub struct Data {
    pub battles: Vec<Session>,
}

impl Data {
    pub open spec fn wf(&self) -> bool {
        session_ids_unique(self.battles@)
    }

    pub open spec fn engaged(&self, user: u64) -> bool {
        seq_engaged(self.battles@, user)
    }

    pub fn new() -> (r: Data)
        ensures
            r.wf(),
            r.battles@.len() == 0,
    {
        Data { battles: Vec::new() }
    }

    fn position(&self, id: u128) -> (r: Option<usize>)
        ensures
            match r {
                Some(i) => i < self.battles@.len() && self.battles@[i as int].0 == id,
                None => !seq_has_session(self.battles@, id),
            },
    {
        let mut i: usize = 0;
        while i < self.battles.len()
            invariant
                i <= self.battles@.len(),
                forall|k: int| 0 <= k < i ==> self.battles@[k].0 != id,
            decreases self.battles@.len() - i,
        {
            if self.battles[i].0 == id {
                return Some(i);
            }
            i = i + 1;
        }
        None
    }

    /// Whether `user` takes part in any duel in progress.
    pub fn check_for_user_in_battle(&self, user: u64) -> (r: bool)
        ensures
            r == self.engaged(user),
    {
        let mut i: usize = 0;
        while i < self.battles.len()
            invariant
                i <= self.battles@.len(),
                forall|a: int, b: int| 0 <= a < i && 0 <= b < self.battles@[a].1@.len()
                    ==> self.battles@[a].1@[b] != Some(user),
            decreases self.battles@.len() - i,
        {
            let users = &self.battles[i].1;
            let mut j: usize = 0;
            while j < users.len()
                invariant
                    i < self.battles@.len(),
                    *users == self.battles@[i as int].1,
                    j <= users@.len(),
                    forall|b: int| 0 <= b < j ==> users@[b] != Some(user),
                decreases users@.len() - j,
            {
                if users[j] == Some(user) {
                    return true;
                }
                j = j + 1;
            }
            i = i + 1;
        }
        false
    }

    /// Records session `id` with `users` taking part, in place of any
    /// earlier record under that id.
    pub fn register(&mut self, id: u128, users: Vec<Option<u64>>)
        requires
            old(self).wf(),
        ensures
            final(self).wf(),
            registered(old(self).battles@, id, users, final(self).battles@),
    {
        match self.position(id) {
            Some(i) => {
                self.battles.set(i, (id, users));
            },
            None => {
                self.battles.push((id, users));
            },
        }
    }

    /// Removes the record of session `id`, if there is one.
    pub fn deregister(&mut self, id: u128)
        requires
            old(self).wf(),
        ensures
            final(self).wf(),
            deregistered(old(self).battles@, id, final(self).battles@),
            !seq_has_session(final(self).battles@, id),
    {
        match self.position(id) {
            Some(i) => {
                let ghost before = self.battles@;
                self.battles.remove(i);
                assert(forall|k: int| 0 <= k < self.battles@.len() ==>
                    #[trigger] self.battles@[k] == before[if k < i { k } else { k + 1 }]);
            },
            None => {},
        }
    }
}

/// A session recorded under a fresh id has each of its users engaged for as
/// long as it stays recorded, and removing its record leaves the registry
/// exactly as it was before.
pub proof fn lemma_registration_scoped(
    before: Seq<Session>,
    id: u128,
    users: Vec<Option<u64>>,
    during: Seq<Session>,
    after: Seq<Session>,
)
    requires
        session_ids_unique(before),
        !seq_has_session(before, id),
        registered(before, id, users, during),
        deregistered(during, id, after),
    ensures
        forall|j: int| 0 <= j < users@.len() && users@[j] is Some ==> seq_engaged(during, #[trigger] users@[j]->0),
        seq_has_session(during, id),
        !seq_has_session(after, id),
        after == before,
{
    let last = before.len() as int;
    assert(during[last].0 == id);
    assert forall|j: int| 0 <= j < users@.len() && users@[j] is Some implies seq_engaged(
        during,
        #[trigger] users@[j]->0,
    ) by {
        assert(during[last].1@[j] == Some(users@[j]->0));
    }
    let i = choose|i: int| 0 <= i < during.len() && during[i].0 == id && after == #[trigger] during.remove(i);
    if i != last {
        assert(before[i].0 == id);
    }
    assert(after =~= before);
}

} // verus!
