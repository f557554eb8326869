//! The session registry: the shared map from session identifier to session
//! record, read and written by the management API and the session runtime.
//!
//! The registry itself is a plain value; the surrounding application shares
//! it under one mutual-exclusion lock, held only for the duration of one
//! registry operation.

use crate::assoc::{assoc_value, keys_unique, lemma_assoc_has_exists, lemma_assoc_value_at,
    assoc_find};
use crate::session::Session;
use vstd::prelude::*;

verus! {

/// Registry of sessions, keyed by session identifier.
pub struct SessionRegistry {
    /// The sessions, each keyed by its own identifier.
    pub entries: Vec<(String, Session)>,
}

impl SessionRegistry {
    /// Keys are unique, every record is keyed by its own identifier, and
    /// every record's timestamps are consistent.
    pub open spec fn wf(&self) -> bool {
        &&& keys_unique(self.entries@)
        &&& forall|i: int|
            0 <= i < self.entries@.len() ==> (#[trigger] self.entries@[i]).0@
                == self.entries@[i].1.session_id@
        &&& forall|i: int| 0 <= i < self.entries@.len() ==> (#[trigger] self.entries@[i]).1.wf()
    }

    /// The record stored under `id`, if any.
    pub open spec fn spec_get(&self, id: Seq<char>) -> Option<Session> {
        assoc_value(self.entries@, id)
    }

    /// Whether a record is stored under `id`.
    pub open spec fn spec_contains(&self, id: Seq<char>) -> bool {
        self.spec_get(id) is Some
    }

    /// An empty registry.
    pub fn new() -> (r: SessionRegistry)
        ensures
            r.wf(),
            forall|id: Seq<char>| !(#[trigger] r.spec_contains(id)),
    {
        let r = SessionRegistry { entries: Vec::new() };
        proof {
            assert forall|id: Seq<char>| !(#[trigger] r.spec_contains(id)) by {
                lemma_assoc_has_exists(r.entries@, id);
            }
        }
        r
    }

    /// Store `session` under its identifier, replacing any record stored
    /// there before; every other record stays as it was.
    pub fn add_session(&mut self, session: Session)
        requires
            old(self).wf(),
            session.wf(),
        ensures
            final(self).wf(),
            final(self).spec_get(session.session_id@) == Some(session),
            forall|id: Seq<char>|
                id != session.session_id@ ==> #[trigger] final(self).spec_get(id) == old(
                    self,
                ).spec_get(id),
    {
        let key = session.session_id.clone();
        let ghost key_view = session.session_id@;
        let found = assoc_find(&self.entries, key.as_str());
        proof {
            lemma_assoc_has_exists(self.entries@, key_view);
        }
        match found {
            Some(idx) => {
                let ghost entries_old = self.entries@;
                self.entries[idx] = (key, session);
                proof {
                    let entries_new = self.entries@;
                    assert forall|a: int, b: int| 0 <= a < b < entries_new.len() implies
                        entries_new[a].0@ != entries_new[b].0@ by {
                        assert(entries_old[a].0@ != entries_old[b].0@);
                    }
                    lemma_assoc_value_at(entries_new, idx as int, key_view);
                    assert forall|id: Seq<char>|
                        id != key_view implies #[trigger] assoc_value(entries_new, id)
                        == assoc_value(entries_old, id) by {
                        Self::lemma_lookup_same_entries(entries_old, entries_new, id);
                    }
                }
            },
            None => {
                let ghost entries_old = self.entries@;
                self.entries.push((key, session));
                proof {
                    let entries_new = self.entries@;
                    assert(entries_new.drop_last() =~= entries_old);
                    assert forall|a: int, b: int| 0 <= a < b < entries_new.len() implies
                        entries_new[a].0@ != entries_new[b].0@ by {
                        if b < entries_new.len() - 1 {
                            assert(entries_old[a].0@ != entries_old[b].0@);
                        } else {
                            assert(entries_old[a] == entries_new[a]);
                        }
                    }
                }
            },
        }
    }

    /// With unique keys on both sides, two entry lists that bind the same
    /// set of positions for `id` look the same to lookup.
    proof fn lemma_lookup_same_entries(
        before: Seq<(String, Session)>,
        after: Seq<(String, Session)>,
        id: Seq<char>,
    )
        requires
            keys_unique(before),
            keys_unique(after),
            before.len() == after.len(),
            forall|i: int|
                0 <= i < before.len() && (#[trigger] before[i]).0@ == id ==> after[i] == before[i],
            forall|i: int|
                0 <= i < after.len() && (#[trigger] after[i]).0@ == id ==> after[i] == before[i],
        ensures
            assoc_value(after, id) == assoc_value(before, id),
    {
        lemma_assoc_has_exists(before, id);
        lemma_assoc_has_exists(after, id);
        if exists|i: int| 0 <= i < before.len() && (#[trigger] before[i]).0@ == id {
            let i = choose|i: int| 0 <= i < before.len() && (#[trigger] before[i]).0@ == id;
            lemma_assoc_value_at(before, i, id);
            lemma_assoc_value_at(after, i, id);
        } else if exists|i: int| 0 <= i < after.len() && (#[trigger] after[i]).0@ == id {
            let i = choose|i: int| 0 <= i < after.len() && (#[trigger] after[i]).0@ == id;
            assert(before[i].0@ == id);
        }
    }

    /// A copy of the record stored under `session_id`, if any.
    pub fn get_session(&self, session_id: &str) -> (r: Option<Session>)
        requires
            self.wf(),
        ensures
            r == self.spec_get(session_id@),
    {
        let found = assoc_find(&self.entries, session_id);
        proof {
            lemma_assoc_has_exists(self.entries@, session_id@);
        }
        match found {
            Some(idx) => {
                proof {
                    lemma_assoc_value_at(self.entries@, idx as int, session_id@);
                }
                Some(self.entries[idx].1.clone())
            },
            None => None,
        }
    }

    /// Remove and return the record stored under `session_id`; every other
    /// record stays as it was.
    pub fn remove_session(&mut self, session_id: &str) -> (r: Option<Session>)
        requires
            old(self).wf(),
        ensures
            final(self).wf(),
            r == old(self).spec_get(session_id@),
            !final(self).spec_contains(session_id@),
            r is None ==> *final(self) == *old(self),
            forall|id: Seq<char>|
                id != session_id@ ==> #[trigger] final(self).spec_get(id) == old(self).spec_get(
                    id,
                ),
    {
        let found = assoc_find(&self.entries, session_id);
        proof {
            lemma_assoc_has_exists(self.entries@, session_id@);
        }
        match found {
            Some(idx) => {
                proof {
                    lemma_assoc_value_at(self.entries@, idx as int, session_id@);
                }
                let ghost entries_old = self.entries@;
                let entry = self.entries.remove(idx);
                proof {
                    let entries_new = self.entries@;
                    assert forall|a: int, b: int| 0 <= a < b < entries_new.len() implies
                        entries_new[a].0@ != entries_new[b].0@ by {
                        let a0: int = if a < idx as int {
                            a
                        } else {
                            a + 1
                        };
                        let b0: int = if b < idx as int {
                            b
                        } else {
                            b + 1
                        };
                        assert(entries_new[a] == entries_old[a0]);
                        assert(entries_new[b] == entries_old[b0]);
                    }
                    lemma_assoc_has_exists(entries_new, session_id@);
                    assert forall|id: Seq<char>|
                        id != session_id@ implies #[trigger] assoc_value(entries_new, id)
                        == assoc_value(entries_old, id) by {
                        lemma_assoc_has_exists(entries_old, id);
                        lemma_assoc_has_exists(entries_new, id);
                        if exists|i: int|
                            0 <= i < entries_old.len() && (#[trigger] entries_old[i]).0@ == id {
                            let i = choose|i: int|
                                0 <= i < entries_old.len() && (#[trigger] entries_old[i]).0@
                                    == id;
                            lemma_assoc_value_at(entries_old, i, id);
                            let i2: int = if i < idx as int {
                                i
                            } else {
                                i - 1
                            };
                            assert(entries_new[i2] == entries_old[i]);
                            lemma_assoc_value_at(entries_new, i2, id);
                        } else {
                            if exists|i: int|
                                0 <= i < entries_new.len() && (#[trigger] entries_new[i]).0@
                                    == id {
                                let i = choose|i: int|
                                    0 <= i < entries_new.len() && (#[trigger] entries_new[i]).0@
                                        == id;
                                let i0: int = if i < idx as int {
                                    i
                                } else {
                                    i + 1
                                };
                                assert(entries_old[i0] == entries_new[i]);
                            }
                        }
                    }
                }
                Some(entry.1)
            },
            None => None,
        }
    }

    /// Replace the record stored under the session's identifier, if one is
    /// there; returns whether a record was replaced, and an absent identifier
    /// leaves the registry unchanged.
    pub fn update_session(&mut self, session: Session) -> (updated: bool)
        requires
            old(self).wf(),
            session.wf(),
        ensures
            final(self).wf(),
            updated == old(self).spec_contains(session.session_id@),
            updated ==> final(self).spec_get(session.session_id@) == Some(session),
            !updated ==> *final(self) == *old(self),
            forall|id: Seq<char>|
                id != session.session_id@ ==> #[trigger] final(self).spec_get(id) == old(
                    self,
                ).spec_get(id),
    {
        let found = assoc_find(&self.entries, session.session_id.as_str());
        proof {
            lemma_assoc_has_exists(self.entries@, session.session_id@);
        }
        match found {
            Some(idx) => {
                let ghost entries_old = self.entries@;
                let ghost key_view = session.session_id@;
                let key = session.session_id.clone();
                self.entries[idx] = (key, session);
                proof {
                    let entries_new = self.entries@;
                    assert forall|a: int, b: int| 0 <= a < b < entries_new.len() implies
                        entries_new[a].0@ != entries_new[b].0@ by {
                        assert(entries_old[a].0@ != entries_old[b].0@);
                    }
                    lemma_assoc_value_at(entries_new, idx as int, key_view);
                    assert forall|id: Seq<char>|
                        id != key_view implies #[trigger] assoc_value(entries_new, id)
                        == assoc_value(entries_old, id) by {
                        Self::lemma_lookup_same_entries(entries_old, entries_new, id);
                    }
                }
                true
            },
            None => false,
        }
    }

    /// Copies of all records, in storage order.
    pub fn get_all_sessions(&self) -> (r: Vec<Session>)
        requires
            self.wf(),
        ensures
            r@ == self.entries@.map_values(|e: (String, Session)| e.1),
    {
        let n = self.entries.len();
        let mut r: Vec<Session> = Vec::new();
        let mut i: usize = 0;
        while i < n
            invariant
                0 <= i <= n,
                n == self.entries@.len(),
                r@ =~= self.entries@.take(i as int).map_values(|e: (String, Session)| e.1),
            decreases n - i,
        {
            r.push(self.entries[i].1.clone());
            i += 1;
            proof {
                assert(self.entries@.take(i as int).drop_last() =~= self.entries@.take(
                    i - 1,
                ));
                assert(r@ =~= self.entries@.take(i as int).map_values(
                    |e: (String, Session)| e.1,
                ));
            }
        }
        proof {
            assert(self.entries@.take(n as int) =~= self.entries@);
        }
        r
    }

    /// How many sessions are stored.
    pub fn session_count(&self) -> (n: usize)
        ensures
            n == self.entries@.len(),
    {
        self.entries.len()
    }

    /// Drop every record; returns how many there were.
    pub fn cleanup_all_sessions(&mut self) -> (n: usize)
        requires
            old(self).wf(),
        ensures
            final(self).wf(),
            n == old(self).entries@.len(),
            final(self).entries@.len() == 0,
            forall|id: Seq<char>| !(#[trigger] final(self).spec_contains(id)),
    {
        let n = self.entries.len();
        self.entries.clear();
        proof {
            assert forall|id: Seq<char>| !(#[trigger] self.spec_contains(id)) by {
                lemma_assoc_has_exists(self.entries@, id);
            }
        }
        n
    }

    /// The record stored under `id` carries `id` as its own identifier.
    pub proof fn lemma_stored_session_id(&self, id: Seq<char>)
        requires
            self.wf(),
            self.spec_get(id) is Some,
        ensures
            self.spec_get(id).unwrap().session_id@ == id,
    {
        lemma_assoc_has_exists(self.entries@, id);
        let i = choose|i: int|
            0 <= i < self.entries@.len() && (#[trigger] self.entries@[i]).0@ == id;
        lemma_assoc_value_at(self.entries@, i, id);
    }
}

} // verus!
