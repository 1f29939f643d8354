//! The per-identity index of escrow identifiers.

use vstd::prelude::*;
use crate::identity::Identity;

verus! {

/// The identifiers recorded for one identity, oldest first.
#[derive(Debug)]
struct IndexEntry {
    user: Identity,
    ids: Vec<u64>,
}

/// A mapping from identity to the sequence of escrow identifiers recorded for
/// it. Identifiers are only ever appended; nothing is removed or reordered.
#[derive(Debug)]
pub struct UserIndex {
    entries: Vec<IndexEntry>,
}

impl View for UserIndex {
    type V = Map<Seq<char>, Seq<u64>>;

    /// The mapping from an identity's key to its identifiers. An identity with
    /// no identifier recorded is not in its domain.
    closed spec fn view(&self) -> Map<Seq<char>, Seq<u64>> {
        Map::new(
            |user: Seq<char>| self.slot(user) is Some,
            |user: Seq<char>| self.entries@[self.slot(user)->0].ids@,
        )
    }
}

impl UserIndex {
    /// The entry at `i` is the one of `user`.
    spec fn at(&self, i: int, user: Seq<char>) -> bool {
        0 <= i < self.entries@.len() && self.entries@[i].user@ == user
    }

    /// The position of the entry of `user`, if it has one.
    spec fn slot(&self, user: Seq<char>) -> Option<int> {
        if exists|i: int| self.at(i, user) {
            Some(choose|i: int| self.at(i, user))
        } else {
            None
        }
    }

    /// Well-formedness: no identity has two entries.
    pub closed spec fn wf(&self) -> bool {
        forall|i: int, j: int|
            0 <= i < j < self.entries@.len() ==> self.entries@[i].user@ != self.entries@[j].user@
    }

    /// The identifiers recorded for `user`, oldest first; empty if none.
    pub open spec fn ids_of(&self, user: Seq<char>) -> Seq<u64> {
        if self@.contains_key(user) {
            self@[user]
        } else {
            Seq::empty()
        }
    }

    /// In a well-formed index the entry at `i` is the slot of its identity.
    proof fn lemma_slot(&self, i: int)
        requires
            self.wf(),
            0 <= i < self.entries@.len(),
        ensures
            self.slot(self.entries@[i].user@) == Some(i),
    {
        let user = self.entries@[i].user@;
        assert(self.at(i, user));
        let j = choose|j: int| self.at(j, user);
        assert(self.at(j, user));
        if j < i {
            assert(self.entries@[j].user@ != self.entries@[i].user@);
        } else if i < j {
            assert(self.entries@[i].user@ != self.entries@[j].user@);
        }
    }

    /// The empty index.
    pub fn new() -> (r: UserIndex)
        ensures
            r.wf(),
            r@ == Map::<Seq<char>, Seq<u64>>::empty(),
    {
        let r = UserIndex { entries: Vec::new() };
        proof {
            assert forall|user: Seq<char>| r.slot(user) is None by {
                assert(forall|i: int| !r.at(i, user));
            }
            assert(r@ =~= Map::<Seq<char>, Seq<u64>>::empty());
        }
        r
    }

    /// The position of the entry of `user`, if it has one.
    fn find(&self, user: &Identity) -> (r: Option<usize>)
        ensures
            match r {
                Some(i) => self.at(i as int, user@),
                None => forall|i: int| !self.at(i, user@),
            },
    {
        let mut i: usize = 0;
        while i < self.entries.len()
            invariant
                i <= self.entries@.len(),
                forall|k: int| 0 <= k < i ==> !self.at(k, user@),
            decreases self.entries@.len() - i,
        {
            if self.entries[i].user.same(user) {
                return Some(i);
            }
            i += 1;
        }
        None
    }

    /// Appends `escrow_id` to the identifiers of `user`. The identifiers of
    /// every other identity stay as they are.
    pub fn append(&mut self, user: &Identity, escrow_id: u64)
        requires
            old(self).wf(),
        ensures
            final(self).wf(),
            final(self)@ == old(self)@.insert(user@, old(self).ids_of(user@).push(escrow_id)),
    {
        match self.find(user) {
            Some(i) => {
                proof {
                    self.lemma_slot(i as int);
                }
                self.entries[i].ids.push(escrow_id);
                proof {
                    assert(self.wf());
                    assert forall|u: Seq<char>| self.slot(u) is Some <==> old(self).slot(
                        u,
                    ) is Some by {
                        if old(self).slot(u) is Some {
                            assert(self.at(old(self).slot(u)->0, u));
                        }
                        if self.slot(u) is Some {
                            assert(old(self).at(self.slot(u)->0, u));
                        }
                    }
                    assert forall|u: Seq<char>| self.slot(u) is Some implies self.entries@[self.slot(
                        u,
                    )->0].ids@ == (if u == user@ {
                        old(self).ids_of(user@).push(escrow_id)
                    } else {
                        old(self)@[u]
                    }) by {
                        let k = self.slot(u)->0;
                        assert(self.at(k, u));
                        self.lemma_slot(k);
                        old(self).lemma_slot(k);
                    }
                    assert(self@ =~= old(self)@.insert(
                        user@,
                        old(self).ids_of(user@).push(escrow_id),
                    ));
                }
            },
            None => {
                let mut ids: Vec<u64> = Vec::new();
                ids.push(escrow_id);
                self.entries.push(IndexEntry { user: user.clone(), ids });
                proof {
                    let n = old(self).entries@.len() as int;
                    assert(old(self).slot(user@) is None);
                    assert(self.wf()) by {
                        assert forall|i: int, j: int|
                            0 <= i < j < self.entries@.len() implies self.entries@[i].user@
                            != self.entries@[j].user@ by {
                            if j == n {
                                assert(!old(self).at(i, user@));
                            }
                        }
                    }
                    assert forall|u: Seq<char>| self.slot(u) is Some <==> (u == user@ || old(
                        self,
                    ).slot(u) is Some) by {
                        if u == user@ {
                            assert(self.at(n, u));
                        }
                        if old(self).slot(u) is Some {
                            assert(self.at(old(self).slot(u)->0, u));
                        }
                        if self.slot(u) is Some && u != user@ {
                            assert(old(self).at(self.slot(u)->0, u));
                        }
                    }
                    assert forall|u: Seq<char>| self.slot(u) is Some implies self.entries@[self.slot(
                        u,
                    )->0].ids@ == (if u == user@ {
                        old(self).ids_of(user@).push(escrow_id)
                    } else {
                        old(self)@[u]
                    }) by {
                        let k = self.slot(u)->0;
                        assert(self.at(k, u));
                        self.lemma_slot(k);
                        if k < n {
                            old(self).lemma_slot(k);
                        } else {
                            assert(self.entries@[k].ids@ =~= Seq::<u64>::empty().push(escrow_id));
                        }
                    }
                    assert(self@ =~= old(self)@.insert(
                        user@,
                        old(self).ids_of(user@).push(escrow_id),
                    ));
                }
            },
        }
    }

    /// The identifiers recorded for `user`, oldest first; empty if none.
    pub fn lookup(&self, user: &Identity) -> (r: Vec<u64>)
        requires
            self.wf(),
        ensures
            r@ == self.ids_of(user@),
    {
        match self.find(user) {
            Some(i) => {
                proof {
                    self.lemma_slot(i as int);
                }
                let ids = &self.entries[i].ids;
                let mut r: Vec<u64> = Vec::new();
                let mut k: usize = 0;
                while k < ids.len()
                    invariant
                        k <= ids@.len(),
                        r@ == ids@.subrange(0, k as int),
                    decreases ids@.len() - k,
                {
                    r.push(ids[k]);
                    proof {
                        assert(r@ =~= ids@.subrange(0, k + 1));
                    }
                    k += 1;
                }
                proof {
                    assert(r@ =~= ids@);
                }
                r
            },
            None => {
                proof {
                    assert(self.slot(user@) is None);
                }
                Vec::new()
            },
        }
    }
}

} // verus!
