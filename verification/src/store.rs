//! The record store: the authoritative collection of user records.
//!
//! The store is modelled as the sequence of the records it holds, in storage
//! order; callers that serve it over HTTP promise no order anyway. Its
//! intended invariant — at most one record per `id` — is stated by
//! [`Store::wf`]: constructors establish it and every operation preserves it.

use vstd::prelude::*;

use crate::user::{User, UserView};

verus! {

/// Why a store operation failed.
#[derive(Debug, PartialEq, Eq, Structural)]
pub enum StoreError {
    /// A create targeted an `id` that is already present.
    Conflict,
    /// A replace found no record fully equal to the incoming one.
    NotFound,
}

/// The sequence of record values a sequence of records stands for.
pub open spec fn views_of(users: Seq<User>) -> Seq<UserView> {
    users.map_values(|u: User| u@)
}

/// The record the store is seeded with.
pub open spec fn seed_record() -> UserView {
    UserView { id: 1, name: "John Doe"@, email: "john.doe@example.com"@ }
}

/// Some record in `s` has identity key `id`.
pub open spec fn contains_id(s: Seq<UserView>, id: u32) -> bool {
    exists|i: int| 0 <= i < s.len() && s[i].id == id
}

/// No two records in `s` share an identity key.
pub open spec fn ids_unique(s: Seq<UserView>) -> bool {
    forall|i: int, j: int| 0 <= i < j < s.len() ==> s[i].id != s[j].id
}

/// The shared in-memory collection of user records.
pub struct Store {
    users: Vec<User>,
}

impl View for Store {
    type V = Seq<UserView>;

    closed spec fn view(&self) -> Seq<UserView> {
        views_of(self.users@)
    }
}

impl Store {
    /// The intended invariant: at most one record per `id` value.
    pub open spec fn wf(&self) -> bool {
        ids_unique(self@)
    }

    /// An empty store.
    pub fn new() -> (s: Store)
        ensures
            s@ == Seq::<UserView>::empty(),
            s.wf(),
    {
        let s = Store { users: Vec::new() };
        proof {
            assert(s@ =~= Seq::<UserView>::empty());
        }
        s
    }

    /// The store the service starts from: a single pre-seeded record.
    pub fn seeded() -> (s: Store)
        ensures
            s@ == seq![seed_record()],
            s.wf(),
    {
        let mut users: Vec<User> = Vec::new();
        users.push(
            User {
                id: 1,
                name: "John Doe".to_owned(),
                email: "john.doe@example.com".to_owned(),
            },
        );
        let s = Store { users };
        proof {
            assert(s@ =~= seq![seed_record()]);
        }
        s
    }

    /// All current records, copied out in storage order.
    pub fn list(&self) -> (r: Vec<User>)
        ensures
            views_of(r@) == self@,
    {
        let mut out: Vec<User> = Vec::new();
        let mut i: usize = 0;
        while i < self.users.len()
            invariant
                0 <= i <= self.users.len(),
                views_of(out@) =~= self@.take(i as int),
            decreases self.users.len() - i,
        {
            let copy = self.users[i].clone();
            let ghost prev = out@;
            out.push(copy);
            proof {
                prev.lemma_push_map_commute(|u: User| u@, copy);
                assert(copy@ == self@[i as int]);
                assert(views_of(out@) =~= self@.take(i as int + 1)) by {
                    assert(views_of(out@) == views_of(prev).push(copy@));
                    assert(self@.take(i as int + 1) =~= self@.take(i as int).push(self@[i as int]));
                }
            }
            i += 1;
        }
        proof {
            assert(views_of(out@) =~= self@);
        }
        out
    }

    /// Adds `user` unless some record already carries its `id`; the store is
    /// unchanged on conflict and grows by exactly that record on success.
    pub fn insert(&mut self, user: User) -> (r: Result<(), StoreError>)
        ensures
            contains_id(old(self)@, user@.id) ==> {
                &&& r == Err::<(), StoreError>(StoreError::Conflict)
                &&& final(self)@ == old(self)@
            },
            !contains_id(old(self)@, user@.id) ==> {
                &&& r == Ok::<(), StoreError>(())
                &&& final(self)@ == old(self)@.push(user@)
            },
            old(self).wf() ==> final(self).wf(),
    {
        let mut i: usize = 0;
        while i < self.users.len()
            invariant
                0 <= i <= self.users.len(),
                *self == *old(self),
                forall|j: int| 0 <= j < i ==> self@[j].id != user@.id,
            decreases self.users.len() - i,
        {
            if self.users[i].id == user.id {
                proof {
                    assert(contains_id(old(self)@, user@.id)) by {
                        assert(old(self)@[i as int].id == user@.id);
                    }
                }
                return Err(StoreError::Conflict);
            }
            i += 1;
        }
        self.users.push(user);
        proof {
            assert(self@ =~= old(self)@.push(user@));
        }
        Ok(())
    }

    /// Looks up a record fully equal to `user` — equality over all three
    /// fields, not over `id` alone — and replaces it with `user` when found,
    /// which leaves the held values as they were; fails with `NotFound`, and
    /// changes nothing, when no equal record exists.
    pub fn replace(&mut self, user: User) -> (r: Result<(), StoreError>)
        ensures
            final(self)@ == old(self)@,
            old(self)@.contains(user@) ==> r == Ok::<(), StoreError>(()),
            !old(self)@.contains(user@) ==> r == Err::<(), StoreError>(StoreError::NotFound),
            old(self).wf() ==> final(self).wf(),
    {
        let mut i: usize = 0;
        while i < self.users.len()
            invariant
                0 <= i <= self.users.len(),
                *self == *old(self),
                forall|j: int| 0 <= j < i ==> self@[j] != user@,
            decreases self.users.len() - i,
        {
            if self.users[i] == user {
                proof {
                    assert(old(self)@.contains(user@)) by {
                        assert(old(self)@[i as int] == user@);
                    }
                }
                self.users.set(i, user);
                proof {
                    assert(self@ =~= old(self)@);
                }
                return Ok(());
            }
            i += 1;
        }
        proof {
            assert(forall|j: int| 0 <= j < old(self)@.len() ==> old(self)@[j] != user@);
        }
        Err(StoreError::NotFound)
    }
}

} // verus!
