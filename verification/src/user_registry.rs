//! The user registry: every known user, found by id.

use vstd::prelude::*;
use crate::keyed::{distinct, lemma_table_absent, lemma_table_at, lemma_table_key,
    lemma_table_push, lemma_table_update, position_of, table};
use crate::user::{CallStatus, User, UserView};

verus! {

/// The ids of a sequence of users, position by position.
spec fn user_ids(users: Seq<User>) -> Seq<Seq<char>> {
    users.map_values(|u: User| u.id@)
}

/// The views of a sequence of users, position by position.
spec fn user_views(users: Seq<User>) -> Seq<UserView> {
    users.map_values(|u: User| u@)
}

/// `users` with the status of `id` set to `status`; unchanged where `id` is
/// not registered.
pub open spec fn status_set(
    users: Map<Seq<char>, UserView>,
    id: Seq<char>,
    status: CallStatus,
) -> Map<Seq<char>, UserView> {
    if users.contains_key(id) {
        users.insert(id, users[id].with_status(status))
    } else {
        users
    }
}

/// `users` with the address of `id` set to `ip`; unchanged where `id` is not
/// registered.
pub open spec fn address_set(
    users: Map<Seq<char>, UserView>,
    id: Seq<char>,
    ip: Seq<char>,
) -> Map<Seq<char>, UserView> {
    if users.contains_key(id) {
        users.insert(id, users[id].with_address(ip))
    } else {
        users
    }
}

/// Every user is filed under its own id.
pub open spec fn filed_by_id(users: Map<Seq<char>, UserView>) -> bool {
    forall|k: Seq<char>| users.contains_key(k) ==> (#[trigger] users[k]).id == k
}

/// `listed` holds the users of `users` that are not offline, each exactly
/// once, in some order.
pub open spec fn lists_active(listed: Seq<User>, users: Map<Seq<char>, UserView>) -> bool {
    &&& forall|i: int|
        0 <= i < listed.len() ==> {
            &&& users.contains_key(#[trigger] listed[i].id@)
            &&& users[listed[i].id@] == listed[i]@
            &&& listed[i].status != CallStatus::Offline
        }
    &&& forall|i: int, j: int| 0 <= i < j < listed.len() ==> listed[i].id@ != listed[j].id@
    &&& forall|k: Seq<char>|
        users.contains_key(k) && users[k].status != CallStatus::Offline ==> exists|i: int|
            0 <= i < listed.len() && #[trigger] listed[i].id@ == k
}

/// Users kept in a vector, no id twice.
pub struct UserRegistry {
    entries: Vec<User>,
}

impl View for UserRegistry {
    type V = Map<Seq<char>, UserView>;

    /// The entries, read as a map from user id to user.
    closed spec fn view(&self) -> Map<Seq<char>, UserView> {
        table(user_ids(self.entries@), user_views(self.entries@))
    }
}

impl UserRegistry {
    #[verifier::type_invariant]
    spec fn no_id_twice(&self) -> bool {
        distinct(user_ids(self.entries@))
    }

    /// Whatever the registry holds, each user is filed under its own id.
    pub proof fn lemma_filed_by_id(&self)
        ensures
            filed_by_id(self@),
    {
        let keys = user_ids(self.entries@);
        assert forall|k: Seq<char>| self@.contains_key(k) implies (#[trigger] self@[k]).id == k by {
            assert(keys.contains(k));
            let i = position_of(keys, k);
            assert(keys[i] == k);
        }
    }

    /// A registry without users.
    pub fn new() -> (registry: UserRegistry)
        ensures
            registry@ == Map::<Seq<char>, UserView>::empty(),
    {
        let registry = UserRegistry { entries: Vec::new() };
        assert(registry@ =~= Map::<Seq<char>, UserView>::empty());
        registry
    }

    /// The position of the user with this id, if there is one.
    fn position(&self, id: &str) -> (found: Option<usize>)
        ensures
            match found {
                Some(i) => i < self.entries@.len() && self.entries@[i as int].id@ == id@,
                None => forall|i: int| 0 <= i < self.entries@.len() ==> self.entries@[i].id@ != id@,
            },
    {
        let mut i: usize = 0;
        while i < self.entries.len()
            invariant
                i <= self.entries@.len(),
                forall|j: int| 0 <= j < i ==> self.entries@[j].id@ != id@,
            decreases self.entries@.len() - i,
        {
            if self.entries[i].id.as_str().eq(id) {
                return Some(i);
            }
            i += 1;
        }
        None
    }

    /// The user registered under `id`.
    pub fn get(&self, id: &str) -> (found: Option<&User>)
        ensures
            match found {
                Some(user) => self@.contains_key(id@) && self@[id@] == user@ && user.id@ == id@,
                None => !self@.contains_key(id@),
            },
    {
        proof {
            use_type_invariant(self);
        }
        match self.position(id) {
            Some(i) => {
                proof {
                    lemma_table_at(user_ids(self.entries@), user_views(self.entries@), i as int);
                }
                Some(&self.entries[i])
            },
            None => {
                proof {
                    lemma_table_absent(user_ids(self.entries@), user_views(self.entries@), id@);
                }
                None
            },
        }
    }

    /// Files `user` under its id, in place of any user filed there before.
    pub fn insert(&mut self, user: User)
        ensures
            final(self)@ == old(self)@.insert(user.id@, user@),
    {
        proof {
            use_type_invariant(&*self);
        }
        let found = self.position(user.id.as_str());
        // The entries are taken out, changed and put back, so that the
        // invariant is asked of the finished vector only.
        let mut entries: Vec<User> = Vec::new();
        std::mem::swap(&mut self.entries, &mut entries);
        let ghost before = entries@;
        match found {
            Some(i) => {
                entries.set(i, user);
                proof {
                    assert(user_ids(entries@) =~= user_ids(before));
                    assert(user_views(entries@) =~= user_views(before).update(i as int, user@));
                    lemma_table_update(user_ids(before), user_views(before), i as int, user@);
                }
            },
            None => {
                entries.push(user);
                proof {
                    assert(user_ids(entries@) =~= user_ids(before).push(user.id@));
                    assert(user_views(entries@) =~= user_views(before).push(user@));
                    lemma_table_push(user_ids(before), user_views(before), user.id@, user@);
                }
            },
        }
        self.entries = entries;
    }

    /// Sets the status of the user registered under `id`.
    pub fn set_status(&mut self, id: &str, status: CallStatus) -> (updated: bool)
        ensures
            updated == old(self)@.contains_key(id@),
            final(self)@ == status_set(old(self)@, id@, status),
    {
        proof {
            use_type_invariant(&*self);
        }
        match self.position(id) {
            Some(i) => {
                let mut entries: Vec<User> = Vec::new();
                std::mem::swap(&mut self.entries, &mut entries);
                let ghost before = entries@;
                entries[i].set_status(status);
                proof {
                    assert(user_ids(entries@) =~= user_ids(before));
                    assert(user_views(entries@) =~= user_views(before).update(
                        i as int,
                        before[i as int]@.with_status(status),
                    ));
                    lemma_table_at(user_ids(before), user_views(before), i as int);
                    lemma_table_update(
                        user_ids(before),
                        user_views(before),
                        i as int,
                        before[i as int]@.with_status(status),
                    );
                }
                self.entries = entries;
                true
            },
            None => {
                proof {
                    lemma_table_absent(user_ids(self.entries@), user_views(self.entries@), id@);
                }
                false
            },
        }
    }

    /// Sets the address of the user registered under `id`.
    pub fn set_address(&mut self, id: &str, ip: String) -> (updated: bool)
        ensures
            updated == old(self)@.contains_key(id@),
            final(self)@ == address_set(old(self)@, id@, ip@),
    {
        proof {
            use_type_invariant(&*self);
        }
        match self.position(id) {
            Some(i) => {
                let mut entries: Vec<User> = Vec::new();
                std::mem::swap(&mut self.entries, &mut entries);
                let ghost before = entries@;
                entries[i].set_ip_address(ip);
                proof {
                    assert(user_ids(entries@) =~= user_ids(before));
                    assert(user_views(entries@) =~= user_views(before).update(
                        i as int,
                        before[i as int]@.with_address(ip@),
                    ));
                    lemma_table_at(user_ids(before), user_views(before), i as int);
                    lemma_table_update(
                        user_ids(before),
                        user_views(before),
                        i as int,
                        before[i as int]@.with_address(ip@),
                    );
                }
                self.entries = entries;
                true
            },
            None => {
                proof {
                    lemma_table_absent(user_ids(self.entries@), user_views(self.entries@), id@);
                }
                false
            },
        }
    }

    /// The users that are not offline.
    pub fn active(&self) -> (listed: Vec<User>)
        ensures
            lists_active(listed@, self@),
    {
        proof {
            use_type_invariant(self);
        }
        let ghost keys = user_ids(self.entries@);
        let ghost vals = user_views(self.entries@);
        let mut listed: Vec<User> = Vec::new();
        let ghost mut source: Seq<int> = Seq::empty();
        let mut i: usize = 0;
        while i < self.entries.len()
            invariant
                i <= self.entries@.len(),
                distinct(user_ids(self.entries@)),
                source.len() == listed@.len(),
                forall|j: int|
                    0 <= j < listed@.len() ==> 0 <= #[trigger] source[j] < i && listed@[j]
                        == self.entries@[source[j]] && listed@[j].status != CallStatus::Offline,
                forall|j: int, l: int| 0 <= j < l < listed@.len() ==> source[j] < source[l],
                forall|p: int|
                    0 <= p < i && self.entries@[p].status != CallStatus::Offline ==> exists|j: int|
                        0 <= j < listed@.len() && #[trigger] source[j] == p,
            decreases self.entries@.len() - i,
        {
            if self.entries[i].status != CallStatus::Offline {
                let ghost earlier = source;
                listed.push(self.entries[i].clone());
                proof {
                    source = source.push(i as int);
                    assert forall|j: int| 0 <= j < listed@.len() implies 0 <= #[trigger] source[j]
                        < i + 1 && listed@[j] == self.entries@[source[j]] && listed@[j].status
                        != CallStatus::Offline by {
                        if j < earlier.len() {
                            assert(source[j] == earlier[j]);
                        }
                    }
                    assert forall|p: int|
                        0 <= p < i + 1 && self.entries@[p].status
                            != CallStatus::Offline implies exists|j: int|
                        0 <= j < listed@.len() && #[trigger] source[j] == p by {
                        if p < i {
                            let j = choose|j: int| 0 <= j < earlier.len() && earlier[j] == p;
                            assert(source[j] == p);
                        } else {
                            assert(source[earlier.len() as int] == p);
                        }
                    }
                }
            }
            i += 1;
        }
        proof {
            assert forall|j: int| 0 <= j < listed@.len() implies {
                &&& self@.contains_key(#[trigger] listed@[j].id@)
                &&& self@[listed@[j].id@] == listed@[j]@
                &&& listed@[j].status != CallStatus::Offline
            } by {
                lemma_table_at(keys, vals, source[j]);
            }
            assert forall|j: int, l: int| 0 <= j < l < listed@.len() implies listed@[j].id@
                != listed@[l].id@ by {
                assert(keys[source[j]] != keys[source[l]]);
            }
            assert forall|k: Seq<char>|
                self@.contains_key(k) && self@[k].status != CallStatus::Offline implies exists|
                j: int,
            |
                0 <= j < listed@.len() && #[trigger] listed@[j].id@ == k by {
                lemma_table_key(keys, vals, k);
                let p = position_of(keys, k);
                let j = choose|j: int| 0 <= j < listed@.len() && source[j] == p;
                assert(listed@[j].id@ == k);
            }
            assert(lists_active(listed@, self@));
        }
        listed
    }
}

} // verus!
