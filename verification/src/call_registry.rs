//! The call registry: every call in progress, found by id.

use vstd::prelude::*;
use crate::call_manager::{Call, CallView};
use crate::keyed::{distinct, lemma_table_absent, lemma_table_at, lemma_table_key,
    lemma_table_push, lemma_table_remove, lemma_table_update, position_of, table};
use crate::user::CallStatus;

verus! {

/// The ids of a sequence of calls, position by position.
spec fn call_ids(calls: Seq<Call>) -> Seq<Seq<char>> {
    calls.map_values(|c: Call| c.call_id@)
}

/// The views of a sequence of calls, position by position.
spec fn call_views(calls: Seq<Call>) -> Seq<CallView> {
    calls.map_values(|c: Call| c@)
}

/// The statuses a call can have while its record exists.
pub open spec fn is_active(status: CallStatus) -> bool {
    status == CallStatus::Calling || status == CallStatus::InCall || status == CallStatus::OnHold
}

/// Every call is filed under its own id and has an active status.
pub open spec fn well_kept(calls: Map<Seq<char>, CallView>) -> bool {
    forall|k: Seq<char>|
        calls.contains_key(k) ==> (#[trigger] calls[k]).call_id == k && is_active(calls[k].status)
}

/// The calls of `calls` that have an active status.
spec fn active_part(calls: Map<Seq<char>, CallView>) -> Map<Seq<char>, CallView> {
    Map::new(
        |k: Seq<char>| calls.contains_key(k) && is_active(calls[k].status),
        |k: Seq<char>| calls[k],
    )
}

/// `calls` with the status of call `id` set to `status`; unchanged where
/// there is no such call.
pub open spec fn call_status_set(
    calls: Map<Seq<char>, CallView>,
    id: Seq<char>,
    status: CallStatus,
) -> Map<Seq<char>, CallView> {
    if calls.contains_key(id) {
        calls.insert(id, calls[id].with_status(status))
    } else {
        calls
    }
}

/// `listed` holds the calls of `calls` that still await an answer from
/// `callee`, each exactly once, in some order.
pub open spec fn lists_incoming(
    listed: Seq<Call>,
    calls: Map<Seq<char>, CallView>,
    callee: Seq<char>,
) -> bool {
    &&& forall|i: int|
        0 <= i < listed.len() ==> {
            &&& calls.contains_key(#[trigger] listed[i].call_id@)
            &&& calls[listed[i].call_id@] == listed[i]@
            &&& listed[i]@.awaits(callee)
        }
    &&& forall|i: int, j: int|
        0 <= i < j < listed.len() ==> listed[i].call_id@ != listed[j].call_id@
    &&& forall|k: Seq<char>|
        calls.contains_key(k) && calls[k].awaits(callee) ==> exists|i: int|
            0 <= i < listed.len() && #[trigger] listed[i].call_id@ == k
}

/// Calls kept in a vector, no id twice, each with an active status.
pub struct CallRegistry {
    entries: Vec<Call>,
}

impl View for CallRegistry {
    type V = Map<Seq<char>, CallView>;

    /// The entries, read as a map from call id to call. Only entries with an
    /// active status are read, so that the map is well kept whatever the
    /// vector holds; the type's invariant admits no other entries, and
    /// `lemma_all_active` shows that none is left out.
    closed spec fn view(&self) -> Map<Seq<char>, CallView> {
        active_part(table(call_ids(self.entries@), call_views(self.entries@)))
    }
}

impl CallRegistry {
    #[verifier::type_invariant]
    spec fn sound(&self) -> bool {
        &&& distinct(call_ids(self.entries@))
        &&& forall|i: int| 0 <= i < self.entries@.len() ==> is_active(self.entries@[i].status)
    }

    /// Whatever the registry holds, each call is filed under its own id and
    /// has an active status.
    pub proof fn lemma_well_kept(&self)
        ensures
            well_kept(self@),
    {
        let keys = call_ids(self.entries@);
        assert forall|k: Seq<char>| self@.contains_key(k) implies (#[trigger] self@[k]).call_id
            == k && is_active(self@[k].status) by {
            assert(keys.contains(k));
            let i = position_of(keys, k);
            assert(keys[i] == k);
        }
    }

    /// Sound entries are read as the table of all of them.
    proof fn lemma_all_active(entries: Seq<Call>)
        requires
            distinct(call_ids(entries)),
            forall|i: int| 0 <= i < entries.len() ==> is_active(entries[i].status),
        ensures
            active_part(table(call_ids(entries), call_views(entries))) == table(
                call_ids(entries),
                call_views(entries),
            ),
    {
        let keys = call_ids(entries);
        let vals = call_views(entries);
        assert forall|k: Seq<char>| table(keys, vals).contains_key(k) implies is_active(
            (#[trigger] table(keys, vals)[k]).status,
        ) by {
            lemma_table_key(keys, vals, k);
        }
        assert(active_part(table(keys, vals)) =~= table(keys, vals));
    }

    /// A registry without calls.
    pub fn new() -> (registry: CallRegistry)
        ensures
            registry@ == Map::<Seq<char>, CallView>::empty(),
    {
        let registry = CallRegistry { entries: Vec::new() };
        assert(registry@ =~= Map::<Seq<char>, CallView>::empty());
        registry
    }

    /// The position of the call with this id, if there is one.
    fn position(&self, id: &str) -> (found: Option<usize>)
        ensures
            match found {
                Some(i) => i < self.entries@.len() && self.entries@[i as int].call_id@ == id@,
                None => forall|i: int|
                    0 <= i < self.entries@.len() ==> self.entries@[i].call_id@ != id@,
            },
    {
        let mut i: usize = 0;
        while i < self.entries.len()
            invariant
                i <= self.entries@.len(),
                forall|j: int| 0 <= j < i ==> self.entries@[j].call_id@ != id@,
            decreases self.entries@.len() - i,
        {
            if self.entries[i].call_id.as_str().eq(id) {
                return Some(i);
            }
            i += 1;
        }
        None
    }

    /// The call filed under `id`.
    pub fn get(&self, id: &str) -> (found: Option<&Call>)
        ensures
            match found {
                Some(call) => self@.contains_key(id@) && self@[id@] == call@,
                None => !self@.contains_key(id@),
            },
    {
        proof {
            use_type_invariant(self);
            Self::lemma_all_active(self.entries@);
        }
        match self.position(id) {
            Some(i) => {
                proof {
                    lemma_table_at(call_ids(self.entries@), call_views(self.entries@), i as int);
                }
                Some(&self.entries[i])
            },
            None => {
                proof {
                    lemma_table_absent(call_ids(self.entries@), call_views(self.entries@), id@);
                }
                None
            },
        }
    }

    /// Files `call` under its id, in place of any call filed there before.
    pub fn insert(&mut self, call: Call)
        requires
            is_active(call.status),
        ensures
            final(self)@ == old(self)@.insert(call.call_id@, call@),
    {
        proof {
            use_type_invariant(&*self);
        }
        let found = self.position(call.call_id.as_str());
        // The entries are taken out, changed and put back, so that the
        // invariant is asked of the finished vector only.
        let mut entries: Vec<Call> = Vec::new();
        std::mem::swap(&mut self.entries, &mut entries);
        let ghost before = entries@;
        match found {
            Some(i) => {
                entries.set(i, call);
                proof {
                    assert(call_ids(entries@) =~= call_ids(before));
                    assert(call_views(entries@) =~= call_views(before).update(i as int, call@));
                    lemma_table_update(call_ids(before), call_views(before), i as int, call@);
                }
            },
            None => {
                entries.push(call);
                proof {
                    assert(call_ids(entries@) =~= call_ids(before).push(call.call_id@));
                    assert(call_views(entries@) =~= call_views(before).push(call@));
                    lemma_table_push(call_ids(before), call_views(before), call.call_id@, call@);
                }
            },
        }
        proof {
            Self::lemma_all_active(entries@);
        }
        self.entries = entries;
    }

    /// Sets the status of the call filed under `id`.
    pub fn set_status(&mut self, id: &str, status: CallStatus) -> (updated: bool)
        requires
            is_active(status),
        ensures
            updated == old(self)@.contains_key(id@),
            final(self)@ == call_status_set(old(self)@, id@, status),
    {
        proof {
            use_type_invariant(&*self);
            Self::lemma_all_active(self.entries@);
        }
        match self.position(id) {
            Some(i) => {
                let mut entries: Vec<Call> = Vec::new();
                std::mem::swap(&mut self.entries, &mut entries);
                let ghost before = entries@;
                entries[i].status = status;
                proof {
                    assert(call_ids(entries@) =~= call_ids(before));
                    assert(call_views(entries@) =~= call_views(before).update(
                        i as int,
                        before[i as int]@.with_status(status),
                    ));
                    lemma_table_at(call_ids(before), call_views(before), i as int);
                    lemma_table_update(
                        call_ids(before),
                        call_views(before),
                        i as int,
                        before[i as int]@.with_status(status),
                    );
                    Self::lemma_all_active(entries@);
                }
                self.entries = entries;
                true
            },
            None => {
                proof {
                    lemma_table_absent(call_ids(self.entries@), call_views(self.entries@), id@);
                }
                false
            },
        }
    }

    /// Takes the call filed under `id` out of the registry.
    pub fn remove(&mut self, id: &str) -> (removed: Option<Call>)
        ensures
            final(self)@ == old(self)@.remove(id@),
            match removed {
                Some(call) => old(self)@.contains_key(id@) && old(self)@[id@] == call@,
                None => !old(self)@.contains_key(id@) && final(self)@ == old(self)@,
            },
    {
        proof {
            use_type_invariant(&*self);
            Self::lemma_all_active(self.entries@);
        }
        match self.position(id) {
            Some(i) => {
                let mut entries: Vec<Call> = Vec::new();
                std::mem::swap(&mut self.entries, &mut entries);
                let ghost before = entries@;
                let call = entries.remove(i);
                proof {
                    assert(call_ids(entries@) =~= call_ids(before).remove(i as int));
                    assert(call_views(entries@) =~= call_views(before).remove(i as int));
                    lemma_table_at(call_ids(before), call_views(before), i as int);
                    lemma_table_remove(call_ids(before), call_views(before), i as int);
                    Self::lemma_all_active(entries@);
                }
                self.entries = entries;
                Some(call)
            },
            None => {
                proof {
                    lemma_table_absent(call_ids(self.entries@), call_views(self.entries@), id@);
                    assert(self@.remove(id@) =~= self@);
                }
                None
            },
        }
    }

    /// The calls that await an answer from `callee`.
    pub fn incoming_for(&self, callee: &str) -> (listed: Vec<Call>)
        ensures
            lists_incoming(listed@, self@, callee@),
    {
        proof {
            use_type_invariant(self);
            Self::lemma_all_active(self.entries@);
        }
        let ghost keys = call_ids(self.entries@);
        let ghost vals = call_views(self.entries@);
        let mut listed: Vec<Call> = Vec::new();
        let ghost mut source: Seq<int> = Seq::empty();
        let mut i: usize = 0;
        while i < self.entries.len()
            invariant
                i <= self.entries@.len(),
                source.len() == listed@.len(),
                forall|j: int|
                    0 <= j < listed@.len() ==> 0 <= #[trigger] source[j] < i && listed@[j]
                        == self.entries@[source[j]] && listed@[j]@.awaits(callee@),
                forall|j: int, l: int| 0 <= j < l < listed@.len() ==> source[j] < source[l],
                forall|p: int|
                    0 <= p < i && self.entries@[p]@.awaits(callee@) ==> exists|j: int|
                        0 <= j < listed@.len() && #[trigger] source[j] == p,
            decreases self.entries@.len() - i,
        {
            let entry = &self.entries[i];
            if entry.callee_id.as_str().eq(callee) && entry.status == CallStatus::Calling {
                let ghost earlier = source;
                listed.push(entry.clone());
                proof {
                    source = source.push(i as int);
                    assert forall|j: int| 0 <= j < listed@.len() implies 0 <= #[trigger] source[j]
                        < i + 1 && listed@[j] == self.entries@[source[j]] && listed@[j]@.awaits(
                        callee@,
                    ) by {
                        if j < earlier.len() {
                            assert(source[j] == earlier[j]);
                        }
                    }
                    assert forall|p: int|
                        0 <= p < i + 1 && self.entries@[p]@.awaits(callee@) implies exists|j: int|
                        0 <= j < listed@.len() && #[trigger] source[j] == p by {
                        if p < i {
                            let j = choose|j: int| 0 <= j < earlier.len() && earlier[j] == p;
                            assert(source[j] == p);
                        } else {
                            assert(source[earlier.len() as int] == p);
                        }
                    }
                }
            }
            i += 1;
        }
        proof {
            assert forall|j: int| 0 <= j < listed@.len() implies {
                &&& self@.contains_key(#[trigger] listed@[j].call_id@)
                &&& self@[listed@[j].call_id@] == listed@[j]@
                &&& listed@[j]@.awaits(callee@)
            } by {
                lemma_table_at(keys, vals, source[j]);
            }
            assert forall|j: int, l: int| 0 <= j < l < listed@.len() implies listed@[j].call_id@
                != listed@[l].call_id@ by {
                assert(keys[source[j]] != keys[source[l]]);
            }
            assert forall|k: Seq<char>|
                self@.contains_key(k) && self@[k].awaits(callee@) implies exists|j: int|
                0 <= j < listed@.len() && #[trigger] listed@[j].call_id@ == k by {
                lemma_table_key(keys, vals, k);
                let p = position_of(keys, k);
                let j = choose|j: int| 0 <= j < listed@.len() && source[j] == p;
                assert(listed@[j].call_id@ == k);
            }
            assert(lists_incoming(listed@, self@, callee@));
        }
        listed
    }
}

} // verus!
