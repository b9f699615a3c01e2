//! Calls and the session store that tracks them together with their users.

use vstd::prelude::*;
use crate::call_registry::{is_active, lists_incoming, well_kept, CallRegistry};
use crate::trusted::{is_random_uuid_text, random_uuid, unix_now};
use crate::user::{CallStatus, User, UserView};
use crate::user_registry::{address_set, filed_by_id, lists_active, status_set, UserRegistry};

verus! {

/// A call between two users, from its creation to its end.
#[derive(Debug)]
pub struct Call {
    pub call_id: String,
    pub caller_id: String,
    pub callee_id: String,
    pub status: CallStatus,
    pub timestamp: i64,
}

/// What a `Call` holds, as mathematical values.
pub struct CallView {
    pub call_id: Seq<char>,
    pub caller_id: Seq<char>,
    pub callee_id: Seq<char>,
    pub status: CallStatus,
    pub timestamp: int,
}

impl CallView {
    /// The record of a call that `caller_id` has just placed to `callee_id`
    /// at time `now`.
    pub open spec fn placed(
        call_id: Seq<char>,
        caller_id: Seq<char>,
        callee_id: Seq<char>,
        now: int,
    ) -> CallView {
        CallView { call_id, caller_id, callee_id, status: CallStatus::Calling, timestamp: now }
    }

    /// The same call with another status.
    pub open spec fn with_status(self, status: CallStatus) -> CallView {
        CallView { status, ..self }
    }

    /// The call still awaits an answer from `callee`.
    pub open spec fn awaits(self, callee: Seq<char>) -> bool {
        self.callee_id == callee && self.status == CallStatus::Calling
    }
}

impl View for Call {
    type V = CallView;

    open spec fn view(&self) -> CallView {
        CallView {
            call_id: self.call_id@,
            caller_id: self.caller_id@,
            callee_id: self.callee_id@,
            status: self.status,
            timestamp: self.timestamp as int,
        }
    }
}

impl Clone for Call {
    fn clone(&self) -> (copy: Self)
        ensures
            copy == *self,
    {
        Call {
            call_id: self.call_id.clone(),
            caller_id: self.caller_id.clone(),
            callee_id: self.callee_id.clone(),
            status: self.status,
            timestamp: self.timestamp,
        }
    }
}

/// The users and the calls of a session store, each found by id.
pub struct SessionView {
    pub users: Map<Seq<char>, UserView>,
    pub calls: Map<Seq<char>, CallView>,
}

impl SessionView {
    /// No users, no calls.
    pub open spec fn empty() -> SessionView {
        SessionView { users: Map::empty(), calls: Map::empty() }
    }

    /// Every user and every call is filed under its own id, and every call
    /// has an active status.
    pub open spec fn wf(self) -> bool {
        filed_by_id(self.users) && well_kept(self.calls)
    }

    /// The parties of call `call_id` show the status of their call: each of
    /// them that is registered has the call's status, but for the callee of
    /// a call that is not yet answered, who is not told by a change of
    /// status.
    pub open spec fn parties_follow(self, call_id: Seq<char>) -> bool {
        let call = self.calls[call_id];
        &&& self.calls.contains_key(call_id)
        &&& self.users.contains_key(call.caller_id) ==> self.users[call.caller_id].status
            == call.status
        &&& self.users.contains_key(call.callee_id) && call.status != CallStatus::Calling
            ==> self.users[call.callee_id].status == call.status
    }

    /// A user registers under `id` at time `now`, in place of any user that
    /// had this id before.
    pub open spec fn register(self, id: Seq<char>, username: Seq<char>, now: int) -> SessionView {
        SessionView { users: self.users.insert(id, UserView::registered(id, username, now)), ..self }
    }

    /// The status of user `id` becomes `status`; nothing changes where the
    /// user is unknown.
    pub open spec fn set_status(self, id: Seq<char>, status: CallStatus) -> SessionView {
        SessionView { users: status_set(self.users, id, status), ..self }
    }

    /// The address of user `id` becomes `ip`; nothing changes where the user
    /// is unknown.
    pub open spec fn set_address(self, id: Seq<char>, ip: Seq<char>) -> SessionView {
        SessionView { users: address_set(self.users, id, ip), ..self }
    }

    /// User `id` goes offline and stays registered.
    pub open spec fn disconnect(self, id: Seq<char>) -> SessionView {
        self.set_status(id, CallStatus::Offline)
    }

    /// A newly placed call is filed and its caller, where registered, shown
    /// as calling. The callee is left as it is.
    pub open spec fn create_call(self, call: CallView) -> SessionView {
        SessionView {
            users: status_set(self.users, call.caller_id, CallStatus::Calling),
            calls: self.calls.insert(call.call_id, call),
        }
    }

    /// The call and both its parties take on `status`; nothing changes where
    /// the call is unknown.
    pub open spec fn transition(self, call_id: Seq<char>, status: CallStatus) -> SessionView {
        if self.calls.contains_key(call_id) {
            let call = self.calls[call_id];
            SessionView {
                users: status_set(
                    status_set(self.users, call.caller_id, status),
                    call.callee_id,
                    status,
                ),
                calls: self.calls.insert(call_id, call.with_status(status)),
            }
        } else {
            self
        }
    }

    /// The call's record is removed and both its parties become idle; nothing
    /// changes where the call is unknown.
    pub open spec fn close(self, call_id: Seq<char>) -> SessionView {
        if self.calls.contains_key(call_id) {
            let call = self.calls[call_id];
            SessionView {
                users: status_set(
                    status_set(self.users, call.caller_id, CallStatus::Idle),
                    call.callee_id,
                    CallStatus::Idle,
                ),
                calls: self.calls.remove(call_id),
            }
        } else {
            self
        }
    }

    /// Accepting sets the call and both its parties to in-call.
    pub open spec fn accept(self, call_id: Seq<char>) -> SessionView {
        self.transition(call_id, CallStatus::InCall)
    }

    /// Holding sets the call and both its parties to on-hold.
    pub open spec fn hold(self, call_id: Seq<char>) -> SessionView {
        self.transition(call_id, CallStatus::OnHold)
    }

    /// Resuming a call is accepting it again.
    pub open spec fn resume(self, call_id: Seq<char>) -> SessionView {
        self.accept(call_id)
    }

    /// Rejecting closes the call.
    pub open spec fn reject(self, call_id: Seq<char>) -> SessionView {
        self.close(call_id)
    }

    /// Ending closes the call.
    pub open spec fn end(self, call_id: Seq<char>) -> SessionView {
        self.close(call_id)
    }
}

/// The session store: the user registry and the call registry, changed
/// together.
pub struct CallManager {
    users: UserRegistry,
    calls: CallRegistry,
}

impl View for CallManager {
    type V = SessionView;

    closed spec fn view(&self) -> SessionView {
        SessionView { users: self.users@, calls: self.calls@ }
    }
}

impl CallManager {
    /// Whatever the store holds, every user and every call is filed under
    /// its own id, and every call has an active status.
    pub proof fn lemma_wf(&self)
        ensures
            self@.wf(),
    {
        self.users.lemma_filed_by_id();
        self.calls.lemma_well_kept();
    }

    /// A store without users and without calls.
    pub fn new() -> (manager: CallManager)
        ensures
            manager@ == SessionView::empty(),
    {
        CallManager { users: UserRegistry::new(), calls: CallRegistry::new() }
    }

    /// Registers a user under `user_id` at the time the clock shows now.
    pub fn register_user(&mut self, user_id: String, username: String)
        ensures
            final(self)@.users.contains_key(user_id@),
            0 <= final(self)@.users[user_id@].last_heartbeat,
            final(self)@ == old(self)@.register(
                user_id@,
                username@,
                final(self)@.users[user_id@].last_heartbeat,
            ),
            final(self)@.wf(),
    {
        let now = unix_now();
        self.register_user_at(user_id, username, now);
    }

    /// Registers a user under `user_id` at time `now`.
    pub fn register_user_at(&mut self, user_id: String, username: String, now: i64)
        ensures
            final(self)@ == old(self)@.register(user_id@, username@, now as int),
            final(self)@.wf(),
    {
        let mut user = User::registered_at(user_id, username, now);
        user.set_status(CallStatus::Idle);
        self.users.insert(user);
        proof {
            self.lemma_wf();
        }
    }

    /// Registers a user under an identifier drawn for it, and returns the
    /// identifier.
    pub fn register_new_user(&mut self, username: String) -> (user_id: String)
        ensures
            is_random_uuid_text(user_id@),
            final(self)@.users.contains_key(user_id@),
            0 <= final(self)@.users[user_id@].last_heartbeat,
            final(self)@ == old(self)@.register(
                user_id@,
                username@,
                final(self)@.users[user_id@].last_heartbeat,
            ),
            final(self)@.wf(),
    {
        let user_id = random_uuid();
        self.register_user(user_id.clone(), username);
        user_id
    }

    /// The users that are not offline.
    pub fn list_users(&self) -> (listed: Vec<User>)
        ensures
            lists_active(listed@, self@.users),
    {
        self.users.active()
    }

    /// Shows user `user_id` as offline and keeps its record. Tells whether the
    /// user is known; nothing changes where it is not.
    pub fn disconnect_user(&mut self, user_id: &str) -> (known: bool)
        ensures
            known == old(self)@.users.contains_key(user_id@),
            final(self)@ == old(self)@.disconnect(user_id@),
            final(self)@.wf(),
    {
        self.update_user_status(user_id, CallStatus::Offline)
    }

    /// The user registered under `user_id`.
    pub fn get_user(&self, user_id: &str) -> (found: Option<&User>)
        ensures
            match found {
                Some(user) => self@.users.contains_key(user_id@) && self@.users[user_id@] == user@,
                None => !self@.users.contains_key(user_id@),
            },
            self@.wf(),
    {
        proof {
            self.lemma_wf();
        }
        self.users.get(user_id)
    }

    /// Sets the status of user `user_id`. Tells whether the user is known;
    /// nothing changes where it is not.
    pub fn update_user_status(&mut self, user_id: &str, status: CallStatus) -> (known: bool)
        ensures
            known == old(self)@.users.contains_key(user_id@),
            final(self)@ == old(self)@.set_status(user_id@, status),
            final(self)@.wf(),
    {
        let known = self.users.set_status(user_id, status);
        proof {
            self.lemma_wf();
        }
        known
    }

    /// Sets the address of user `user_id`. Tells whether the user is known;
    /// nothing changes where it is not.
    pub fn update_user_ip(&mut self, user_id: &str, ip: String) -> (known: bool)
        ensures
            known == old(self)@.users.contains_key(user_id@),
            final(self)@ == old(self)@.set_address(user_id@, ip@),
            final(self)@.wf(),
    {
        let known = self.users.set_address(user_id, ip);
        proof {
            self.lemma_wf();
        }
        known
    }

    /// Places a call under an identifier drawn for it, at the time the clock
    /// shows now.
    pub fn create_call(&mut self, caller_id: String, callee_id: String) -> (call: Call)
        ensures
            is_random_uuid_text(call.call_id@),
            0 <= call.timestamp,
            call@ == CallView::placed(
                call.call_id@,
                caller_id@,
                callee_id@,
                call.timestamp as int,
            ),
            final(self)@ == old(self)@.create_call(call@),
            final(self)@.wf(),
    {
        let call_id = random_uuid();
        let now = unix_now();
        self.create_call_at(call_id, caller_id, callee_id, now)
    }

    /// Places a call under `call_id` at time `now`, in place of any call that
    /// had this id before.
    pub fn create_call_at(
        &mut self,
        call_id: String,
        caller_id: String,
        callee_id: String,
        now: i64,
    ) -> (call: Call)
        ensures
            call@ == CallView::placed(call_id@, caller_id@, callee_id@, now as int),
            final(self)@ == old(self)@.create_call(call@),
            final(self)@.wf(),
    {
        let call = Call { call_id, caller_id, callee_id, status: CallStatus::Calling, timestamp: now };
        self.calls.insert(call.clone());
        self.users.set_status(call.caller_id.as_str(), CallStatus::Calling);
        proof {
            self.lemma_wf();
        }
        call
    }

    /// Gives the call and both its parties the status `status`.
    fn transition(&mut self, call_id: &str, status: CallStatus)
        requires
            is_active(status),
        ensures
            final(self)@ == old(self)@.transition(call_id@, status),
            final(self)@.wf(),
    {
        let parties = match self.calls.get(call_id) {
            Some(call) => Some((call.caller_id.clone(), call.callee_id.clone())),
            None => None,
        };
        if let Some((caller_id, callee_id)) = parties {
            self.calls.set_status(call_id, status);
            self.users.set_status(caller_id.as_str(), status);
            self.users.set_status(callee_id.as_str(), status);
        }
        proof {
            self.lemma_wf();
        }
    }

    /// Removes the call and makes both its parties idle.
    fn close(&mut self, call_id: &str)
        ensures
            final(self)@ == old(self)@.close(call_id@),
            final(self)@.wf(),
    {
        if let Some(call) = self.calls.remove(call_id) {
            self.users.set_status(call.caller_id.as_str(), CallStatus::Idle);
            self.users.set_status(call.callee_id.as_str(), CallStatus::Idle);
        }
        proof {
            self.lemma_wf();
        }
    }

    /// Sets the call and both its parties to in-call, whatever their status
    /// was. Nothing changes where the call is unknown.
    pub fn accept_call(&mut self, call_id: &str)
        ensures
            final(self)@ == old(self)@.accept(call_id@),
            final(self)@.wf(),
    {
        self.transition(call_id, CallStatus::InCall);
    }

    /// Removes the call and makes both its parties idle. Nothing changes where
    /// the call is unknown.
    pub fn reject_call(&mut self, call_id: &str)
        ensures
            final(self)@ == old(self)@.reject(call_id@),
            final(self)@.wf(),
    {
        self.close(call_id);
    }

    /// Sets the call and both its parties to on-hold, whatever their status
    /// was. Nothing changes where the call is unknown.
    pub fn hold_call(&mut self, call_id: &str)
        ensures
            final(self)@ == old(self)@.hold(call_id@),
            final(self)@.wf(),
    {
        self.transition(call_id, CallStatus::OnHold);
    }

    /// Resumes a call, which is to accept it again.
    pub fn resume_call(&mut self, call_id: &str)
        ensures
            final(self)@ == old(self)@.resume(call_id@),
            final(self)@.wf(),
    {
        self.accept_call(call_id);
    }

    /// Removes the call and makes both its parties idle. Nothing changes where
    /// the call is unknown.
    pub fn end_call(&mut self, call_id: &str)
        ensures
            final(self)@ == old(self)@.end(call_id@),
            final(self)@.wf(),
    {
        self.close(call_id);
    }

    /// The call filed under `call_id`.
    pub fn get_call(&self, call_id: &str) -> (found: Option<&Call>)
        ensures
            match found {
                Some(call) => self@.calls.contains_key(call_id@) && self@.calls[call_id@] == call@,
                None => !self@.calls.contains_key(call_id@),
            },
            self@.wf(),
    {
        proof {
            self.lemma_wf();
        }
        self.calls.get(call_id)
    }

    /// The calls that await an answer from `user_id`.
    pub fn get_incoming_calls(&self, user_id: &str) -> (listed: Vec<Call>)
        ensures
            lists_incoming(listed@, self@.calls, user_id@),
    {
        self.calls.incoming_for(user_id)
    }
}

} // verus!
