//! User presence: what the store does with a request about a user, and what
//! is answered.

use vstd::prelude::*;
use crate::call_manager::CallManager;
use crate::signaling::queried_id;
use crate::trusted::is_random_uuid_text;
use crate::user::CallStatus;

verus! {

/// What a newly registered user is told.
#[derive(Debug)]
pub struct Registration {
    pub user_id: String,
    pub username: String,
}

/// What is told of a registered user.
#[derive(Debug)]
pub struct UserSummary {
    pub user_id: String,
    pub username: String,
    pub status: CallStatus,
}

/// The name a user registers with: the one it gives, `Unknown` where it
/// gives none.
pub open spec fn registered_name(username: Option<&str>) -> Seq<char> {
    match username {
        Some(name) => name@,
        None => "Unknown"@,
    }
}

/// Registers a user under an identifier drawn for it.
pub fn register_user(manager: &mut CallManager, username: Option<&str>) -> (registration:
    Registration)
    ensures
        is_random_uuid_text(registration.user_id@),
        registration.username@ == registered_name(username),
        final(manager)@.users.contains_key(registration.user_id@),
        0 <= final(manager)@.users[registration.user_id@].last_heartbeat,
        final(manager)@ == old(manager)@.register(
            registration.user_id@,
            registered_name(username),
            final(manager)@.users[registration.user_id@].last_heartbeat,
        ),
        final(manager)@.wf(),
{
    let name = match username {
        Some(name) => name,
        None => "Unknown",
    };
    let user_id = manager.register_new_user(name.to_owned());
    Registration { user_id, username: name.to_owned() }
}

/// Shows the user that the request names as offline. Tells whether the user
/// is known.
pub fn disconnect_user(manager: &mut CallManager, user_id: Option<&str>) -> (known: bool)
    ensures
        known == old(manager)@.users.contains_key(queried_id(user_id)),
        final(manager)@ == old(manager)@.disconnect(queried_id(user_id)),
        final(manager)@.wf(),
{
    let id = match user_id {
        Some(id) => id,
        None => "",
    };
    proof {
        reveal_strlit("");
        assert(id@ =~= queried_id(user_id));
    }
    manager.disconnect_user(id)
}

/// The user that the query names, if it is registered.
pub fn get_user(manager: &CallManager, user_id: Option<&str>) -> (found: Option<UserSummary>)
    ensures
        match found {
            Some(summary) => {
                &&& manager@.users.contains_key(queried_id(user_id))
                &&& summary.user_id@ == queried_id(user_id)
                &&& summary.username@ == manager@.users[queried_id(user_id)].username
                &&& summary.status == manager@.users[queried_id(user_id)].status
            },
            None => !manager@.users.contains_key(queried_id(user_id)),
        },
{
    let id = match user_id {
        Some(id) => id,
        None => "",
    };
    proof {
        reveal_strlit("");
        assert(id@ =~= queried_id(user_id));
    }
    match manager.get_user(id) {
        Some(user) => Some(
            UserSummary {
                user_id: user.id.clone(),
                username: user.username.clone(),
                status: user.status,
            },
        ),
        None => None,
    }
}

} // verus!
