//! What holds of the session store in every state, stated over its
//! mathematical model.

use vstd::prelude::*;
use crate::call_manager::{CallView, SessionView};
use crate::user::{CallStatus, User, UserView};
use crate::user_registry::lists_active;

verus! {

/// A user who registers is found under the id it registered with, idle and
/// without an address. No other user and no call is touched.
pub proof fn law_registered_user_is_idle(
    s: SessionView,
    id: Seq<char>,
    username: Seq<char>,
    now: int,
)
    ensures
        s.register(id, username, now).users.contains_key(id),
        s.register(id, username, now).users[id] == UserView::registered(id, username, now),
        s.register(id, username, now).users[id].status == CallStatus::Idle,
        forall|k: Seq<char>|
            k != id ==> {
                &&& s.register(id, username, now).users.contains_key(k) == s.users.contains_key(k)
                &&& s.register(id, username, now).users[k] == s.users[k]
            },
        s.register(id, username, now).calls == s.calls,
{
}

/// A user who disconnects stays registered, with everything but its status
/// as it was, and is shown as offline. No other user and no call is touched.
pub proof fn law_disconnect_keeps_the_record(s: SessionView, id: Seq<char>)
    requires
        s.users.contains_key(id),
    ensures
        s.disconnect(id).users.dom() == s.users.dom(),
        s.disconnect(id).users[id] == s.users[id].with_status(CallStatus::Offline),
        forall|k: Seq<char>| k != id ==> s.disconnect(id).users[k] == s.users[k],
        s.disconnect(id).calls == s.calls,
{
    assert(s.disconnect(id).users.dom() =~= s.users.dom());
}

/// A listing of the active users holds no user that the registry shows as
/// offline, and holds every other registered user at exactly one position.
pub proof fn law_listing_holds_each_active_user_once(
    listed: Seq<User>,
    users: Map<Seq<char>, UserView>,
)
    requires
        lists_active(listed, users),
    ensures
        forall|i: int|
            0 <= i < listed.len() ==> users.contains_key(#[trigger] listed[i].id@)
                && users[listed[i].id@].status != CallStatus::Offline,
        forall|k: Seq<char>|
            users.contains_key(k) && users[k].status == CallStatus::Offline ==> forall|i: int|
                0 <= i < listed.len() ==> #[trigger] listed[i].id@ != k,
        forall|k: Seq<char>|
            users.contains_key(k) && users[k].status != CallStatus::Offline ==> exists|i: int|
                {
                    &&& 0 <= i < listed.len()
                    &&& #[trigger] listed[i].id@ == k
                    &&& forall|j: int| 0 <= j < listed.len() && listed[j].id@ == k ==> j == i
                },
{
    assert forall|k: Seq<char>|
        users.contains_key(k) && users[k].status != CallStatus::Offline implies exists|i: int|
        {
            &&& 0 <= i < listed.len()
            &&& #[trigger] listed[i].id@ == k
            &&& forall|j: int| 0 <= j < listed.len() && listed[j].id@ == k ==> j == i
        } by {
        let i = choose|i: int| 0 <= i < listed.len() && #[trigger] listed[i].id@ == k;
        assert forall|j: int| 0 <= j < listed.len() && listed[j].id@ == k implies j == i by {
            if j < i {
                assert(listed[j].id@ != listed[i].id@);
            } else if i < j {
                assert(listed[i].id@ != listed[j].id@);
            }
        }
    }
}

/// Placing a call files it as calling and shows its caller, where
/// registered, as calling. A callee other than the caller is left exactly as
/// it was, and so is every other user.
pub proof fn law_placing_a_call_marks_the_caller_only(
    s: SessionView,
    call_id: Seq<char>,
    caller_id: Seq<char>,
    callee_id: Seq<char>,
    now: int,
)
    ensures
        ({
            let call = CallView::placed(call_id, caller_id, callee_id, now);
            let t = s.create_call(call);
            &&& t.calls.contains_key(call_id)
            &&& t.calls[call_id] == call
            &&& call.status == CallStatus::Calling
            &&& t.users.dom() == s.users.dom()
            &&& s.users.contains_key(caller_id) ==> t.users[caller_id] == s.users[caller_id].with_status(
                CallStatus::Calling,
            )
            &&& forall|k: Seq<char>| k != caller_id ==> t.users[k] == s.users[k]
            &&& callee_id != caller_id ==> t.users[callee_id] == s.users[callee_id]
        }),
{
    let call = CallView::placed(call_id, caller_id, callee_id, now);
    let t = s.create_call(call);
    assert(t.users.dom() =~= s.users.dom());
}

/// Giving a call a status (accepting sets in-call, holding sets on-hold)
/// keeps its record, with that status, and shows each of its parties that is
/// registered with that status. Every other user is left exactly as it was.
pub proof fn law_transition_sets_the_call_and_both_parties(
    s: SessionView,
    call_id: Seq<char>,
    status: CallStatus,
)
    requires
        s.calls.contains_key(call_id),
    ensures
        ({
            let call = s.calls[call_id];
            let t = s.transition(call_id, status);
            &&& t.calls.contains_key(call_id)
            &&& t.calls[call_id] == call.with_status(status)
            &&& forall|c: Seq<char>|
                c != call_id ==> t.calls.contains_key(c) == s.calls.contains_key(c) && t.calls[c]
                    == s.calls[c]
            &&& t.users.dom() == s.users.dom()
            &&& s.users.contains_key(call.caller_id) ==> t.users[call.caller_id]
                == s.users[call.caller_id].with_status(status)
            &&& s.users.contains_key(call.callee_id) ==> t.users[call.callee_id]
                == s.users[call.callee_id].with_status(status)
            &&& forall|k: Seq<char>|
                k != call.caller_id && k != call.callee_id ==> t.users[k] == s.users[k]
        }),
{
    let t = s.transition(call_id, status);
    assert(t.users.dom() =~= s.users.dom());
}

/// Accepting a call sets the call and both its parties to in-call.
pub proof fn law_accept_puts_both_parties_in_call(s: SessionView, call_id: Seq<char>)
    requires
        s.calls.contains_key(call_id),
    ensures
        ({
            let call = s.calls[call_id];
            let t = s.accept(call_id);
            &&& t.calls.contains_key(call_id)
            &&& t.calls[call_id].status == CallStatus::InCall
            &&& s.users.contains_key(call.caller_id) ==> t.users.contains_key(call.caller_id)
                && t.users[call.caller_id].status == CallStatus::InCall
            &&& s.users.contains_key(call.callee_id) ==> t.users.contains_key(call.callee_id)
                && t.users[call.callee_id].status == CallStatus::InCall
        }),
{
    law_transition_sets_the_call_and_both_parties(s, call_id, CallStatus::InCall);
}

/// A call that is placed and then accepted shows as in-call, and so does
/// each of its parties that is registered.
pub proof fn law_place_then_accept(
    s: SessionView,
    call_id: Seq<char>,
    caller_id: Seq<char>,
    callee_id: Seq<char>,
    now: int,
)
    ensures
        ({
            let call = CallView::placed(call_id, caller_id, callee_id, now);
            let t = s.create_call(call).accept(call_id);
            &&& t.calls.contains_key(call_id)
            &&& t.calls[call_id] == call.with_status(CallStatus::InCall)
            &&& t.users.dom() == s.users.dom()
            &&& s.users.contains_key(caller_id) ==> t.users[caller_id] == s.users[caller_id].with_status(
                CallStatus::InCall,
            )
            &&& s.users.contains_key(callee_id) ==> t.users[callee_id] == s.users[callee_id].with_status(
                CallStatus::InCall,
            )
            &&& forall|k: Seq<char>| k != caller_id && k != callee_id ==> t.users[k] == s.users[k]
        }),
{
    let call = CallView::placed(call_id, caller_id, callee_id, now);
    law_placing_a_call_marks_the_caller_only(s, call_id, caller_id, callee_id, now);
    law_transition_sets_the_call_and_both_parties(s.create_call(call), call_id, CallStatus::InCall);
}

/// Right after a call is placed, accepted, put on hold or resumed, its
/// parties show the status of the call. Later operations on the same users
/// may part them from it again: a status is overwritten, never refused.
pub proof fn law_parties_follow_their_call(
    s: SessionView,
    call_id: Seq<char>,
    caller_id: Seq<char>,
    callee_id: Seq<char>,
    now: int,
)
    ensures
        s.create_call(CallView::placed(call_id, caller_id, callee_id, now)).parties_follow(call_id),
        s.calls.contains_key(call_id) ==> s.accept(call_id).parties_follow(call_id),
        s.calls.contains_key(call_id) ==> s.hold(call_id).parties_follow(call_id),
        s.calls.contains_key(call_id) ==> s.resume(call_id).parties_follow(call_id),
{
}

/// Rejecting a call and ending it do the same: the record is gone, each of
/// its parties that is registered is idle, and every other call and user is
/// left exactly as it was.
pub proof fn law_reject_and_end_remove_the_call(s: SessionView, call_id: Seq<char>)
    requires
        s.calls.contains_key(call_id),
    ensures
        s.reject(call_id) == s.end(call_id),
        ({
            let call = s.calls[call_id];
            let t = s.end(call_id);
            &&& !t.calls.contains_key(call_id)
            &&& forall|c: Seq<char>|
                c != call_id ==> t.calls.contains_key(c) == s.calls.contains_key(c) && t.calls[c]
                    == s.calls[c]
            &&& t.users.dom() == s.users.dom()
            &&& s.users.contains_key(call.caller_id) ==> t.users[call.caller_id]
                == s.users[call.caller_id].with_status(CallStatus::Idle)
            &&& s.users.contains_key(call.callee_id) ==> t.users[call.callee_id]
                == s.users[call.callee_id].with_status(CallStatus::Idle)
            &&& forall|k: Seq<char>|
                k != call.caller_id && k != call.callee_id ==> t.users[k] == s.users[k]
        }),
{
    let t = s.end(call_id);
    assert(t.users.dom() =~= s.users.dom());
}

/// Holding a call keeps its record and shows both parties as on hold;
/// resuming it afterwards shows the call and both parties as in call again.
pub proof fn law_hold_then_resume(s: SessionView, call_id: Seq<char>)
    requires
        s.calls.contains_key(call_id),
    ensures
        ({
            let call = s.calls[call_id];
            let held = s.hold(call_id);
            let resumed = held.resume(call_id);
            &&& held.calls.contains_key(call_id)
            &&& held.calls[call_id] == call.with_status(CallStatus::OnHold)
            &&& resumed.calls.contains_key(call_id)
            &&& resumed.calls[call_id] == call.with_status(CallStatus::InCall)
            &&& s.users.contains_key(call.caller_id) ==> {
                &&& held.users[call.caller_id] == s.users[call.caller_id].with_status(
                    CallStatus::OnHold,
                )
                &&& resumed.users[call.caller_id] == s.users[call.caller_id].with_status(
                    CallStatus::InCall,
                )
            }
            &&& s.users.contains_key(call.callee_id) ==> {
                &&& held.users[call.callee_id] == s.users[call.callee_id].with_status(
                    CallStatus::OnHold,
                )
                &&& resumed.users[call.callee_id] == s.users[call.callee_id].with_status(
                    CallStatus::InCall,
                )
            }
            &&& resumed == s.accept(call_id)
        }),
{
    let call = s.calls[call_id];
    let held = s.hold(call_id);
    let resumed = held.resume(call_id);
    law_transition_sets_the_call_and_both_parties(s, call_id, CallStatus::OnHold);
    law_transition_sets_the_call_and_both_parties(held, call_id, CallStatus::InCall);
    law_transition_sets_the_call_and_both_parties(s, call_id, CallStatus::InCall);
    let direct = s.accept(call_id);
    assert(resumed.calls =~= direct.calls);
    assert(resumed.users =~= direct.users);
}

/// On a call id that the store does not know, every call operation leaves
/// the store exactly as it was.
pub proof fn law_unknown_call_changes_nothing(s: SessionView, call_id: Seq<char>)
    requires
        !s.calls.contains_key(call_id),
    ensures
        s.accept(call_id) == s,
        s.reject(call_id) == s,
        s.hold(call_id) == s,
        s.resume(call_id) == s,
        s.end(call_id) == s,
{
}

/// Accepting a call a second time changes nothing: however two requests to
/// accept the same call are put in order, the store ends in the state that
/// one of them alone leaves.
pub proof fn law_accept_twice_is_accept_once(s: SessionView, call_id: Seq<char>)
    ensures
        s.accept(call_id).accept(call_id) == s.accept(call_id),
{
    if s.calls.contains_key(call_id) {
        let once = s.accept(call_id);
        let twice = once.accept(call_id);
        law_transition_sets_the_call_and_both_parties(s, call_id, CallStatus::InCall);
        law_transition_sets_the_call_and_both_parties(once, call_id, CallStatus::InCall);
        assert(twice.calls =~= once.calls);
        assert(twice.users =~= once.users);
    }
}

/// Every operation leaves a well-formed store well-formed.
pub proof fn law_operations_keep_the_store_well_formed(
    s: SessionView,
    id: Seq<char>,
    other: Seq<char>,
    text: Seq<char>,
    status: CallStatus,
    now: int,
)
    requires
        s.wf(),
    ensures
        SessionView::empty().wf(),
        s.register(id, text, now).wf(),
        s.set_status(id, status).wf(),
        s.set_address(id, text).wf(),
        s.disconnect(id).wf(),
        s.create_call(CallView::placed(text, id, other, now)).wf(),
        s.accept(id).wf(),
        s.hold(id).wf(),
        s.resume(id).wf(),
        s.reject(id).wf(),
        s.end(id).wf(),
{
}

} // verus!
