//! Call signaling: what the store does with a signaling message, and what
//! is answered.

use vstd::prelude::*;
use crate::call_manager::{CallManager, CallView};
use crate::trusted::is_random_uuid_text;
use crate::user::CallStatus;

verus! {

/// A signaling message as a peer sends it. The session description and
/// candidate fields are carried and never read.
#[derive(Debug)]
pub struct SignalingMessage {
    pub message_type: String,
    pub user_id: String,
    pub call_id: Option<String>,
    pub target_user_id: Option<String>,
    pub offer: Option<String>,
    pub answer: Option<String>,
    pub candidate: Option<String>,
    pub ip_address: Option<String>,
}

/// The answer to a signaling message.
#[derive(Debug)]
pub enum SignalingReply {
    Initiated { call_id: String },
    Accepted,
    Rejected,
    Ended,
    Held,
    Resumed,
    /// A call was to be placed and the message names no target.
    TargetRequired,
    /// A call was to be changed and the message names no call.
    CallIdRequired,
}

impl SignalingReply {
    /// The request was carried out.
    pub open spec fn succeeded(self) -> bool {
        !(self is TargetRequired) && !(self is CallIdRequired)
    }

    /// The text that goes out with the reply.
    pub open spec fn message_text(self) -> Seq<char> {
        match self {
            SignalingReply::Initiated { .. } => "Call initiated"@,
            SignalingReply::Accepted => "Call accepted"@,
            SignalingReply::Rejected => "Call rejected"@,
            SignalingReply::Ended => "Call ended"@,
            SignalingReply::Held => "Call on hold"@,
            SignalingReply::Resumed => "Call resumed"@,
            SignalingReply::TargetRequired => "Target user ID required"@,
            SignalingReply::CallIdRequired => "Call ID required"@,
        }
    }

    /// Whether the request was carried out.
    pub fn is_success(&self) -> (success: bool)
        ensures
            success == self.succeeded(),
    {
        match self {
            SignalingReply::TargetRequired => false,
            SignalingReply::CallIdRequired => false,
            _ => true,
        }
    }

    /// `success` for a request that was carried out, `error` for one that
    /// was refused.
    pub fn status_label(&self) -> (label: &'static str)
        ensures
            label@ == if self.succeeded() {
                "success"@
            } else {
                "error"@
            },
    {
        if self.is_success() {
            "success"
        } else {
            "error"
        }
    }

    /// The text that goes out with the reply.
    pub fn message(&self) -> (text: &'static str)
        ensures
            text@ == self.message_text(),
    {
        match self {
            SignalingReply::Initiated { .. } => "Call initiated",
            SignalingReply::Accepted => "Call accepted",
            SignalingReply::Rejected => "Call rejected",
            SignalingReply::Ended => "Call ended",
            SignalingReply::Held => "Call on hold",
            SignalingReply::Resumed => "Call resumed",
            SignalingReply::TargetRequired => "Target user ID required",
            SignalingReply::CallIdRequired => "Call ID required",
        }
    }
}

/// What a callee is told of a call that awaits its answer.
#[derive(Debug)]
pub struct IncomingCall {
    pub call_id: String,
    pub caller_id: String,
    pub status: CallStatus,
}

/// The id that a query asks about: the one it names, the empty id where it
/// names none.
pub open spec fn queried_id(user_id: Option<&str>) -> Seq<char> {
    match user_id {
        Some(id) => id@,
        None => Seq::empty(),
    }
}

/// Places a call from the sender of `msg` to the target that `msg` names.
/// A message without a target is refused and changes nothing.
pub fn initiate_call(manager: &mut CallManager, msg: &SignalingMessage) -> (reply: SignalingReply)
    ensures
        final(manager)@.wf(),
        match msg.target_user_id {
            Some(target) => {
                &&& reply matches SignalingReply::Initiated { call_id }
                &&& is_random_uuid_text(call_id@)
                &&& final(manager)@.calls.contains_key(call_id@)
                &&& 0 <= final(manager)@.calls[call_id@].timestamp
                &&& final(manager)@ == old(manager)@.create_call(
                    CallView::placed(
                        call_id@,
                        msg.user_id@,
                        target@,
                        final(manager)@.calls[call_id@].timestamp,
                    ),
                )
            },
            None => reply is TargetRequired && final(manager)@ == old(manager)@,
        },
{
    proof {
        manager.lemma_wf();
    }
    match &msg.target_user_id {
        Some(target) => {
            let call = manager.create_call(msg.user_id.clone(), target.clone());
            SignalingReply::Initiated { call_id: call.call_id }
        },
        None => SignalingReply::TargetRequired,
    }
}

/// Accepts the call that `msg` names. A message without a call id is refused
/// and changes nothing.
pub fn accept_call(manager: &mut CallManager, msg: &SignalingMessage) -> (reply: SignalingReply)
    ensures
        final(manager)@.wf(),
        match msg.call_id {
            Some(call_id) => reply is Accepted && final(manager)@ == old(manager)@.accept(call_id@),
            None => reply is CallIdRequired && final(manager)@ == old(manager)@,
        },
{
    proof {
        manager.lemma_wf();
    }
    match &msg.call_id {
        Some(call_id) => {
            manager.accept_call(call_id.as_str());
            SignalingReply::Accepted
        },
        None => SignalingReply::CallIdRequired,
    }
}

/// Rejects the call that `msg` names. A message without a call id is refused
/// and changes nothing.
pub fn reject_call(manager: &mut CallManager, msg: &SignalingMessage) -> (reply: SignalingReply)
    ensures
        final(manager)@.wf(),
        match msg.call_id {
            Some(call_id) => reply is Rejected && final(manager)@ == old(manager)@.reject(call_id@),
            None => reply is CallIdRequired && final(manager)@ == old(manager)@,
        },
{
    proof {
        manager.lemma_wf();
    }
    match &msg.call_id {
        Some(call_id) => {
            manager.reject_call(call_id.as_str());
            SignalingReply::Rejected
        },
        None => SignalingReply::CallIdRequired,
    }
}

/// Ends the call that `msg` names. A message without a call id is refused
/// and changes nothing.
pub fn end_call(manager: &mut CallManager, msg: &SignalingMessage) -> (reply: SignalingReply)
    ensures
        final(manager)@.wf(),
        match msg.call_id {
            Some(call_id) => reply is Ended && final(manager)@ == old(manager)@.end(call_id@),
            None => reply is CallIdRequired && final(manager)@ == old(manager)@,
        },
{
    proof {
        manager.lemma_wf();
    }
    match &msg.call_id {
        Some(call_id) => {
            manager.end_call(call_id.as_str());
            SignalingReply::Ended
        },
        None => SignalingReply::CallIdRequired,
    }
}

/// Puts the call that `msg` names on hold. A message without a call id is
/// refused and changes nothing.
pub fn hold_call(manager: &mut CallManager, msg: &SignalingMessage) -> (reply: SignalingReply)
    ensures
        final(manager)@.wf(),
        match msg.call_id {
            Some(call_id) => reply is Held && final(manager)@ == old(manager)@.hold(call_id@),
            None => reply is CallIdRequired && final(manager)@ == old(manager)@,
        },
{
    proof {
        manager.lemma_wf();
    }
    match &msg.call_id {
        Some(call_id) => {
            manager.hold_call(call_id.as_str());
            SignalingReply::Held
        },
        None => SignalingReply::CallIdRequired,
    }
}

/// Resumes the call that `msg` names. A message without a call id is refused
/// and changes nothing.
pub fn resume_call(manager: &mut CallManager, msg: &SignalingMessage) -> (reply: SignalingReply)
    ensures
        final(manager)@.wf(),
        match msg.call_id {
            Some(call_id) => reply is Resumed && final(manager)@ == old(manager)@.resume(call_id@),
            None => reply is CallIdRequired && final(manager)@ == old(manager)@,
        },
{
    proof {
        manager.lemma_wf();
    }
    match &msg.call_id {
        Some(call_id) => {
            manager.resume_call(call_id.as_str());
            SignalingReply::Resumed
        },
        None => SignalingReply::CallIdRequired,
    }
}

/// A call that awaits an answer from the user that the query names, if there
/// is one.
pub fn check_incoming_calls(manager: &CallManager, user_id: Option<&str>) -> (incoming: Option<
    IncomingCall,
>)
    ensures
        match incoming {
            Some(call) => {
                &&& manager@.calls.contains_key(call.call_id@)
                &&& manager@.calls[call.call_id@].awaits(queried_id(user_id))
                &&& call.caller_id@ == manager@.calls[call.call_id@].caller_id
                &&& call.status == CallStatus::Calling
            },
            None => forall|k: Seq<char>|
                manager@.calls.contains_key(k) ==> !(#[trigger] manager@.calls[k]).awaits(
                    queried_id(user_id),
                ),
        },
{
    let id = match user_id {
        Some(id) => id,
        None => "",
    };
    proof {
        reveal_strlit("");
        assert(id@ =~= queried_id(user_id));
    }
    let calls = manager.get_incoming_calls(id);
    if calls.len() > 0 {
        let first = &calls[0];
        Some(
            IncomingCall {
                call_id: first.call_id.clone(),
                caller_id: first.caller_id.clone(),
                status: first.status,
            },
        )
    } else {
        None
    }
}

} // verus!
