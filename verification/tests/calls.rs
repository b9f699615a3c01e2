use voip_backend::call_manager::{Call, CallManager};
use voip_backend::user::CallStatus;

fn two_users() -> CallManager {
    let mut manager = CallManager::new();
    manager.register_user_at("alice".to_string(), "Alice".to_string(), 1);
    manager.register_user_at("bob".to_string(), "Bob".to_string(), 2);
    manager
}

fn status_of(manager: &CallManager, user_id: &str) -> CallStatus {
    manager.get_user(user_id).unwrap().status
}

fn call_ids_of(calls: &[Call]) -> Vec<String> {
    let mut ids: Vec<String> = calls.iter().map(|c| c.call_id.clone()).collect();
    ids.sort();
    ids
}

#[test]
fn created_call_has_a_random_uuid_and_the_time() {
    let mut manager = two_users();
    let before = chrono::Local::now().timestamp();
    let call = manager.create_call("alice".to_string(), "bob".to_string());
    let after = chrono::Local::now().timestamp();
    assert_eq!(call.caller_id, "alice");
    assert_eq!(call.callee_id, "bob");
    assert_eq!(call.status, CallStatus::Calling);
    assert!(before <= call.timestamp && call.timestamp <= after);

    let id: Vec<char> = call.call_id.chars().collect();
    assert_eq!(id.len(), 36);
    for (i, c) in id.iter().enumerate() {
        if i == 8 || i == 13 || i == 18 || i == 23 {
            assert_eq!(*c, '-');
        } else {
            assert!(matches!(*c, '0'..='9' | 'a'..='f'));
        }
    }
    assert_eq!(id[14], '4');
    assert!(matches!(id[19], '8' | '9' | 'a' | 'b'));
    assert_eq!(uuid::Uuid::parse_str(&call.call_id).unwrap().get_version_num(), 4);

    let stored = manager.get_call(&call.call_id).unwrap();
    assert_eq!(stored.call_id, call.call_id);
    assert_eq!(stored.caller_id, "alice");
    assert_eq!(stored.callee_id, "bob");
    assert_eq!(stored.status, CallStatus::Calling);
    assert_eq!(stored.timestamp, call.timestamp);
}

#[test]
fn two_calls_get_two_ids() {
    let mut manager = two_users();
    let first = manager.create_call("alice".to_string(), "bob".to_string());
    let second = manager.create_call("alice".to_string(), "bob".to_string());
    assert_ne!(first.call_id, second.call_id);
    assert!(manager.get_call(&first.call_id).is_some());
    assert!(manager.get_call(&second.call_id).is_some());
    assert_eq!(manager.get_incoming_calls("bob").len(), 2);
}

#[test]
fn initiate_marks_the_caller_only() {
    let mut manager = two_users();
    assert!(manager.update_user_status("bob", CallStatus::OnHold));
    let call = manager.create_call_at("c1".to_string(), "alice".to_string(), "bob".to_string(), 50);
    assert_eq!(call.call_id, "c1");
    assert_eq!(call.caller_id, "alice");
    assert_eq!(call.callee_id, "bob");
    assert_eq!(call.status, CallStatus::Calling);
    assert_eq!(call.timestamp, 50);
    assert_eq!(status_of(&manager, "alice"), CallStatus::Calling);
    assert_eq!(status_of(&manager, "bob"), CallStatus::OnHold);
}

#[test]
fn accept_puts_both_parties_in_call() {
    let mut manager = two_users();
    manager.create_call_at("c1".to_string(), "alice".to_string(), "bob".to_string(), 50);
    manager.accept_call("c1");
    assert_eq!(status_of(&manager, "alice"), CallStatus::InCall);
    assert_eq!(status_of(&manager, "bob"), CallStatus::InCall);
    let call = manager.get_call("c1").unwrap();
    assert_eq!(call.status, CallStatus::InCall);
    assert_eq!(call.caller_id, "alice");
    assert_eq!(call.callee_id, "bob");
    assert_eq!(call.timestamp, 50);
}

#[test]
fn reject_removes_the_call_and_idles_both() {
    let mut manager = two_users();
    manager.create_call_at("c1".to_string(), "alice".to_string(), "bob".to_string(), 50);
    manager.create_call_at("c2".to_string(), "bob".to_string(), "alice".to_string(), 51);
    manager.reject_call("c1");
    assert!(manager.get_call("c1").is_none());
    assert_eq!(status_of(&manager, "alice"), CallStatus::Idle);
    assert_eq!(status_of(&manager, "bob"), CallStatus::Idle);
    let other = manager.get_call("c2").unwrap();
    assert_eq!(other.status, CallStatus::Calling);
    assert_eq!(other.caller_id, "bob");
}

#[test]
fn end_removes_the_call_and_idles_both() {
    let mut manager = two_users();
    manager.create_call_at("c1".to_string(), "alice".to_string(), "bob".to_string(), 50);
    manager.accept_call("c1");
    manager.end_call("c1");
    assert!(manager.get_call("c1").is_none());
    assert_eq!(status_of(&manager, "alice"), CallStatus::Idle);
    assert_eq!(status_of(&manager, "bob"), CallStatus::Idle);
    manager.end_call("c1");
    assert!(manager.get_call("c1").is_none());
    assert_eq!(status_of(&manager, "alice"), CallStatus::Idle);
}

#[test]
fn hold_then_resume() {
    let mut manager = two_users();
    manager.create_call_at("c1".to_string(), "alice".to_string(), "bob".to_string(), 50);
    manager.accept_call("c1");
    manager.hold_call("c1");
    assert_eq!(status_of(&manager, "alice"), CallStatus::OnHold);
    assert_eq!(status_of(&manager, "bob"), CallStatus::OnHold);
    assert_eq!(manager.get_call("c1").unwrap().status, CallStatus::OnHold);
    manager.resume_call("c1");
    assert_eq!(status_of(&manager, "alice"), CallStatus::InCall);
    assert_eq!(status_of(&manager, "bob"), CallStatus::InCall);
    assert_eq!(manager.get_call("c1").unwrap().status, CallStatus::InCall);
}

#[test]
fn unknown_call_id_changes_nothing() {
    let mut manager = two_users();
    manager.register_user_at("carol".to_string(), "Carol".to_string(), 3);
    manager.create_call_at("c1".to_string(), "alice".to_string(), "bob".to_string(), 50);
    assert!(manager.update_user_status("carol", CallStatus::OnHold));
    assert!(manager.disconnect_user("bob"));

    manager.accept_call("nope");
    manager.reject_call("nope");
    manager.hold_call("nope");
    manager.resume_call("nope");
    manager.end_call("nope");
    manager.accept_call("");
    manager.end_call("c");
    manager.reject_call("c11");

    assert_eq!(status_of(&manager, "alice"), CallStatus::Calling);
    assert_eq!(status_of(&manager, "bob"), CallStatus::Offline);
    assert_eq!(status_of(&manager, "carol"), CallStatus::OnHold);
    let call = manager.get_call("c1").unwrap();
    assert_eq!(call.status, CallStatus::Calling);
    assert_eq!(call.caller_id, "alice");
    assert_eq!(call.callee_id, "bob");
    assert_eq!(call.timestamp, 50);
    assert!(manager.get_call("nope").is_none());
    assert_eq!(manager.list_users().len(), 2);
}

#[test]
fn accepting_twice_is_accepting_once() {
    let mut manager = two_users();
    manager.create_call_at("c1".to_string(), "alice".to_string(), "bob".to_string(), 50);
    manager.accept_call("c1");
    manager.accept_call("c1");
    assert_eq!(status_of(&manager, "alice"), CallStatus::InCall);
    assert_eq!(status_of(&manager, "bob"), CallStatus::InCall);
    assert_eq!(manager.get_call("c1").unwrap().status, CallStatus::InCall);
    assert!(manager.get_incoming_calls("bob").is_empty());
    manager.end_call("c1");
    assert!(manager.get_call("c1").is_none());
}

#[test]
fn reject_after_accept_removes_the_call() {
    let mut manager = two_users();
    manager.create_call_at("c1".to_string(), "alice".to_string(), "bob".to_string(), 50);
    manager.accept_call("c1");
    manager.reject_call("c1");
    assert!(manager.get_call("c1").is_none());
    assert_eq!(status_of(&manager, "alice"), CallStatus::Idle);
    assert_eq!(status_of(&manager, "bob"), CallStatus::Idle);
}

#[test]
fn unknown_parties_are_not_validated() {
    let mut manager = two_users();
    let call = manager.create_call("ghost".to_string(), "phantom".to_string());
    assert_eq!(call.caller_id, "ghost");
    assert_eq!(call.callee_id, "phantom");
    assert!(manager.get_user("ghost").is_none());
    assert!(manager.get_user("phantom").is_none());
    assert_eq!(manager.get_incoming_calls("phantom").len(), 1);
    manager.accept_call(&call.call_id);
    assert_eq!(manager.get_call(&call.call_id).unwrap().status, CallStatus::InCall);
    assert!(manager.get_user("ghost").is_none());
    assert_eq!(status_of(&manager, "alice"), CallStatus::Idle);
    assert_eq!(status_of(&manager, "bob"), CallStatus::Idle);
    manager.end_call(&call.call_id);
    assert!(manager.get_call(&call.call_id).is_none());
    assert_eq!(manager.list_users().len(), 2);
}

#[test]
fn half_known_call_changes_the_known_party() {
    let mut manager = two_users();
    manager.create_call_at("c1".to_string(), "ghost".to_string(), "bob".to_string(), 5);
    assert_eq!(status_of(&manager, "bob"), CallStatus::Idle);
    manager.hold_call("c1");
    assert_eq!(status_of(&manager, "bob"), CallStatus::OnHold);
    assert_eq!(status_of(&manager, "alice"), CallStatus::Idle);
    manager.reject_call("c1");
    assert_eq!(status_of(&manager, "bob"), CallStatus::Idle);
}

#[test]
fn calling_oneself_changes_the_callee_too() {
    let mut manager = two_users();
    manager.create_call_at("c1".to_string(), "alice".to_string(), "alice".to_string(), 5);
    assert_eq!(status_of(&manager, "alice"), CallStatus::Calling);
    let incoming = manager.get_incoming_calls("alice");
    assert_eq!(call_ids_of(&incoming), vec!["c1".to_string()]);
    manager.accept_call("c1");
    assert_eq!(status_of(&manager, "alice"), CallStatus::InCall);
    manager.end_call("c1");
    assert_eq!(status_of(&manager, "alice"), CallStatus::Idle);
}

#[test]
fn second_call_overwrites_the_status() {
    let mut manager = two_users();
    manager.register_user_at("carol".to_string(), "Carol".to_string(), 3);
    manager.create_call_at("c1".to_string(), "alice".to_string(), "bob".to_string(), 5);
    manager.accept_call("c1");
    manager.create_call_at("c2".to_string(), "carol".to_string(), "bob".to_string(), 6);
    manager.hold_call("c2");
    assert_eq!(status_of(&manager, "bob"), CallStatus::OnHold);
    assert_eq!(status_of(&manager, "carol"), CallStatus::OnHold);
    assert_eq!(status_of(&manager, "alice"), CallStatus::InCall);
    assert_eq!(manager.get_call("c1").unwrap().status, CallStatus::InCall);
    manager.end_call("c2");
    assert_eq!(status_of(&manager, "bob"), CallStatus::Idle);
    assert_eq!(status_of(&manager, "alice"), CallStatus::InCall);
    assert_eq!(manager.get_call("c1").unwrap().status, CallStatus::InCall);
}

#[test]
fn placing_a_call_under_a_used_id_replaces_it() {
    let mut manager = two_users();
    manager.create_call_at("c1".to_string(), "alice".to_string(), "bob".to_string(), 5);
    manager.accept_call("c1");
    manager.create_call_at("c1".to_string(), "bob".to_string(), "alice".to_string(), 6);
    let call = manager.get_call("c1").unwrap();
    assert_eq!(call.caller_id, "bob");
    assert_eq!(call.callee_id, "alice");
    assert_eq!(call.status, CallStatus::Calling);
    assert_eq!(call.timestamp, 6);
    assert_eq!(status_of(&manager, "bob"), CallStatus::Calling);
    assert_eq!(status_of(&manager, "alice"), CallStatus::InCall);
    assert_eq!(manager.get_incoming_calls("alice").len(), 1);
    assert!(manager.get_incoming_calls("bob").is_empty());
}

#[test]
fn incoming_calls_are_the_unanswered_ones_for_the_callee() {
    let mut manager = two_users();
    manager.register_user_at("carol".to_string(), "Carol".to_string(), 3);
    assert!(manager.get_incoming_calls("bob").is_empty());
    manager.create_call_at("c1".to_string(), "alice".to_string(), "bob".to_string(), 5);
    manager.create_call_at("c2".to_string(), "carol".to_string(), "bob".to_string(), 6);
    manager.create_call_at("c3".to_string(), "bob".to_string(), "carol".to_string(), 7);
    manager.create_call_at("c4".to_string(), "alice".to_string(), "bob".to_string(), 8);
    manager.accept_call("c2");
    manager.hold_call("c4");

    let for_bob = manager.get_incoming_calls("bob");
    assert_eq!(call_ids_of(&for_bob), vec!["c1".to_string()]);
    assert_eq!(for_bob[0].caller_id, "alice");
    assert_eq!(for_bob[0].status, CallStatus::Calling);
    assert_eq!(for_bob[0].timestamp, 5);

    let for_carol = manager.get_incoming_calls("carol");
    assert_eq!(call_ids_of(&for_carol), vec!["c3".to_string()]);
    assert!(manager.get_incoming_calls("alice").is_empty());
    assert!(manager.get_incoming_calls("nobody").is_empty());

    manager.create_call_at("c5".to_string(), "carol".to_string(), "bob".to_string(), 9);
    assert_eq!(
        call_ids_of(&manager.get_incoming_calls("bob")),
        vec!["c1".to_string(), "c5".to_string()]
    );
    manager.reject_call("c1");
    assert_eq!(call_ids_of(&manager.get_incoming_calls("bob")), vec!["c5".to_string()]);
}

#[test]
fn call_clone_copies_every_field() {
    let mut manager = two_users();
    let call = manager.create_call_at("c1".to_string(), "alice".to_string(), "bob".to_string(), 5);
    let copy = call.clone();
    assert_eq!(copy.call_id, "c1");
    assert_eq!(copy.caller_id, "alice");
    assert_eq!(copy.callee_id, "bob");
    assert_eq!(copy.status, CallStatus::Calling);
    assert_eq!(copy.timestamp, 5);
}
