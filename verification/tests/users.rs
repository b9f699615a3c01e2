use voip_backend::call_manager::CallManager;
use voip_backend::user::{CallStatus, User};

fn ids_of(users: &[User]) -> Vec<String> {
    let mut ids: Vec<String> = users.iter().map(|u| u.id.clone()).collect();
    ids.sort();
    ids
}

#[test]
fn default_status_is_offline() {
    assert_eq!(CallStatus::default(), CallStatus::Offline);
}

#[test]
fn new_user_is_idle_without_address() {
    let before = chrono::Local::now().timestamp();
    let user = User::new("u-1".to_string(), "Alice".to_string());
    let after = chrono::Local::now().timestamp();
    assert_eq!(user.id, "u-1");
    assert_eq!(user.username, "Alice");
    assert_eq!(user.ip_address, None);
    assert_eq!(user.status, CallStatus::Idle);
    assert!(user.last_heartbeat >= 0);
    assert!(before <= user.last_heartbeat && user.last_heartbeat <= after);
}

#[test]
fn registered_at_keeps_the_given_time() {
    let user = User::registered_at("u-2".to_string(), "Bob".to_string(), 1_700_000_000);
    assert_eq!(user.id, "u-2");
    assert_eq!(user.username, "Bob");
    assert_eq!(user.ip_address, None);
    assert_eq!(user.status, CallStatus::Idle);
    assert_eq!(user.last_heartbeat, 1_700_000_000);
}

#[test]
fn setters_change_one_field() {
    let mut user = User::registered_at("u-3".to_string(), "Carol".to_string(), 5);
    user.set_ip_address("10.0.0.7".to_string());
    assert_eq!(user.ip_address, Some("10.0.0.7".to_string()));
    assert_eq!(user.status, CallStatus::Idle);
    user.set_status(CallStatus::OnHold);
    assert_eq!(user.status, CallStatus::OnHold);
    assert_eq!(user.ip_address, Some("10.0.0.7".to_string()));
    user.record_heartbeat(99);
    assert_eq!(user.last_heartbeat, 99);
    assert_eq!(user.id, "u-3");
    assert_eq!(user.username, "Carol");
    assert_eq!(user.status, CallStatus::OnHold);
}

#[test]
fn update_heartbeat_reads_the_clock() {
    let mut user = User::registered_at("u-4".to_string(), "Dan".to_string(), -5);
    let before = chrono::Local::now().timestamp();
    user.update_heartbeat();
    let after = chrono::Local::now().timestamp();
    assert!(before <= user.last_heartbeat && user.last_heartbeat <= after);
    assert_eq!(user.username, "Dan");
}

#[test]
fn clone_copies_every_field() {
    let mut user = User::registered_at("u-5".to_string(), "Eve".to_string(), 42);
    user.set_ip_address("192.168.1.2".to_string());
    user.set_status(CallStatus::InCall);
    let copy = user.clone();
    assert_eq!(copy.id, "u-5");
    assert_eq!(copy.username, "Eve");
    assert_eq!(copy.ip_address, Some("192.168.1.2".to_string()));
    assert_eq!(copy.status, CallStatus::InCall);
    assert_eq!(copy.last_heartbeat, 42);
}

#[test]
fn inactivity_is_a_strict_comparison() {
    let user = User::registered_at("u-6".to_string(), "Fay".to_string(), 1_000);
    assert!(!user.is_inactive_at(1_030, 30));
    assert!(user.is_inactive_at(1_031, 30));
    assert!(!user.is_inactive_at(1_000, 0));
    assert!(user.is_inactive_at(1_001, 0));
    assert!(user.is_inactive_at(999, -2));
    assert!(!user.is_inactive_at(999, -1));
}

#[test]
fn inactivity_does_not_overflow() {
    let early = User::registered_at("u-7".to_string(), "Gus".to_string(), i64::MIN);
    assert!(early.is_inactive_at(i64::MAX, i64::MAX));
    assert!(early.is_inactive_at(0, i64::MAX));
    assert!(!early.is_inactive_at(-1, i64::MAX));
    let late = User::registered_at("u-8".to_string(), "Hal".to_string(), i64::MAX);
    assert!(!late.is_inactive_at(i64::MIN, i64::MIN));
    assert!(late.is_inactive_at(0, i64::MIN));
}

#[test]
fn inactivity_by_the_clock() {
    let long_ago = User::registered_at("u-9".to_string(), "Ida".to_string(), 0);
    assert!(long_ago.is_inactive(60));
    assert!(!long_ago.is_inactive(i64::MAX));
    let fresh = User::new("u-10".to_string(), "Jon".to_string());
    assert!(!fresh.is_inactive(3_600));
}

#[test]
fn registered_user_is_found_idle() {
    let mut manager = CallManager::new();
    assert!(manager.get_user("alice-id").is_none());
    manager.register_user("alice-id".to_string(), "Alice".to_string());
    let alice = manager.get_user("alice-id").unwrap();
    assert_eq!(alice.id, "alice-id");
    assert_eq!(alice.username, "Alice");
    assert_eq!(alice.status, CallStatus::Idle);
    assert_eq!(alice.ip_address, None);
    assert!(alice.last_heartbeat >= 0);
}

#[test]
fn register_user_at_keeps_the_given_time() {
    let mut manager = CallManager::new();
    manager.register_user_at("bob-id".to_string(), "Bob".to_string(), 77);
    let bob = manager.get_user("bob-id").unwrap();
    assert_eq!(bob.username, "Bob");
    assert_eq!(bob.last_heartbeat, 77);
    assert_eq!(bob.status, CallStatus::Idle);
}

#[test]
fn register_new_user_draws_distinct_ids() {
    let mut manager = CallManager::new();
    let first = manager.register_new_user("Alice".to_string());
    let second = manager.register_new_user("Alice".to_string());
    assert_ne!(first, second);
    assert_eq!(uuid::Uuid::parse_str(&first).unwrap().get_version_num(), 4);
    assert_eq!(uuid::Uuid::parse_str(&second).unwrap().get_version_num(), 4);
    assert_eq!(first, uuid::Uuid::parse_str(&first).unwrap().to_string());
    assert_eq!(manager.get_user(&first).unwrap().username, "Alice");
    assert_eq!(manager.get_user(&first).unwrap().status, CallStatus::Idle);
    assert_eq!(manager.get_user(&second).unwrap().status, CallStatus::Idle);
    assert_eq!(manager.list_users().len(), 2);
}

#[test]
fn lookup_tells_similar_ids_apart() {
    let mut manager = CallManager::new();
    manager.register_user("abc".to_string(), "First".to_string());
    manager.register_user("abd".to_string(), "Second".to_string());
    manager.register_user("ab".to_string(), "Third".to_string());
    manager.register_user("".to_string(), "Nameless".to_string());
    assert_eq!(manager.get_user("abc").unwrap().username, "First");
    assert_eq!(manager.get_user("abd").unwrap().username, "Second");
    assert_eq!(manager.get_user("ab").unwrap().username, "Third");
    assert_eq!(manager.get_user("").unwrap().username, "Nameless");
    assert!(manager.get_user("abcd").is_none());
    assert!(manager.get_user("ABC").is_none());
    assert!(manager.get_user("a").is_none());
}

#[test]
fn registering_an_id_again_replaces_the_user() {
    let mut manager = CallManager::new();
    manager.register_user_at("id-1".to_string(), "Old".to_string(), 1);
    assert!(manager.update_user_ip("id-1", "1.2.3.4".to_string()));
    assert!(manager.update_user_status("id-1", CallStatus::OnHold));
    manager.register_user_at("id-2".to_string(), "Other".to_string(), 2);
    manager.register_user_at("id-1".to_string(), "New".to_string(), 3);
    let user = manager.get_user("id-1").unwrap();
    assert_eq!(user.username, "New");
    assert_eq!(user.status, CallStatus::Idle);
    assert_eq!(user.ip_address, None);
    assert_eq!(user.last_heartbeat, 3);
    assert_eq!(manager.get_user("id-2").unwrap().username, "Other");
    assert_eq!(ids_of(&manager.list_users()), vec!["id-1".to_string(), "id-2".to_string()]);
}

#[test]
fn list_holds_each_active_user_once() {
    let mut manager = CallManager::new();
    assert!(manager.list_users().is_empty());
    manager.register_user("a".to_string(), "A".to_string());
    manager.register_user("b".to_string(), "B".to_string());
    manager.register_user("c".to_string(), "C".to_string());
    manager.register_user("d".to_string(), "D".to_string());
    assert!(manager.update_user_status("b", CallStatus::InCall));
    assert!(manager.update_user_status("c", CallStatus::Offline));
    assert!(manager.disconnect_user("d"));
    let listed = manager.list_users();
    assert_eq!(ids_of(&listed), vec!["a".to_string(), "b".to_string()]);
    for user in &listed {
        assert_ne!(user.status, CallStatus::Offline);
        let stored = manager.get_user(&user.id).unwrap();
        assert_eq!(stored.username, user.username);
        assert_eq!(stored.status, user.status);
    }
    assert!(manager.update_user_status("c", CallStatus::Idle));
    assert_eq!(
        ids_of(&manager.list_users()),
        vec!["a".to_string(), "b".to_string(), "c".to_string()]
    );
}

#[test]
fn disconnect_keeps_the_record() {
    let mut manager = CallManager::new();
    manager.register_user_at("a".to_string(), "Alice".to_string(), 9);
    assert!(manager.update_user_ip("a", "10.1.1.1".to_string()));
    assert!(manager.disconnect_user("a"));
    let alice = manager.get_user("a").unwrap();
    assert_eq!(alice.status, CallStatus::Offline);
    assert_eq!(alice.username, "Alice");
    assert_eq!(alice.ip_address, Some("10.1.1.1".to_string()));
    assert_eq!(alice.last_heartbeat, 9);
    assert!(manager.list_users().is_empty());
    assert!(manager.disconnect_user("a"));
    assert_eq!(manager.get_user("a").unwrap().status, CallStatus::Offline);
}

#[test]
fn unknown_user_is_reported_not_raised() {
    let mut manager = CallManager::new();
    manager.register_user("a".to_string(), "Alice".to_string());
    assert!(!manager.disconnect_user("nobody"));
    assert!(!manager.update_user_status("nobody", CallStatus::InCall));
    assert!(!manager.update_user_ip("nobody", "8.8.8.8".to_string()));
    assert!(manager.get_user("nobody").is_none());
    let alice = manager.get_user("a").unwrap();
    assert_eq!(alice.status, CallStatus::Idle);
    assert_eq!(alice.ip_address, None);
    assert_eq!(manager.list_users().len(), 1);
}

#[test]
fn status_and_address_updates_touch_one_user() {
    let mut manager = CallManager::new();
    manager.register_user("a".to_string(), "Alice".to_string());
    manager.register_user("b".to_string(), "Bob".to_string());
    assert!(manager.update_user_status("a", CallStatus::Calling));
    assert!(manager.update_user_ip("b", "172.16.0.9".to_string()));
    let alice = manager.get_user("a").unwrap();
    assert_eq!(alice.status, CallStatus::Calling);
    assert_eq!(alice.ip_address, None);
    assert_eq!(alice.username, "Alice");
    let bob = manager.get_user("b").unwrap();
    assert_eq!(bob.status, CallStatus::Idle);
    assert_eq!(bob.ip_address, Some("172.16.0.9".to_string()));
    assert!(manager.update_user_ip("b", "172.16.0.10".to_string()));
    assert_eq!(
        manager.get_user("b").unwrap().ip_address,
        Some("172.16.0.10".to_string())
    );
}
