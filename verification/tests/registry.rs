use ruggine::fanout::broadcast;
use ruggine::protocol::ProtocolMessage;
use ruggine::registry::{RegistryError, SessionRegistry};

fn sorted(mut members: Vec<(String, u64)>) -> Vec<(String, u64)> {
    members.sort();
    members
}

#[test]
fn new_registry_is_empty() {
    let registry = SessionRegistry::new();
    assert_eq!(registry.len(), 0);
    assert!(!registry.contains("u1"));
    assert!(registry.get("u1").is_none());
    assert!(registry.snapshot_members_of("g1").is_empty());
}

#[test]
fn upsert_installs_a_session_without_group() {
    let mut registry = SessionRegistry::new();
    registry.upsert("u1".to_string(), 7);
    assert_eq!(registry.len(), 1);
    let session = registry.get("u1").expect("session");
    assert_eq!(session.user_id, "u1");
    assert_eq!(session.socket, 7);
    assert_eq!(session.current_group, None);
}

#[test]
fn upsert_replaces_the_session_of_the_same_user() {
    let mut registry = SessionRegistry::new();
    registry.upsert("u1".to_string(), 7);
    assert_eq!(registry.set_group("u1", Some("g1".to_string())), Ok(()));
    registry.upsert("u1".to_string(), 9);
    assert_eq!(registry.len(), 1);
    let session = registry.get("u1").expect("session");
    assert_eq!(session.socket, 9);
    assert_eq!(session.current_group, None);
    assert!(registry.snapshot_members_of("g1").is_empty());
}

#[test]
fn set_group_changes_only_the_named_session() {
    let mut registry = SessionRegistry::new();
    registry.upsert("u1".to_string(), 1);
    registry.upsert("u2".to_string(), 2);
    assert_eq!(registry.set_group("u2", Some("g1".to_string())), Ok(()));
    assert_eq!(registry.get("u1").expect("u1").current_group, None);
    assert_eq!(registry.get("u2").expect("u2").current_group, Some("g1".to_string()));
    assert_eq!(registry.get("u2").expect("u2").socket, 2);
}

#[test]
fn set_group_without_session_reports_not_found() {
    let mut registry = SessionRegistry::new();
    registry.upsert("u1".to_string(), 1);
    assert_eq!(registry.set_group("ghost", Some("g1".to_string())), Err(RegistryError::NotFound));
    assert_eq!(registry.len(), 1);
    assert!(!registry.contains("ghost"));
    assert_eq!(registry.get("u1").expect("u1").current_group, None);
}

#[test]
fn remove_is_idempotent() {
    let mut registry = SessionRegistry::new();
    registry.upsert("u1".to_string(), 1);
    registry.upsert("u2".to_string(), 2);
    registry.remove("u1");
    assert_eq!(registry.len(), 1);
    assert!(!registry.contains("u1"));
    assert!(registry.contains("u2"));
    registry.remove("u1");
    assert_eq!(registry.len(), 1);
    assert!(registry.contains("u2"));
}

#[test]
fn snapshot_lists_exactly_the_sessions_in_the_group() {
    let mut registry = SessionRegistry::new();
    registry.upsert("u1".to_string(), 1);
    registry.upsert("u2".to_string(), 2);
    registry.upsert("u3".to_string(), 3);
    registry.upsert("u4".to_string(), 4);
    registry.set_group("u1", Some("g1".to_string())).unwrap();
    registry.set_group("u2", Some("g2".to_string())).unwrap();
    registry.set_group("u3", Some("g1".to_string())).unwrap();
    assert_eq!(
        sorted(registry.snapshot_members_of("g1")),
        vec![("u1".to_string(), 1), ("u3".to_string(), 3)]
    );
    assert_eq!(sorted(registry.snapshot_members_of("g2")), vec![("u2".to_string(), 2)]);
    assert!(registry.snapshot_members_of("g3").is_empty());
}

#[test]
fn snapshot_excludes_a_user_who_went_home_until_the_user_enters_again() {
    let mut registry = SessionRegistry::new();
    registry.upsert("u1".to_string(), 1);
    registry.upsert("u2".to_string(), 2);
    registry.set_group("u1", Some("g1".to_string())).unwrap();
    registry.set_group("u2", Some("g1".to_string())).unwrap();
    registry.set_group("u1", None).unwrap();
    assert_eq!(sorted(registry.snapshot_members_of("g1")), vec![("u2".to_string(), 2)]);
    registry.upsert("u3".to_string(), 3);
    registry.set_group("u2", None).unwrap();
    registry.remove("u3");
    assert!(registry.snapshot_members_of("g1").is_empty());
    registry.set_group("u1", Some("g1".to_string())).unwrap();
    assert_eq!(sorted(registry.snapshot_members_of("g1")), vec![("u1".to_string(), 1)]);
}

#[test]
fn recipients_leave_out_the_excluded_user() {
    let mut registry = SessionRegistry::new();
    registry.upsert("u1".to_string(), 1);
    registry.upsert("u2".to_string(), 2);
    registry.set_group("u1", Some("g1".to_string())).unwrap();
    registry.set_group("u2", Some("g1".to_string())).unwrap();
    assert_eq!(sorted(registry.recipients("g1", Some("u1"))), vec![("u2".to_string(), 2)]);
    assert_eq!(
        sorted(registry.recipients("g1", None)),
        vec![("u1".to_string(), 1), ("u2".to_string(), 2)]
    );
    assert_eq!(
        sorted(registry.recipients("g1", Some("u9"))),
        vec![("u1".to_string(), 1), ("u2".to_string(), 2)]
    );
}

#[test]
fn broadcast_reaches_the_other_members_only() {
    let mut registry = SessionRegistry::new();
    registry.upsert("alice".to_string(), 1);
    registry.upsert("bob".to_string(), 2);
    registry.upsert("carol".to_string(), 3);
    registry.upsert("dave".to_string(), 4);
    registry.set_group("alice", Some("team".to_string())).unwrap();
    registry.set_group("bob", Some("team".to_string())).unwrap();
    registry.set_group("carol", Some("team".to_string())).unwrap();
    registry.set_group("dave", Some("other".to_string())).unwrap();
    let payload = ProtocolMessage::ReloadMessages { recent_messages: Vec::new() };
    let prepared = broadcast(&registry, "team", "alice", payload.clone());
    assert_eq!(prepared.payload, payload);
    assert_eq!(
        sorted(prepared.recipients),
        vec![("bob".to_string(), 2), ("carol".to_string(), 3)]
    );
}

#[test]
fn broadcast_excludes_the_sender_by_identity_not_by_socket() {
    let mut registry = SessionRegistry::new();
    registry.upsert("alice".to_string(), 5);
    registry.upsert("bob".to_string(), 5);
    registry.set_group("alice", Some("team".to_string())).unwrap();
    registry.set_group("bob", Some("team".to_string())).unwrap();
    let prepared = broadcast(
        &registry,
        "team",
        "alice",
        ProtocolMessage::ReloadMessages { recent_messages: Vec::new() },
    );
    assert_eq!(prepared.recipients, vec![("bob".to_string(), 5)]);
}

#[test]
fn broadcast_to_a_group_nobody_views_has_no_recipients() {
    let mut registry = SessionRegistry::new();
    registry.upsert("alice".to_string(), 1);
    registry.set_group("alice", Some("team".to_string())).unwrap();
    let prepared = broadcast(
        &registry,
        "team",
        "alice",
        ProtocolMessage::ReloadMessages { recent_messages: Vec::new() },
    );
    assert!(prepared.recipients.is_empty());
}
