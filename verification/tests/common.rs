use ruggine::common::{
    contains_id, ChatMessage, Group, GroupInvite, Message, ServerStats, User,
};

fn group_with(members: &[&str]) -> Group {
    Group {
        id: "g1".to_string(),
        name: "team".to_string(),
        members: members.iter().map(|m| m.to_string()).collect(),
        creator_id: "u1".to_string(),
        created_at: "2024-01-01T00:00:00+00:00".to_string(),
    }
}

#[test]
fn new_group_has_its_creator_as_only_member() {
    let group = Group::new("team".to_string(), "u1".to_string());
    assert_eq!(group.name, "team");
    assert_eq!(group.creator_id, "u1");
    assert_eq!(group.members, vec!["u1".to_string()]);
    assert_eq!(group.id.len(), 36);
    assert!(!group.created_at.is_empty());
}

#[test]
fn two_new_groups_have_different_identifiers() {
    let first = Group::new("team".to_string(), "u1".to_string());
    let second = Group::new("team".to_string(), "u1".to_string());
    assert_ne!(first.id, second.id);
}

#[test]
fn add_member_appends_a_new_member() {
    let mut group = group_with(&["u1"]);
    group.add_member("u2".to_string());
    assert_eq!(group.members, vec!["u1".to_string(), "u2".to_string()]);
    assert_eq!(group.name, "team");
    assert_eq!(group.id, "g1");
}

#[test]
fn add_member_ignores_a_member() {
    let mut group = group_with(&["u1", "u2"]);
    group.add_member("u1".to_string());
    assert_eq!(group.members, vec!["u1".to_string(), "u2".to_string()]);
}

#[test]
fn remove_member_keeps_the_order_of_the_others() {
    let mut group = group_with(&["u1", "u2", "u3", "u2"]);
    group.remove_member(&"u2".to_string());
    assert_eq!(group.members, vec!["u1".to_string(), "u3".to_string()]);
    assert_eq!(group.creator_id, "u1");
}

#[test]
fn remove_member_of_a_stranger_changes_nothing() {
    let mut group = group_with(&["u1", "u2"]);
    group.remove_member(&"u9".to_string());
    assert_eq!(group, group_with(&["u1", "u2"]));
}

#[test]
fn contains_id_compares_whole_identifiers() {
    let ids = vec!["u1".to_string(), "u22".to_string()];
    assert!(contains_id(&ids, "u22"));
    assert!(!contains_id(&ids, "u2"));
    assert!(!contains_id(&Vec::new(), "u1"));
}

#[test]
fn clones_are_equal_to_what_they_were_made_from() {
    let group = group_with(&["u1", "u2"]);
    assert_eq!(group.clone(), group);
    let message = ChatMessage {
        id: "m1".to_string(),
        content: "hi".to_string(),
        username: "alice".to_string(),
        timestamp: "2024-01-01T00:00:00+00:00".to_string(),
    };
    assert_eq!(message.clone(), message);
}

#[test]
fn new_user_is_connected() {
    let user = User::new("alice".to_string());
    assert_eq!(user.username, "alice");
    assert!(user.connected);
    assert_eq!(user.id.len(), 36);
    assert_eq!(user.clone(), user);
}

#[test]
fn new_message_keeps_what_it_is_given() {
    let message = Message::new(
        "m1".to_string(),
        "u1".to_string(),
        "g1".to_string(),
        "hello".to_string(),
    );
    assert_eq!(message.id, "m1");
    assert_eq!(message.sender, "u1");
    assert_eq!(message.group_id, "g1");
    assert_eq!(message.content, "hello");
    assert!(!message.timestamp.is_empty());
    assert_eq!(message.clone(), message);
}

#[test]
fn new_invite_keeps_what_it_is_given() {
    let invite = GroupInvite::new("g1".to_string(), "u2".to_string(), "u1".to_string());
    assert_eq!(invite.group_id, "g1");
    assert_eq!(invite.invited_user, "u2");
    assert_eq!(invite.inviter, "u1");
    assert_eq!(invite.id.len(), 36);
    assert_eq!(invite.clone(), invite);
}

#[test]
fn new_stats_keep_the_counters() {
    let stats = ServerStats::new(12, 3, 40, 5, 6);
    assert_eq!(stats.cpu_time_ms, 12);
    assert_eq!(stats.active_connections, 3);
    assert_eq!(stats.total_messages, 40);
    assert_eq!(stats.total_groups, 5);
    assert_eq!(stats.total_users, 6);
    assert_eq!(stats.clone(), stats);
}
