use ruggine::common::{ChatMessage, Group};
use ruggine::database::{
    authenticate, check_username_free, first_column, first_of, found_account, found_group,
    found_group_named, found_user, groups_from_rows, messages_from_rows, narrow, recent_window,
    Database,
};
use ruggine::error::{ErrorKind, StoreError};

fn store() -> Database {
    Database::new(":memory:").expect("in-memory database")
}

fn message(id: &str) -> ChatMessage {
    ChatMessage {
        id: id.to_string(),
        content: format!("content {}", id),
        username: "alice".to_string(),
        timestamp: format!("2024-01-01T00:00:{}+00:00", id),
    }
}

#[test]
fn register_then_login_with_the_right_and_the_wrong_password() {
    let db = store();
    let id = db.register_user("alice", "pw1").expect("registered");
    assert_eq!(id.len(), 36);
    assert_eq!(db.login_user("alice", "pw1"), Ok(id));
    assert_eq!(db.login_user("alice", "wrong"), Err(StoreError::InvalidPassword));
    assert_eq!(db.login_user("nobody", "pw1"), Err(StoreError::UnknownAccount));
    assert_eq!(db.get_user_count().expect("count"), 1);
}

#[test]
fn register_refuses_a_name_that_is_taken() {
    let db = store();
    db.register_user("alice", "pw1").expect("registered");
    assert_eq!(db.register_user("alice", "pw2"), Err(StoreError::UsernameTaken));
    assert_eq!(db.get_all_users(), Ok(vec!["alice".to_string()]));
}

#[test]
fn create_group_makes_the_creator_a_member() {
    let db = store();
    let alice = db.register_user("alice", "pw1").expect("registered");
    assert_eq!(db.create_group("team", &alice), Ok(()));
    assert_eq!(db.get_group_members("team"), Ok(vec!["alice".to_string()]));
    let groups = db.get_user_groups(&alice).expect("groups");
    assert_eq!(groups.len(), 1);
    assert_eq!(groups[0].name, "team");
    assert_eq!(groups[0].creator_id, alice);
    assert!(groups[0].members.is_empty());
    assert_eq!(db.get_group_id("team"), Ok(groups[0].id.clone()));
    assert_eq!(db.get_group_count().expect("count"), 1);
}

#[test]
fn create_group_fails_on_a_name_that_is_in_use() {
    let db = store();
    let alice = db.register_user("alice", "pw1").expect("registered");
    db.create_group("team", &alice).expect("created");
    let second = db.create_group("team", &alice);
    assert!(matches!(second, Err(StoreError::Backend(_))));
    assert_eq!(db.get_group_count().expect("count"), 1);
}

#[test]
fn get_group_id_names_the_group_it_did_not_find() {
    let db = store();
    let missing = db.get_group_id("nowhere").expect_err("no such group");
    assert_eq!(missing, StoreError::NoSuchGroup("nowhere".to_string()));
    assert_eq!(missing.to_string(), "Group 'nowhere' not found");
    assert_eq!(missing.kind(), ErrorKind::NotFound);
}

#[test]
fn join_group_admits_a_newcomer_and_lets_a_member_enter_again() {
    let db = store();
    let alice = db.register_user("alice", "pw1").expect("alice");
    let bob = db.register_user("bob", "pw2").expect("bob");
    db.create_group("team", &alice).expect("created");
    assert_eq!(db.join_group("team", &bob), Ok(()));
    assert_eq!(db.join_group("team", &bob), Ok(()));
    assert_eq!(db.join_group("team", &alice), Ok(()));
    assert_eq!(
        db.get_group_members("team"),
        Ok(vec!["alice".to_string(), "bob".to_string()])
    );
    assert_eq!(db.join_group("nowhere", &bob), Err(StoreError::GroupNotFound));
}

#[test]
fn a_user_who_left_cannot_rejoin_until_a_member_invites_the_user() {
    let db = store();
    let alice = db.register_user("alice", "pw1").expect("alice");
    let bob = db.register_user("bob", "pw2").expect("bob");
    db.create_group("team", &alice).expect("created");
    db.join_group("team", &bob).expect("bob joins");
    assert_eq!(db.leave_group("team", &alice), Ok(()));
    assert_eq!(db.get_group_members("team"), Ok(vec!["bob".to_string()]));
    let refused = db.join_group("team", &alice).expect_err("barred");
    assert_eq!(refused, StoreError::RejoinBarred);
    assert_eq!(refused.kind(), ErrorKind::Membership);
    assert_eq!(db.join_group("team", &alice), Err(StoreError::RejoinBarred));
    assert_eq!(db.get_group_members("team"), Ok(vec!["bob".to_string()]));
    assert_eq!(db.invite_user_to_group("team", "alice", &bob), Ok(()));
    assert_eq!(db.join_group("team", &alice), Ok(()));
    assert_eq!(
        db.get_group_members("team"),
        Ok(vec!["alice".to_string(), "bob".to_string()])
    );
    assert_eq!(db.leave_group("team", &alice), Ok(()));
    assert_eq!(db.join_group("team", &alice), Err(StoreError::RejoinBarred));
}

#[test]
fn an_invitation_by_a_user_who_left_does_not_lift_the_bar() {
    let db = store();
    let alice = db.register_user("alice", "pw1").expect("alice");
    let bob = db.register_user("bob", "pw2").expect("bob");
    db.create_group("team", &alice).expect("created");
    db.join_group("team", &bob).expect("bob joins");
    db.leave_group("team", &alice).expect("alice leaves");
    db.leave_group("team", &bob).expect("bob leaves");
    assert_eq!(db.invite_user_to_group("team", "alice", &bob), Err(StoreError::NotAMember));
    assert_eq!(db.join_group("team", &alice), Err(StoreError::RejoinBarred));
}

#[test]
fn invite_reports_each_reason_to_refuse() {
    let db = store();
    let alice = db.register_user("alice", "pw1").expect("alice");
    let bob = db.register_user("bob", "pw2").expect("bob");
    db.create_group("team", &alice).expect("created");
    assert_eq!(db.invite_user_to_group("nowhere", "bob", &alice), Err(StoreError::GroupNotFound));
    assert_eq!(db.invite_user_to_group("team", "alice", &bob), Err(StoreError::NotAMember));
    assert_eq!(db.invite_user_to_group("team", "nobody", &alice), Err(StoreError::UserNotFound));
    assert_eq!(db.invite_user_to_group("team", "bob", &alice), Ok(()));
    assert_eq!(db.invite_user_to_group("team", "bob", &alice), Err(StoreError::AlreadyInGroup));
}

#[test]
fn leave_reports_each_reason_to_refuse() {
    let db = store();
    let alice = db.register_user("alice", "pw1").expect("alice");
    let bob = db.register_user("bob", "pw2").expect("bob");
    db.create_group("team", &alice).expect("created");
    assert_eq!(db.leave_group("nowhere", &alice), Err(StoreError::GroupNotFound));
    assert_eq!(db.leave_group("team", &bob), Err(StoreError::NotAMember));
    assert_eq!(db.leave_group("team", &alice), Ok(()));
    assert_eq!(db.leave_group("team", &alice), Err(StoreError::NotAMember));
}

#[test]
fn send_message_returns_what_was_stored() {
    let db = store();
    let alice = db.register_user("alice", "pw1").expect("alice");
    let bob = db.register_user("bob", "pw2").expect("bob");
    db.create_group("team", &alice).expect("created");
    let group_id = db.get_group_id("team").expect("group id");
    let sent = db.send_message("team", &alice, "hi").expect("sent");
    assert_eq!(sent.len(), 5);
    assert_eq!(sent[0].len(), 36);
    assert_eq!(sent[1], group_id);
    assert_eq!(sent[2], alice);
    assert_eq!(sent[3], "hi");
    assert!(!sent[4].is_empty());
    assert_eq!(db.send_message("team", &bob, "hi"), Err(StoreError::NotAMember));
    assert_eq!(db.send_message("nowhere", &alice, "hi"), Err(StoreError::GroupNotFound));
    assert_eq!(db.get_message_count().expect("count"), 1);
}

#[test]
fn recent_messages_are_the_newest_in_ascending_order() {
    let db = store();
    let alice = db.register_user("alice", "pw1").expect("alice");
    db.create_group("team", &alice).expect("created");
    for n in 0..25 {
        db.send_message("team", &alice, &format!("message {:02}", n)).expect("sent");
    }
    let window = db.get_recent_messages("team", 20).expect("window");
    assert_eq!(window.len(), 20);
    let contents: Vec<String> = window.iter().map(|m| m.content.clone()).collect();
    let expected: Vec<String> = (5..25).map(|n| format!("message {:02}", n)).collect();
    assert_eq!(contents, expected);
    for pair in window.windows(2) {
        assert!(pair[0].timestamp <= pair[1].timestamp);
    }
    for message in &window {
        assert_eq!(message.username, "alice");
    }
    let three = db.get_recent_messages("team", 3).expect("window");
    let contents: Vec<String> = three.iter().map(|m| m.content.clone()).collect();
    assert_eq!(
        contents,
        vec!["message 22".to_string(), "message 23".to_string(), "message 24".to_string()]
    );
    assert_eq!(db.get_recent_messages("team", 0), Ok(Vec::new()));
    assert_eq!(db.get_recent_messages("nowhere", 20), Err(StoreError::GroupNotFound));
}

#[test]
fn recent_messages_of_a_silent_group_are_none() {
    let db = store();
    let alice = db.register_user("alice", "pw1").expect("alice");
    db.create_group("team", &alice).expect("created");
    assert_eq!(db.get_recent_messages("team", 20), Ok(Vec::new()));
}

#[test]
fn clones_of_the_store_share_the_data() {
    let db = store();
    let other = db.clone();
    let alice = db.register_user("alice", "pw1").expect("alice");
    assert_eq!(other.login_user("alice", "pw1"), Ok(alice));
}

#[test]
fn recent_window_turns_the_rows_round() {
    let rows = vec![message("03"), message("02"), message("01")];
    assert_eq!(recent_window(rows, 20), vec![message("01"), message("02"), message("03")]);
}

#[test]
fn recent_window_keeps_the_newest_within_the_limit() {
    let rows = vec![message("04"), message("03"), message("02"), message("01")];
    assert_eq!(recent_window(rows, 2), vec![message("03"), message("04")]);
    let rows = vec![message("02"), message("01")];
    assert_eq!(recent_window(rows, 2), vec![message("01"), message("02")]);
    assert_eq!(recent_window(vec![message("01")], 0), Vec::new());
    assert_eq!(recent_window(Vec::new(), 5), Vec::new());
}

#[test]
fn check_username_free_refuses_a_taken_name() {
    assert_eq!(check_username_free(false), Ok(()));
    assert_eq!(check_username_free(true), Err(StoreError::UsernameTaken));
}

#[test]
fn authenticate_follows_the_verdict() {
    assert_eq!(authenticate("u1".to_string(), Ok(true)), Ok("u1".to_string()));
    assert_eq!(authenticate("u1".to_string(), Ok(false)), Err(StoreError::InvalidPassword));
    let unreadable = bcrypt::verify("pw1", "not a hash");
    assert!(unreadable.is_err());
    assert!(matches!(
        authenticate("u1".to_string(), unreadable),
        Err(StoreError::Backend(_))
    ));
}

#[test]
fn first_of_takes_the_first_row() {
    assert_eq!(first_of(Vec::new()), None);
    assert_eq!(
        first_of(vec![vec!["a".to_string(), "b".to_string()], vec!["c".to_string()]]),
        Some(vec!["a".to_string(), "b".to_string()])
    );
}

#[test]
fn a_database_that_cannot_be_opened_is_an_error() {
    assert!(Database::new("/nonexistent-directory/of/ruggine/store.db").is_err());
}

fn row(cells: &[&str]) -> Vec<String> {
    cells.iter().map(|cell| cell.to_string()).collect()
}

#[test]
fn narrow_keeps_the_lower_32_bits() {
    assert_eq!(narrow(0), 0);
    assert_eq!(narrow(7), 7);
    assert_eq!(narrow(4294967295), 4294967295);
    assert_eq!(narrow(4294967296), 0);
    assert_eq!(narrow(4294967303), 7);
    assert_eq!(narrow(-1), 4294967295);
}

#[test]
fn first_column_takes_the_first_entry_of_every_row() {
    assert_eq!(first_column(&Vec::new()), Vec::<String>::new());
    assert_eq!(
        first_column(&vec![row(&["bob"]), row(&["alice"]), row(&["bob"])]),
        vec!["bob".to_string(), "alice".to_string(), "bob".to_string()]
    );
}

#[test]
fn groups_from_rows_reads_the_four_columns_in_order() {
    assert_eq!(groups_from_rows(&Vec::new()), Vec::new());
    assert_eq!(
        groups_from_rows(&vec![
            row(&["g1", "team", "u1", "2024-01-01T00:00:00+00:00"]),
            row(&["g2", "friends", "u2", ""]),
        ]),
        vec![
            Group {
                id: "g1".to_string(),
                name: "team".to_string(),
                members: Vec::new(),
                creator_id: "u1".to_string(),
                created_at: "2024-01-01T00:00:00+00:00".to_string(),
            },
            Group {
                id: "g2".to_string(),
                name: "friends".to_string(),
                members: Vec::new(),
                creator_id: "u2".to_string(),
                created_at: String::new(),
            },
        ]
    );
}

#[test]
fn messages_from_rows_reads_the_four_columns_in_order() {
    assert_eq!(messages_from_rows(&Vec::new()), Vec::new());
    assert_eq!(
        messages_from_rows(&vec![
            row(&["m2", "second", "bob", "2024-01-01T00:00:02+00:00"]),
            row(&["m1", "first", "alice", "2024-01-01T00:00:01+00:00"]),
        ]),
        vec![
            ChatMessage {
                id: "m2".to_string(),
                content: "second".to_string(),
                username: "bob".to_string(),
                timestamp: "2024-01-01T00:00:02+00:00".to_string(),
            },
            ChatMessage {
                id: "m1".to_string(),
                content: "first".to_string(),
                username: "alice".to_string(),
                timestamp: "2024-01-01T00:00:01+00:00".to_string(),
            },
        ]
    );
}

#[test]
fn a_lookup_without_row_gives_the_error_of_what_is_missing() {
    assert_eq!(found_group(None), Err(StoreError::GroupNotFound));
    assert_eq!(found_group(Some(row(&["g1"]))), Ok("g1".to_string()));
    assert_eq!(found_user(None), Err(StoreError::UserNotFound));
    assert_eq!(found_user(Some(row(&["u1"]))), Ok("u1".to_string()));
    assert_eq!(
        found_group_named(None, "team"),
        Err(StoreError::NoSuchGroup("team".to_string()))
    );
    assert_eq!(found_group_named(Some(row(&["g1"])), "team"), Ok("g1".to_string()));
    assert_eq!(found_account(None), Err(StoreError::UnknownAccount));
    assert_eq!(
        found_account(Some(row(&["u1", "$2b$12$hash"]))),
        Ok(("u1".to_string(), "$2b$12$hash".to_string()))
    );
}

#[test]
fn joining_a_group_that_is_missing_changes_nothing() {
    let db = store();
    let alice = db.register_user("alice", "pw1").expect("alice");
    assert_eq!(db.join_group("team", &alice), Err(StoreError::GroupNotFound));
    assert_eq!(db.get_group_count().expect("count"), 0);
    assert_eq!(db.get_user_groups(&alice), Ok(Vec::new()));
    db.create_group("team", &alice).expect("created");
    assert_eq!(db.join_group("other", &alice), Err(StoreError::GroupNotFound));
    assert_eq!(db.get_group_count().expect("count"), 1);
    assert_eq!(db.get_group_members("team"), Ok(vec!["alice".to_string()]));
}
