use ruggine::common::{ChatMessage, Group, Message};
use ruggine::protocol::ProtocolMessage;
use ruggine::ui::{ends_conversation, ClientState, Handled, Parsed, UserInterface};

fn ui_in(state: ClientState) -> UserInterface {
    let mut ui = UserInterface::new();
    ui.set_state(state);
    ui
}

fn in_group() -> UserInterface {
    ui_in(ClientState::InGroup("team".to_string()))
}

fn lines(texts: &[&str]) -> Vec<String> {
    texts.iter().map(|t| t.to_string()).collect()
}

fn asks(request: ProtocolMessage) -> Parsed {
    Parsed { request: Some(request), output: Vec::new() }
}

fn says(texts: &[&str]) -> Parsed {
    Parsed { request: None, output: lines(texts) }
}

fn shows(texts: &[&str]) -> Handled {
    Handled { output: lines(texts), recent_messages: None, unrecognized: None }
}

fn chat(content: &str, timestamp: &str) -> ChatMessage {
    ChatMessage {
        id: "m1".to_string(),
        content: content.to_string(),
        username: "alice".to_string(),
        timestamp: timestamp.to_string(),
    }
}

const HOME_COMMANDS: [&str; 6] = [
    "\n📚 Available commands:",
    "  /groups           - List your groups",
    "  /create <name>    - Create a new group",
    "  /join <name>      - Join a group",
    "  /quit             - Exit application",
    "",
];

const UNKNOWN: &str = "❌ Unknown command. Type /help for available commands.";

#[test]
fn a_new_interface_is_not_authenticated() {
    let ui = UserInterface::new();
    assert_eq!(ui.get_state(), &ClientState::NotAuthenticated);
}

#[test]
fn set_state_then_get_state() {
    let mut ui = UserInterface::new();
    ui.set_state(ClientState::InGroup("team".to_string()));
    assert_eq!(ui.get_state(), &ClientState::InGroup("team".to_string()));
    ui.set_state(ClientState::Home);
    assert_eq!(ui.get_state(), &ClientState::Home);
}

#[test]
fn prompts_name_the_state() {
    assert_eq!(UserInterface::new().show_auth_prompt(), "Ruggine Chat> ");
    assert_eq!(UserInterface::new().show_prompt(), "Ruggine Chat> ");
    assert_eq!(ui_in(ClientState::Home).show_prompt(), "Ruggine [HOME]> ");
    assert_eq!(in_group().show_prompt(), "Ruggine [team]> ");
    assert_eq!(ui_in(ClientState::InGroup(String::new())).show_prompt(), "Ruggine []> ");
}

#[test]
fn welcome_lines() {
    assert_eq!(
        UserInterface::new().show_welcome(),
        lines(&["🚀 Welcome to Ruggine Chat!", "Type /help for available commands."])
    );
}

#[test]
fn help_of_each_state() {
    assert_eq!(
        UserInterface::new().show_help(),
        lines(&[
            "📚 Available commands:",
            "  /register <username> <password> - Register new account",
            "  /login <username> <password>    - Login to existing account",
            "  /quit                           - Exit application",
        ])
    );
    assert_eq!(
        ui_in(ClientState::Home).show_help(),
        lines(&[
            "📚 Available commands:",
            "  /groups           - List your groups",
            "  /create <name>    - Create a new group",
            "  /join <name>      - Join a group",
            "  /quit             - Exit application",
        ])
    );
    assert_eq!(
        in_group().show_help(),
        lines(&[
            "📚 Available commands in group:",
            "  /home             - Return to home",
            "  /quit-group       - Leave current group",
            "  /invite <user>    - Invite user to group",
            "  /users            - List group users",
            "  <message>         - Send message to group",
        ])
    );
}

#[test]
fn available_commands_of_each_state() {
    assert_eq!(
        UserInterface::new().show_available_commands(),
        lines(&[
            "\n📚 Available commands:",
            "  /register <username> <password> - Register new account",
            "  /login <username> <password>    - Login to existing account",
            "  /quit                           - Exit application",
            "",
        ])
    );
    assert_eq!(ui_in(ClientState::Home).show_available_commands(), lines(&HOME_COMMANDS));
    assert_eq!(
        in_group().show_available_commands(),
        lines(&[
            "\n📚 Available commands in group 'team':",
            "  /home             - Return to home",
            "  /quit-group       - Leave current group",
            "  /invite <user>    - Invite user to group",
            "  /users            - List group users",
            "  <message>         - Send message to group",
            "",
        ])
    );
}

#[test]
fn register_and_login_take_a_name_and_a_password() {
    let mut ui = UserInterface::new();
    assert_eq!(
        ui.parse_command("/register alice pw1"),
        asks(ProtocolMessage::Register {
            username: "alice".to_string(),
            password: "pw1".to_string()
        })
    );
    assert_eq!(
        ui.parse_command("/login alice my secret words"),
        asks(ProtocolMessage::Login {
            username: "alice".to_string(),
            password: "my secret words".to_string()
        })
    );
    assert_eq!(
        ui.parse_command("/register  alice"),
        asks(ProtocolMessage::Register { username: String::new(), password: "alice".to_string() })
    );
    assert_eq!(ui.get_state(), &ClientState::NotAuthenticated);
}

#[test]
fn register_and_login_without_both_parts_show_the_usage() {
    let mut ui = UserInterface::new();
    for input in ["/register", "/register alice", "/register alice"] {
        assert_eq!(
            ui.parse_command(input),
            says(&["❌ Usage: /register <username> <password>"])
        );
    }
    for input in ["/login", "/login alice"] {
        assert_eq!(ui.parse_command(input), says(&["❌ Usage: /login <username> <password>"]));
    }
}

#[test]
fn commands_before_authentication() {
    let mut ui = UserInterface::new();
    assert_eq!(ui.parse_command("/quit"), asks(ProtocolMessage::Quit));
    assert_eq!(ui.parse_command("/quit now"), asks(ProtocolMessage::Quit));
    assert_eq!(
        ui.parse_command("/help"),
        says(&[
            "📚 Available commands:",
            "  /register <username> <password> - Register new account",
            "  /login <username> <password>    - Login to existing account",
            "  /quit                           - Exit application",
        ])
    );
    for input in ["/groups", "/join team", "hello", "", "register alice pw1", "/registerx a b"] {
        assert_eq!(ui.parse_command(input), says(&[UNKNOWN]));
    }
    assert_eq!(ui.get_state(), &ClientState::NotAuthenticated);
}

#[test]
fn commands_at_home() {
    let mut ui = ui_in(ClientState::Home);
    assert_eq!(ui.parse_command("/groups"), asks(ProtocolMessage::ListGroups));
    assert_eq!(
        ui.parse_command("/create my team"),
        asks(ProtocolMessage::CreateGroup { name: "my team".to_string() })
    );
    assert_eq!(
        ui.parse_command("/join team"),
        asks(ProtocolMessage::JoinGroup { group_name: "team".to_string() })
    );
    assert_eq!(
        ui.parse_command("/join "),
        asks(ProtocolMessage::JoinGroup { group_name: String::new() })
    );
    assert_eq!(ui.parse_command("/quit"), asks(ProtocolMessage::Quit));
    assert_eq!(ui.parse_command("/create"), says(&["❌ Usage: /create <group_name>"]));
    assert_eq!(ui.parse_command("/join"), says(&["❌ Usage: /join <group_name>"]));
    assert_eq!(
        ui.parse_command("/help"),
        says(&[
            "📚 Available commands:",
            "  /groups           - List your groups",
            "  /create <name>    - Create a new group",
            "  /join <name>      - Join a group",
            "  /quit             - Exit application",
        ])
    );
    for input in ["/home", "/users", "/invite bob", "hello", "/register a b", ""] {
        assert_eq!(ui.parse_command(input), says(&[UNKNOWN]));
    }
    assert_eq!(ui.get_state(), &ClientState::Home);
}

#[test]
fn commands_in_a_group() {
    let mut ui = in_group();
    assert_eq!(
        ui.parse_command("/invite bob"),
        asks(ProtocolMessage::InviteUser {
            username: "bob".to_string(),
            group_name: "team".to_string()
        })
    );
    assert_eq!(ui.parse_command("/invite"), says(&["❌ Usage: /invite <username>"]));
    assert_eq!(
        ui.parse_command("/users"),
        asks(ProtocolMessage::ListGroupUsers { group_name: "team".to_string() })
    );
    assert_eq!(ui.parse_command("/quit"), asks(ProtocolMessage::Quit));
    assert_eq!(
        ui.parse_command("/help"),
        says(&[
            "📚 Available commands in group:",
            "  /home             - Return to home",
            "  /quit-group       - Leave current group",
            "  /invite <user>    - Invite user to group",
            "  /users            - List group users",
            "  <message>         - Send message to group",
        ])
    );
    assert_eq!(ui.get_state(), &ClientState::InGroup("team".to_string()));
}

#[test]
fn anything_else_in_a_group_is_a_message() {
    let mut ui = in_group();
    for input in ["hello there", "hi", "/groups", "/join other", "/unknown", " /home", ""] {
        assert_eq!(
            ui.parse_command(input),
            asks(ProtocolMessage::SendMessage {
                content: input.to_string(),
                group_name: "team".to_string()
            })
        );
    }
    assert_eq!(ui.get_state(), &ClientState::InGroup("team".to_string()));
}

#[test]
fn going_home_moves_the_interface_home() {
    let mut ui = in_group();
    let mut output = vec!["🏠 Returned to home".to_string()];
    output.extend(lines(&HOME_COMMANDS));
    assert_eq!(
        ui.parse_command("/home"),
        Parsed { request: Some(ProtocolMessage::GoHome), output }
    );
    assert_eq!(ui.get_state(), &ClientState::Home);
}

#[test]
fn leaving_the_group_moves_the_interface_home() {
    let mut ui = in_group();
    assert_eq!(
        ui.parse_command("/quit-group"),
        asks(ProtocolMessage::LeaveGroup { group_name: "team".to_string() })
    );
    assert_eq!(ui.get_state(), &ClientState::Home);
}

#[test]
fn a_successful_authentication_moves_the_interface_home() {
    let mut ui = UserInterface::new();
    let mut output = vec!["✅ Registration successful!".to_string()];
    output.extend(lines(&HOME_COMMANDS));
    assert_eq!(
        ui.handle_response(ProtocolMessage::AuthResult {
            success: true,
            user_id: Some("u1".to_string()),
            message: "Registration successful!".to_string(),
        }),
        Handled { output, recent_messages: None, unrecognized: None }
    );
    assert_eq!(ui.get_state(), &ClientState::Home);
}

#[test]
fn a_failed_authentication_leaves_the_interface_where_it_is() {
    let mut ui = UserInterface::new();
    assert_eq!(
        ui.handle_response(ProtocolMessage::AuthResult {
            success: false,
            user_id: None,
            message: "Login failed: Invalid password".to_string(),
        }),
        shows(&["❌ Login failed: Invalid password"])
    );
    assert_eq!(ui.get_state(), &ClientState::NotAuthenticated);
}

#[test]
fn entering_a_group_moves_the_interface_into_it() {
    let mut ui = ui_in(ClientState::Home);
    let window = vec![chat("hi", "2024-01-01T10:20:30+00:00")];
    let handled = ui.handle_response(ProtocolMessage::GroupJoined {
        group: Group {
            id: "temp_id".to_string(),
            name: "team".to_string(),
            members: Vec::new(),
            creator_id: String::new(),
            created_at: String::new(),
        },
        recent_messages: window.clone(),
    });
    assert_eq!(
        handled,
        Handled {
            output: lines(&[
                "✅ Entered group 'team'!",
                "\n📚 Available commands in group 'team':",
                "  /home             - Return to home",
                "  /quit-group       - Leave current group",
                "  /invite <user>    - Invite user to group",
                "  /users            - List group users",
                "  <message>         - Send message to group",
                "",
            ]),
            recent_messages: Some(window),
            unrecognized: None,
        }
    );
    assert_eq!(ui.get_state(), &ClientState::InGroup("team".to_string()));
}

#[test]
fn an_error_after_a_request_to_enter_leaves_the_interface_home() {
    let mut ui = ui_in(ClientState::Home);
    ui.parse_command("/join team");
    assert_eq!(
        ui.handle_response(ProtocolMessage::Error {
            message: "Failed to join group: Group not found".to_string()
        }),
        shows(&["❌ Failed to join group: Group not found"])
    );
    assert_eq!(ui.get_state(), &ClientState::Home);
}

#[test]
fn lists_are_shown_entry_by_entry() {
    let mut ui = ui_in(ClientState::Home);
    assert_eq!(
        ui.handle_response(ProtocolMessage::GroupListResponse { groups: Vec::new() }),
        shows(&["📭 You are not in any groups"])
    );
    let group = |name: &str| Group {
        id: "g".to_string(),
        name: name.to_string(),
        members: Vec::new(),
        creator_id: "u1".to_string(),
        created_at: String::new(),
    };
    assert_eq!(
        ui.handle_response(ProtocolMessage::GroupListResponse {
            groups: vec![group("team"), group("friends")]
        }),
        shows(&["📋 Your groups:", "  • team", "  • friends"])
    );
    assert_eq!(
        ui.handle_response(ProtocolMessage::UserListResponse {
            users: vec!["alice".to_string(), "bob".to_string()]
        }),
        shows(&["👥 Users:", "  • alice", "  • bob"])
    );
    assert_eq!(
        ui.handle_response(ProtocolMessage::UserListResponse { users: Vec::new() }),
        shows(&["👥 Users:"])
    );
    assert_eq!(ui.get_state(), &ClientState::Home);
}

#[test]
fn confirmations_and_errors_are_shown() {
    let mut ui = in_group();
    assert_eq!(
        ui.handle_response(ProtocolMessage::Okay { message: "Left group 'team'!".to_string() }),
        shows(&["✅ Left group 'team'!"])
    );
    assert_eq!(
        ui.handle_response(ProtocolMessage::Error { message: "Not authenticated".to_string() }),
        shows(&["❌ Not authenticated"])
    );
    assert_eq!(ui.get_state(), &ClientState::InGroup("team".to_string()));
}

#[test]
fn messages_bring_their_window() {
    let mut ui = in_group();
    let window = vec![chat("hi", "2024-01-01T10:20:30+00:00")];
    assert_eq!(
        ui.handle_response(ProtocolMessage::MessageReceived {
            message: Message {
                id: "m1".to_string(),
                sender: "u1".to_string(),
                group_id: "g1".to_string(),
                content: "hi".to_string(),
                timestamp: "2024-01-01T10:20:30+00:00".to_string(),
            },
            recent_messages: window.clone(),
        }),
        Handled {
            output: lines(&["✅ Message sent"]),
            recent_messages: Some(window.clone()),
            unrecognized: None
        }
    );
    assert_eq!(
        ui.handle_response(ProtocolMessage::ReloadMessages { recent_messages: window.clone() }),
        Handled {
            output: lines(&["📬 New messages received!"]),
            recent_messages: Some(window),
            unrecognized: None
        }
    );
    assert_eq!(ui.get_state(), &ClientState::InGroup("team".to_string()));
}

#[test]
fn other_messages_are_handed_back() {
    let mut ui = in_group();
    for message in [ProtocolMessage::Pong, ProtocolMessage::GroupLeft, ProtocolMessage::Quit] {
        assert_eq!(
            ui.handle_response(message.clone()),
            Handled { output: Vec::new(), recent_messages: None, unrecognized: Some(message) }
        );
    }
    assert_eq!(ui.get_state(), &ClientState::InGroup("team".to_string()));
}

#[test]
fn recent_messages_show_the_time_of_day() {
    let ui = in_group();
    assert_eq!(
        ui.show_recent_messages(&vec![
            chat("first", "2024-01-01T10:20:30+00:00"),
            chat("second", "2024-01-01T23:59:59.123456789+02:00"),
            chat("third", "yesterday"),
        ]),
        lines(&[
            "\n💬 Recent messages:",
            "═══════════════════",
            "[10:20:30] alice: first",
            "[23:59:59] alice: second",
            "[yesterday] alice: third",
            "═══════════════════\n",
        ])
    );
}

#[test]
fn no_recent_messages_are_shown_as_such() {
    let ui = in_group();
    assert_eq!(
        ui.show_recent_messages(&Vec::new()),
        lines(&["📭 No recent messages in this group.\n"])
    );
}

#[test]
fn display_message_shows_sender_and_content() {
    let ui = in_group();
    let message = Message {
        id: "m1".to_string(),
        sender: "alice".to_string(),
        group_id: "g1".to_string(),
        content: "hello".to_string(),
        timestamp: "2024-05-06T07:08:09+00:00".to_string(),
    };
    assert_eq!(ui.display_message(&message), "💬 [07:08:09] alice: hello");
}

#[test]
fn only_the_request_to_quit_ends_the_conversation() {
    assert!(ends_conversation(&ProtocolMessage::Quit));
    assert!(!ends_conversation(&ProtocolMessage::QuitGroup));
    assert!(!ends_conversation(&ProtocolMessage::GoHome));
    assert!(!ends_conversation(&ProtocolMessage::LeaveGroup { group_name: "team".to_string() }));
    let mut ui = UserInterface::new();
    let parsed = ui.parse_command("/quit");
    assert!(ends_conversation(&parsed.request.expect("request")));
}
