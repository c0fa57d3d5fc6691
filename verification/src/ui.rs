//! The client's side of the conversation: the state of the user's session,
//! the prompt, and the commands the user types.

use crate::common::{ChatMessage, ChatMessageView, GroupView, Message};
use crate::handler::needs_session;
use crate::protocol::{ProtocolMessage, ProtocolMessageView};
use crate::text::{head_before, split_first, str_eq, tail_after};
use vstd::prelude::*;
use vstd::string::*;

verus! {

/// Where the user is in the conversation with the server.
#[derive(Debug, Clone, PartialEq, Eq)]
pub enum ClientState {
    /// Neither registered nor logged in.
    NotAuthenticated,
    /// Authenticated, in no group.
    Home,
    /// Inside the group of this name.
    InGroup(String),
}

/// The mathematical content of a [`ClientState`].
pub enum ClientStateView {
    NotAuthenticated,
    Home,
    InGroup(Seq<char>),
}

impl DeepView for ClientState {
    type V = ClientStateView;

    open spec fn deep_view(&self) -> ClientStateView {
        match *self {
            ClientState::NotAuthenticated => ClientStateView::NotAuthenticated,
            ClientState::Home => ClientStateView::Home,
            ClientState::InGroup(group_name) => ClientStateView::InGroup(group_name@),
        }
    }
}

/// The prompt shown in a state.
pub open spec fn prompt_of(state: ClientStateView) -> Seq<char> {
    match state {
        ClientStateView::NotAuthenticated => "Ruggine Chat> "@,
        ClientStateView::Home => "Ruggine [HOME]> "@,
        ClientStateView::InGroup(group_name) => "Ruggine ["@ + group_name + "]> "@,
    }
}

/// The interpreter of what the user types and of what the server answers.
pub struct UserInterface {
    current_state: ClientState,
}

impl DeepView for UserInterface {
    type V = ClientStateView;

    closed spec fn deep_view(&self) -> ClientStateView {
        self.current_state.deep_view()
    }
}

impl UserInterface {
    /// An interface whose user is not authenticated yet.
    pub fn new() -> (ui: UserInterface)
        ensures
            ui.deep_view() == ClientStateView::NotAuthenticated,
    {
        UserInterface { current_state: ClientState::NotAuthenticated }
    }

    /// The prompt before authentication.
    pub fn show_auth_prompt(&self) -> (prompt: String)
        requires
            self.deep_view() is NotAuthenticated,
        ensures
            prompt@ == prompt_of(self.deep_view()),
    {
        String::from_str("Ruggine Chat> ")
    }

    /// The prompt of the current state.
    pub fn show_prompt(&self) -> (prompt: String)
        ensures
            prompt@ == prompt_of(self.deep_view()),
    {
        match &self.current_state {
            ClientState::NotAuthenticated => String::from_str("Ruggine Chat> "),
            ClientState::Home => String::from_str("Ruggine [HOME]> "),
            ClientState::InGroup(group_name) => String::from_str("Ruggine [").concat(
                group_name.as_str(),
            ).concat("]> "),
        }
    }

    /// Moves the interface to `state`.
    pub fn set_state(&mut self, state: ClientState)
        ensures
            final(self).deep_view() == state.deep_view(),
    {
        self.current_state = state;
    }

    /// The current state.
    pub fn get_state(&self) -> (state: &ClientState)
        ensures
            state.deep_view() == self.deep_view(),
    {
        &self.current_state
    }

    /// The lines that greet the user.
    pub fn show_welcome(&self) -> (lines: Vec<String>)
        ensures
            lines.deep_view() == seq![
                "🚀 Welcome to Ruggine Chat!"@,
                "Type /help for available commands."@,
            ],
    {
        let mut lines: Vec<String> = Vec::new();
        push_line(&mut lines, "🚀 Welcome to Ruggine Chat!");
        push_line(&mut lines, "Type /help for available commands.");
        lines
    }

    /// The help for the current state: a heading, then the commands.
    pub fn show_help(&self) -> (lines: Vec<String>)
        ensures
            lines.deep_view() == help_of(self.deep_view()),
    {
        let mut lines: Vec<String> = Vec::new();
        match &self.current_state {
            ClientState::InGroup(_) => push_line(&mut lines, "📚 Available commands in group:"),
            _ => push_line(&mut lines, "📚 Available commands:"),
        }
        push_commands(&mut lines, &self.current_state);
        lines
    }

    /// The commands of the current state, set off by blank lines, as they
    /// are shown whenever the state has changed.
    pub fn show_available_commands(&self) -> (lines: Vec<String>)
        ensures
            lines.deep_view() == available_commands_of(self.deep_view()),
    {
        available_commands(&self.current_state)
    }

    /// The lines that show a window of recent messages: each message with
    /// the time of day of its timestamp, or with the timestamp itself where
    /// it cannot be read.
    pub fn show_recent_messages(&self, messages: &Vec<ChatMessage>) -> (lines: Vec<String>)
        ensures
            lines.deep_view() == recent_messages_of(messages.deep_view()),
    {
        let mut lines: Vec<String> = Vec::new();
        if messages.len() == 0 {
            push_line(&mut lines, "📭 No recent messages in this group.\n");
            return lines;
        }
        push_line(&mut lines, "\n💬 Recent messages:");
        push_line(&mut lines, "═══════════════════");
        let ghost shown = messages.deep_view();
        let mut i: usize = 0;
        while i < messages.len()
            invariant
                i <= messages.len(),
                shown == messages.deep_view(),
                lines.deep_view() == seq!["\n💬 Recent messages:"@, "═══════════════════"@]
                    + shown.take(i as int).map_values(|m: ChatMessageView| message_line(m)),
            decreases messages.len() - i,
        {
            let message = &messages[i];
            let time = match clock_time(message.timestamp.as_str(), "%H:%M:%S") {
                Some(time) => time,
                None => message.timestamp.clone(),
            };
            let line = String::from_str("[").concat(time.as_str()).concat("] ").concat(
                message.username.as_str(),
            ).concat(": ").concat(message.content.as_str());
            push_owned(&mut lines, line);
            i += 1;
        }
        push_line(&mut lines, "═══════════════════\n");
        lines
    }

    /// The line that shows one message of another user.
    pub fn display_message(&self, message: &Message) -> (line: String)
        ensures
            line@ == "💬 ["@ + time_of(message.timestamp@) + "] "@ + message.sender@ + ": "@
                + message.content@,
    {
        let time = match clock_time(message.timestamp.as_str(), "%H:%M:%S") {
            Some(time) => time,
            None => message.timestamp.clone(),
        };
        String::from_str("💬 [").concat(time.as_str()).concat("] ").concat(
            message.sender.as_str(),
        ).concat(": ").concat(message.content.as_str())
    }

    /// Interprets one line that the user typed. It gives the request to
    /// send to the server, if the line is one, and the lines to show to the
    /// user; going home and leaving a group move the interface home at
    /// once.
    pub fn parse_command(&mut self, input: &str) -> (parsed: Parsed)
        ensures
            parsed.request.deep_view() == parse(old(self).deep_view(), input@).request,
            parsed.output.deep_view() == parse(old(self).deep_view(), input@).output,
            final(self).deep_view() == parse(old(self).deep_view(), input@).state,
    {
        let (command, rest) = split_first(input, ' ');
        let mut output: Vec<String> = Vec::new();
        let mut next: Option<ClientState> = None;
        let request = match &self.current_state {
            ClientState::NotAuthenticated => {
                if str_eq(command, "/register") {
                    match credentials(rest) {
                        Some((username, password)) => Some(
                            ProtocolMessage::Register { username, password },
                        ),
                        None => {
                            push_line(&mut output, "❌ Usage: /register <username> <password>");
                            None
                        },
                    }
                } else if str_eq(command, "/login") {
                    match credentials(rest) {
                        Some((username, password)) => Some(
                            ProtocolMessage::Login { username, password },
                        ),
                        None => {
                            push_line(&mut output, "❌ Usage: /login <username> <password>");
                            None
                        },
                    }
                } else if str_eq(command, "/help") {
                    push_line(&mut output, "📚 Available commands:");
                    push_commands(&mut output, &self.current_state);
                    None
                } else if str_eq(command, "/quit") {
                    Some(ProtocolMessage::Quit)
                } else {
                    push_line(
                        &mut output,
                        "❌ Unknown command. Type /help for available commands.",
                    );
                    None
                }
            },
            ClientState::Home => {
                if str_eq(command, "/help") {
                    push_line(&mut output, "📚 Available commands:");
                    push_commands(&mut output, &self.current_state);
                    None
                } else if str_eq(command, "/groups") {
                    Some(ProtocolMessage::ListGroups)
                } else if str_eq(command, "/create") {
                    match rest {
                        Some(name) => Some(
                            ProtocolMessage::CreateGroup { name: String::from_str(name) },
                        ),
                        None => {
                            push_line(&mut output, "❌ Usage: /create <group_name>");
                            None
                        },
                    }
                } else if str_eq(command, "/join") {
                    match rest {
                        Some(group_name) => Some(
                            ProtocolMessage::JoinGroup { group_name: String::from_str(group_name) },
                        ),
                        None => {
                            push_line(&mut output, "❌ Usage: /join <group_name>");
                            None
                        },
                    }
                } else if str_eq(command, "/quit") {
                    Some(ProtocolMessage::Quit)
                } else {
                    push_line(
                        &mut output,
                        "❌ Unknown command. Type /help for available commands.",
                    );
                    None
                }
            },
            ClientState::InGroup(group_name) => {
                if str_eq(command, "/help") {
                    push_line(&mut output, "📚 Available commands in group:");
                    push_commands(&mut output, &self.current_state);
                    None
                } else if str_eq(command, "/home") {
                    next = Some(ClientState::Home);
                    push_line(&mut output, "🏠 Returned to home");
                    let commands = available_commands(&ClientState::Home);
                    append_lines(&mut output, commands);
                    Some(ProtocolMessage::GoHome)
                } else if str_eq(command, "/quit-group") {
                    next = Some(ClientState::Home);
                    Some(ProtocolMessage::LeaveGroup { group_name: group_name.clone() })
                } else if str_eq(command, "/invite") {
                    match rest {
                        Some(username) => Some(
                            ProtocolMessage::InviteUser {
                                username: String::from_str(username),
                                group_name: group_name.clone(),
                            },
                        ),
                        None => {
                            push_line(&mut output, "❌ Usage: /invite <username>");
                            None
                        },
                    }
                } else if str_eq(command, "/users") {
                    Some(ProtocolMessage::ListGroupUsers { group_name: group_name.clone() })
                } else if str_eq(command, "/quit") {
                    Some(ProtocolMessage::Quit)
                } else {
                    Some(
                        ProtocolMessage::SendMessage {
                            content: String::from_str(input),
                            group_name: group_name.clone(),
                        },
                    )
                }
            },
        };
        match next {
            Some(state) => {
                self.current_state = state;
            },
            None => {},
        }
        Parsed { request, output }
    }

    /// Takes in one message of the server. It gives the lines to show to
    /// the user and the window of recent messages, if the message brings
    /// one. A successful authentication moves the interface home, and the
    /// confirmation that a group was entered moves it into that group.
    pub fn handle_response(&mut self, response: ProtocolMessage) -> (handled: Handled)
        ensures
            handled.output.deep_view() == react(old(self).deep_view(), response.deep_view()).output,
            handled.recent_messages.deep_view() == react(
                old(self).deep_view(),
                response.deep_view(),
            ).recent_messages,
            handled.unrecognized.deep_view() == react(
                old(self).deep_view(),
                response.deep_view(),
            ).unrecognized,
            final(self).deep_view() == react(old(self).deep_view(), response.deep_view()).state,
    {
        let mut output: Vec<String> = Vec::new();
        match response {
            ProtocolMessage::AuthResult { success, user_id, message } => {
                if success {
                    push_owned(&mut output, String::from_str("✅ ").concat(message.as_str()));
                    self.current_state = ClientState::Home;
                    let commands = available_commands(&self.current_state);
                    append_lines(&mut output, commands);
                } else {
                    push_owned(&mut output, String::from_str("❌ ").concat(message.as_str()));
                }
                Handled { output, recent_messages: None, unrecognized: None }
            },
            ProtocolMessage::GroupListResponse { groups } => {
                if groups.len() == 0 {
                    push_line(&mut output, "📭 You are not in any groups");
                } else {
                    push_line(&mut output, "📋 Your groups:");
                    let ghost listed = groups.deep_view();
                    let mut i: usize = 0;
                    while i < groups.len()
                        invariant
                            i <= groups.len(),
                            listed == groups.deep_view(),
                            output.deep_view() == seq!["📋 Your groups:"@] + listed.take(
                                i as int,
                            ).map_values(|g: GroupView| bullet(g.name)),
                        decreases groups.len() - i,
                    {
                        push_owned(
                            &mut output,
                            String::from_str("  • ").concat(groups[i].name.as_str()),
                        );
                        i += 1;
                    }
                }
                Handled { output, recent_messages: None, unrecognized: None }
            },
            ProtocolMessage::GroupJoined { group, recent_messages } => {
                push_owned(
                    &mut output,
                    String::from_str("✅ Entered group '").concat(group.name.as_str()).concat("'!"),
                );
                self.current_state = ClientState::InGroup(group.name);
                let commands = available_commands(&self.current_state);
                append_lines(&mut output, commands);
                Handled { output, recent_messages: Some(recent_messages), unrecognized: None }
            },
            ProtocolMessage::UserListResponse { users } => {
                push_line(&mut output, "👥 Users:");
                let ghost listed = users.deep_view();
                let mut i: usize = 0;
                while i < users.len()
                    invariant
                        i <= users.len(),
                        listed == users.deep_view(),
                        output.deep_view() == seq!["👥 Users:"@] + listed.take(i as int).map_values(
                            |u: Seq<char>| bullet(u),
                        ),
                    decreases users.len() - i,
                {
                    push_owned(&mut output, String::from_str("  • ").concat(users[i].as_str()));
                    i += 1;
                }
                Handled { output, recent_messages: None, unrecognized: None }
            },
            ProtocolMessage::Okay { message } => {
                push_owned(&mut output, String::from_str("✅ ").concat(message.as_str()));
                Handled { output, recent_messages: None, unrecognized: None }
            },
            ProtocolMessage::Error { message } => {
                push_owned(&mut output, String::from_str("❌ ").concat(message.as_str()));
                Handled { output, recent_messages: None, unrecognized: None }
            },
            ProtocolMessage::MessageReceived { message, recent_messages } => {
                push_line(&mut output, "✅ Message sent");
                Handled { output, recent_messages: Some(recent_messages), unrecognized: None }
            },
            ProtocolMessage::ReloadMessages { recent_messages } => {
                push_line(&mut output, "📬 New messages received!");
                Handled { output, recent_messages: Some(recent_messages), unrecognized: None }
            },
            other => Handled { output, recent_messages: None, unrecognized: Some(other) },
        }
    }
}

/// What a line of the user was understood as.
#[derive(Debug, PartialEq, Eq)]
pub struct Parsed {
    /// The request to send to the server, if the line is one.
    pub request: Option<ProtocolMessage>,
    /// The lines to show to the user.
    pub output: Vec<String>,
}

/// What a message of the server leads to on the client.
#[derive(Debug, PartialEq, Eq)]
pub struct Handled {
    /// The lines to show to the user.
    pub output: Vec<String>,
    /// The window of recent messages to show, if the message brought one.
    pub recent_messages: Option<Vec<ChatMessage>>,
    /// The message itself, where the client has no words for it.
    pub unrecognized: Option<ProtocolMessage>,
}

/// The model of [`Parsed`], with the state the interface is left in.
pub struct ParsedView {
    pub request: Option<ProtocolMessageView>,
    pub output: Seq<Seq<char>>,
    pub state: ClientStateView,
}

/// The model of [`Handled`], with the state the interface is left in.
pub struct HandledView {
    pub output: Seq<Seq<char>>,
    pub recent_messages: Option<Seq<ChatMessageView>>,
    pub unrecognized: Option<ProtocolMessageView>,
    pub state: ClientStateView,
}

/// What `chrono::DateTime::parse_from_rfc3339` and `chrono::DateTime::format`
/// make of a timestamp and a format: the instant of the timestamp written
/// in that format, or nothing where the timestamp is no instant.
pub uninterp spec fn clock_time_of(timestamp: Seq<char>, format: Seq<char>) -> Option<Seq<char>>;

/// Calls `chrono::DateTime::parse_from_rfc3339` on a timestamp and renders
/// the instant with `chrono::DateTime::format` in the timestamp's own
/// offset. The format is the one of hours, minutes and seconds, which
/// chrono can always write; chrono gives the parsed instant no form that
/// could be handed from one call to the other, so both stand here.
#[verifier::external_body]
fn clock_time(timestamp: &str, format: &str) -> (time: Option<String>)
    requires
        format@ == "%H:%M:%S"@,
    ensures
        time.deep_view() == clock_time_of(timestamp@, format@),
{
    match chrono::DateTime::parse_from_rfc3339(timestamp) {
        Ok(instant) => Some(instant.format(format).to_string()),
        Err(_) => None,
    }
}

/// The time that is shown for a timestamp: its hours, minutes and seconds,
/// or the timestamp itself where it is no instant.
pub open spec fn time_of(timestamp: Seq<char>) -> Seq<char> {
    match clock_time_of(timestamp, "%H:%M:%S"@) {
        Some(time) => time,
        None => timestamp,
    }
}

/// Whether the conversation ends once a request is sent: it does after the
/// request to quit and after no other.
pub fn ends_conversation(request: &ProtocolMessage) -> (ends: bool)
    ensures
        ends == (*request is Quit),
{
    match request {
        ProtocolMessage::Quit => true,
        _ => false,
    }
}

/// The line that shows one message of a window.
pub open spec fn message_line(message: ChatMessageView) -> Seq<char> {
    "["@ + time_of(message.timestamp) + "] "@ + message.username + ": "@ + message.content
}

/// The lines that show a window of recent messages.
pub open spec fn recent_messages_of(messages: Seq<ChatMessageView>) -> Seq<Seq<char>> {
    if messages.len() == 0 {
        seq!["📭 No recent messages in this group.\n"@]
    } else {
        (seq!["\n💬 Recent messages:"@, "═══════════════════"@] + messages.map_values(
            |m: ChatMessageView| message_line(m),
        )).push("═══════════════════\n"@)
    }
}

/// One entry of a list.
pub open spec fn bullet(entry: Seq<char>) -> Seq<char> {
    "  • "@ + entry
}

/// The commands of a state, one per line.
pub open spec fn commands_of(state: ClientStateView) -> Seq<Seq<char>> {
    match state {
        ClientStateView::NotAuthenticated => seq![
            "  /register <username> <password> - Register new account"@,
            "  /login <username> <password>    - Login to existing account"@,
            "  /quit                           - Exit application"@,
        ],
        ClientStateView::Home => seq![
            "  /groups           - List your groups"@,
            "  /create <name>    - Create a new group"@,
            "  /join <name>      - Join a group"@,
            "  /quit             - Exit application"@,
        ],
        ClientStateView::InGroup(_) => seq![
            "  /home             - Return to home"@,
            "  /quit-group       - Leave current group"@,
            "  /invite <user>    - Invite user to group"@,
            "  /users            - List group users"@,
            "  <message>         - Send message to group"@,
        ],
    }
}

/// The help of a state: a heading, then the commands.
pub open spec fn help_of(state: ClientStateView) -> Seq<Seq<char>> {
    match state {
        ClientStateView::InGroup(_) => seq!["📚 Available commands in group:"@] + commands_of(state),
        _ => seq!["📚 Available commands:"@] + commands_of(state),
    }
}

/// The commands of a state as they are shown when the state has changed:
/// a heading that names the group, the commands, and a blank line.
pub open spec fn available_commands_of(state: ClientStateView) -> Seq<Seq<char>> {
    match state {
        ClientStateView::InGroup(group_name) => (seq![
            "\n📚 Available commands in group '"@ + group_name + "':"@,
        ] + commands_of(state)).push(""@),
        _ => (seq!["\n📚 Available commands:"@] + commands_of(state)).push(""@),
    }
}

/// The user name and the password that follow a command, parted by the
/// first blank between them.
pub open spec fn credentials_of(rest: Option<Seq<char>>) -> Option<(Seq<char>, Seq<char>)> {
    match rest {
        Some(text) => match tail_after(text, ' ') {
            Some(password) => Some((head_before(text, ' '), password)),
            None => None,
        },
        None => None,
    }
}

/// A line that asks for nothing and moves nowhere, answered with `output`.
pub open spec fn remark(state: ClientStateView, output: Seq<Seq<char>>) -> ParsedView {
    ParsedView { request: None, output, state }
}

/// A line that is a request and says nothing to the user.
pub open spec fn ask(state: ClientStateView, request: ProtocolMessageView) -> ParsedView {
    ParsedView { request: Some(request), output: Seq::empty(), state }
}

/// The answer to a command that the state does not know.
pub open spec fn unknown_command(state: ClientStateView) -> ParsedView {
    remark(state, seq!["❌ Unknown command. Type /help for available commands."@])
}

/// What a line of the user means in a state. The command is what stands
/// before the first blank, and its argument what stands after it.
pub open spec fn parse(state: ClientStateView, input: Seq<char>) -> ParsedView {
    let command = head_before(input, ' ');
    let rest = tail_after(input, ' ');
    match state {
        ClientStateView::NotAuthenticated => {
            if command == "/register"@ {
                match credentials_of(rest) {
                    Some((username, password)) => ask(
                        state,
                        ProtocolMessageView::Register { username, password },
                    ),
                    None => remark(state, seq!["❌ Usage: /register <username> <password>"@]),
                }
            } else if command == "/login"@ {
                match credentials_of(rest) {
                    Some((username, password)) => ask(
                        state,
                        ProtocolMessageView::Login { username, password },
                    ),
                    None => remark(state, seq!["❌ Usage: /login <username> <password>"@]),
                }
            } else if command == "/help"@ {
                remark(state, help_of(state))
            } else if command == "/quit"@ {
                ask(state, ProtocolMessageView::Quit)
            } else {
                unknown_command(state)
            }
        },
        ClientStateView::Home => {
            if command == "/help"@ {
                remark(state, help_of(state))
            } else if command == "/groups"@ {
                ask(state, ProtocolMessageView::ListGroups)
            } else if command == "/create"@ {
                match rest {
                    Some(name) => ask(state, ProtocolMessageView::CreateGroup { name }),
                    None => remark(state, seq!["❌ Usage: /create <group_name>"@]),
                }
            } else if command == "/join"@ {
                match rest {
                    Some(group_name) => ask(state, ProtocolMessageView::JoinGroup { group_name }),
                    None => remark(state, seq!["❌ Usage: /join <group_name>"@]),
                }
            } else if command == "/quit"@ {
                ask(state, ProtocolMessageView::Quit)
            } else {
                unknown_command(state)
            }
        },
        ClientStateView::InGroup(group_name) => {
            if command == "/help"@ {
                remark(state, help_of(state))
            } else if command == "/home"@ {
                ParsedView {
                    request: Some(ProtocolMessageView::GoHome),
                    output: seq!["🏠 Returned to home"@] + available_commands_of(
                        ClientStateView::Home,
                    ),
                    state: ClientStateView::Home,
                }
            } else if command == "/quit-group"@ {
                ask(ClientStateView::Home, ProtocolMessageView::LeaveGroup { group_name })
            } else if command == "/invite"@ {
                match rest {
                    Some(username) => ask(
                        state,
                        ProtocolMessageView::InviteUser { username, group_name },
                    ),
                    None => remark(state, seq!["❌ Usage: /invite <username>"@]),
                }
            } else if command == "/users"@ {
                ask(state, ProtocolMessageView::ListGroupUsers { group_name })
            } else if command == "/quit"@ {
                ask(state, ProtocolMessageView::Quit)
            } else {
                ask(state, ProtocolMessageView::SendMessage { content: input, group_name })
            }
        },
    }
}

/// A message of the server that is only shown.
pub open spec fn shown(state: ClientStateView, output: Seq<Seq<char>>) -> HandledView {
    HandledView { output, recent_messages: None, unrecognized: None, state }
}

/// What a message of the server leads to in a state.
pub open spec fn react(state: ClientStateView, response: ProtocolMessageView) -> HandledView {
    match response {
        ProtocolMessageView::AuthResult { success, user_id, message } => if success {
            shown(
                ClientStateView::Home,
                seq!["✅ "@ + message] + available_commands_of(ClientStateView::Home),
            )
        } else {
            shown(state, seq!["❌ "@ + message])
        },
        ProtocolMessageView::GroupListResponse { groups } => if groups.len() == 0 {
            shown(state, seq!["📭 You are not in any groups"@])
        } else {
            shown(
                state,
                seq!["📋 Your groups:"@] + groups.map_values(
                    |g: GroupView| bullet(g.name),
                ),
            )
        },
        ProtocolMessageView::GroupJoined { group, recent_messages } => HandledView {
            output: seq!["✅ Entered group '"@ + group.name + "'!"@] + available_commands_of(
                ClientStateView::InGroup(group.name),
            ),
            recent_messages: Some(recent_messages),
            unrecognized: None,
            state: ClientStateView::InGroup(group.name),
        },
        ProtocolMessageView::UserListResponse { users } => shown(
            state,
            seq!["👥 Users:"@] + users.map_values(|u: Seq<char>| bullet(u)),
        ),
        ProtocolMessageView::Okay { message } => shown(state, seq!["✅ "@ + message]),
        ProtocolMessageView::Error { message } => shown(state, seq!["❌ "@ + message]),
        ProtocolMessageView::MessageReceived { message, recent_messages } => HandledView {
            output: seq!["✅ Message sent"@],
            recent_messages: Some(recent_messages),
            unrecognized: None,
            state,
        },
        ProtocolMessageView::ReloadMessages { recent_messages } => HandledView {
            output: seq!["📬 New messages received!"@],
            recent_messages: Some(recent_messages),
            unrecognized: None,
            state,
        },
        other => HandledView {
            output: Seq::empty(),
            recent_messages: None,
            unrecognized: Some(other),
            state,
        },
    }
}

/// Adds one line.
fn push_line(lines: &mut Vec<String>, text: &str)
    ensures
        final(lines).deep_view() == old(lines).deep_view().push(text@),
{
    lines.push(String::from_str(text));
}

/// Adds one line that was put together.
fn push_owned(lines: &mut Vec<String>, text: String)
    ensures
        final(lines).deep_view() == old(lines).deep_view().push(text@),
{
    lines.push(text);
}

/// Adds several lines.
fn append_lines(lines: &mut Vec<String>, more: Vec<String>)
    ensures
        final(lines).deep_view() == old(lines).deep_view() + more.deep_view(),
{
    let mut more = more;
    lines.append(&mut more);
}

/// Adds the commands of a state.
fn push_commands(lines: &mut Vec<String>, state: &ClientState)
    ensures
        final(lines).deep_view() == old(lines).deep_view() + commands_of(state.deep_view()),
{
    match state {
        ClientState::NotAuthenticated => {
            push_line(lines, "  /register <username> <password> - Register new account");
            push_line(lines, "  /login <username> <password>    - Login to existing account");
            push_line(lines, "  /quit                           - Exit application");
        },
        ClientState::Home => {
            push_line(lines, "  /groups           - List your groups");
            push_line(lines, "  /create <name>    - Create a new group");
            push_line(lines, "  /join <name>      - Join a group");
            push_line(lines, "  /quit             - Exit application");
        },
        ClientState::InGroup(_) => {
            push_line(lines, "  /home             - Return to home");
            push_line(lines, "  /quit-group       - Leave current group");
            push_line(lines, "  /invite <user>    - Invite user to group");
            push_line(lines, "  /users            - List group users");
            push_line(lines, "  <message>         - Send message to group");
        },
    }
}

/// The commands of a state as they are shown when the state has changed.
fn available_commands(state: &ClientState) -> (lines: Vec<String>)
    ensures
        lines.deep_view() == available_commands_of(state.deep_view()),
{
    let mut lines: Vec<String> = Vec::new();
    match state {
        ClientState::InGroup(group_name) => push_owned(
            &mut lines,
            String::from_str("\n📚 Available commands in group '").concat(
                group_name.as_str(),
            ).concat("':"),
        ),
        _ => push_line(&mut lines, "\n📚 Available commands:"),
    }
    push_commands(&mut lines, state);
    push_line(&mut lines, "");
    lines
}

/// Parts the user name from the password in what follows a command.
fn credentials(rest: Option<&str>) -> (pair: Option<(String, String)>)
    ensures
        pair.deep_view() == credentials_of(rest.deep_view()),
{
    match rest {
        Some(text) => {
            let (username, password) = split_first(text, ' ');
            match password {
                Some(password) => Some((String::from_str(username), String::from_str(password))),
                None => None,
            }
        },
        None => None,
    }
}

/// What the client asks of the server in a state: before authentication
/// only to register, to log in or to quit; at home what needs no group;
/// inside a group what concerns that group.
pub open spec fn may_ask(state: ClientStateView, request: ProtocolMessageView) -> bool {
    match state {
        ClientStateView::NotAuthenticated => request is Register || request is Login
            || request is Quit,
        ClientStateView::Home => request is ListGroups || request is CreateGroup
            || request is JoinGroup || request is Quit,
        ClientStateView::InGroup(current) => match request {
            ProtocolMessageView::GoHome => true,
            ProtocolMessageView::Quit => true,
            ProtocolMessageView::LeaveGroup { group_name } => group_name == current,
            ProtocolMessageView::InviteUser { username, group_name } => group_name == current,
            ProtocolMessageView::ListGroupUsers { group_name } => group_name == current,
            ProtocolMessageView::SendMessage { content, group_name } => group_name == current,
            _ => false,
        },
    }
}

/// The client keeps to its state. Whatever the user types, the request that
/// results is one that the state allows; before authentication it is none
/// that the server carries out only for an authenticated session. Typing
/// moves the interface nowhere but from a group home, and only together
/// with the request to go home or to leave the group.
pub proof fn lemma_client_keeps_to_its_state(state: ClientStateView, input: Seq<char>)
    ensures
        parse(state, input).request matches Some(request) ==> may_ask(state, request),
        state is NotAuthenticated ==> (parse(state, input).request matches Some(request)
            ==> !needs_session(request)),
        parse(state, input).state != state ==> state is InGroup && parse(state, input).state
            == ClientStateView::Home && (parse(state, input).request == Some(
            ProtocolMessageView::GoHome,
        ) || parse(state, input).request matches Some(ProtocolMessageView::LeaveGroup { .. })),
{
}

/// The transitions of the client on what the server sends: a successful
/// authentication leads home, the confirmation that a group was entered
/// leads into that group, and every other message leaves the interface
/// where it is.
pub proof fn lemma_client_transitions(state: ClientStateView, response: ProtocolMessageView)
    ensures
        react(state, response).state == match response {
            ProtocolMessageView::AuthResult { success: true, user_id, message } => ClientStateView::Home,
            ProtocolMessageView::GroupJoined { group, recent_messages } => ClientStateView::InGroup(
                group.name,
            ),
            _ => state,
        },
{
}

} // verus!
