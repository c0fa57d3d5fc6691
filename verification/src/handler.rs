//! The server's request handler: what one request of a connection asks of
//! the store, and what the answer changes in the registry and sends back.

use crate::common::{timestamp_now, ChatMessage, Group, GroupId, GroupView, Message};
use crate::database::Database;
use crate::error::StoreError;
use crate::fanout::{broadcast, Broadcast};
use crate::protocol::{ProtocolError, ProtocolMessage, ProtocolMessageView};
use crate::registry::{outside_of, SessionRegistry, SessionView, SocketId};
use vstd::prelude::*;
use vstd::string::*;

verus! {

/// How many recent messages a session is shown when it enters a group or
/// posts to it.
pub const RECENT_LIMIT: u32 = 20;

/// What the store answered to a request to enter a group.
#[derive(Debug, PartialEq, Eq)]
pub enum Entry {
    /// The store refused the user.
    Refused(StoreError),
    /// The user is in: the identifier of the group, where the store could
    /// resolve it, and the window of recent messages.
    Entered { group_id: Option<String>, recent_messages: Vec<ChatMessage> },
}

/// What the store answered to a message for a group.
#[derive(Debug, PartialEq, Eq)]
pub enum Posting {
    /// The name of the group did not resolve.
    UnknownGroup(StoreError),
    /// The store did not take the message.
    Refused(StoreError),
    /// The message is stored: the identifier of the group, the message, and
    /// the window of recent messages that now ends with it.
    Posted { group_id: String, message: Message, recent_messages: Vec<ChatMessage> },
}

/// One request together with what the store answered to it. It holds all
/// that is needed to conclude the request on the registry.
#[derive(Debug, PartialEq, Eq)]
#[allow(inconsistent_fields)]
pub enum Consulted {
    /// The request needs an authenticated session and the connection has
    /// none; the store was not asked.
    Unauthenticated,
    Register { result: Result<String, StoreError> },
    Login { result: Result<String, StoreError> },
    CreateGroup { name: String, result: Result<(), StoreError> },
    JoinGroup { user_id: String, group_name: String, entry: Entry },
    ListGroups { result: Result<Vec<Group>, StoreError> },
    ListUsers { result: Result<Vec<String>, StoreError> },
    ListGroupUsers { result: Result<Vec<String>, StoreError> },
    InviteUser { username: String, group_name: String, result: Result<(), StoreError> },
    LeaveGroup { user_id: String, group_name: String, result: Result<(), StoreError> },
    QuitGroup { user_id: String },
    GoHome { user_id: String },
    Quit,
    SendMessage { user_id: String, posting: Posting },
    /// A message that is no request the server carries out.
    Unsupported,
}

/// What a request results in: the response for the connection that made
/// it; for a message that was posted, the delivery to the other members;
/// and whether the connection ends once the response is written, which it
/// does after the request to quit and after no other.
#[derive(Debug, PartialEq, Eq)]
pub struct Outcome {
    pub response: ProtocolMessage,
    pub broadcast: Option<Broadcast>,
    pub close: bool,
}

/// Whether a request is carried out only for an authenticated session.
pub open spec fn needs_session(message: ProtocolMessageView) -> bool {
    message is CreateGroup || message is JoinGroup || message is ListGroups
        || message is ListGroupUsers || message is InviteUser || message is LeaveGroup
        || message is QuitGroup || message is GoHome || message is SendMessage
}

/// The response to a request that needs a session and has none.
pub open spec fn not_authenticated() -> ProtocolMessageView {
    ProtocolMessageView::Error { message: "Not authenticated"@ }
}

/// The response that reports a failure of the store.
pub open spec fn failure(prefix: Seq<char>, error: StoreError) -> ProtocolMessageView {
    ProtocolMessageView::Error { message: prefix + error.text() }
}

/// The group that a response to a request to enter describes: only its
/// name is given.
pub open spec fn entered_group(group_name: Seq<char>) -> GroupView {
    GroupView {
        id: "temp_id"@,
        name: group_name,
        members: Seq::empty(),
        creator_id: ""@,
        created_at: ""@,
    }
}

/// The response that a request and the store's answer to it call for.
pub open spec fn response_of(consulted: Consulted) -> ProtocolMessageView {
    match consulted {
        Consulted::Unauthenticated => not_authenticated(),
        Consulted::Register { result } => match result {
            Ok(user_id) => ProtocolMessageView::AuthResult {
                success: true,
                user_id: Some(user_id@),
                message: "Registration successful!"@,
            },
            Err(e) => ProtocolMessageView::AuthResult {
                success: false,
                user_id: None,
                message: "Registration failed: "@ + e.text(),
            },
        },
        Consulted::Login { result } => match result {
            Ok(user_id) => ProtocolMessageView::AuthResult {
                success: true,
                user_id: Some(user_id@),
                message: "Login successful!"@,
            },
            Err(e) => ProtocolMessageView::AuthResult {
                success: false,
                user_id: None,
                message: "Login failed: "@ + e.text(),
            },
        },
        Consulted::CreateGroup { name, result } => match result {
            Ok(_) => ProtocolMessageView::Okay {
                message: "Group '"@ + name@ + "' created successfully!"@,
            },
            Err(e) => failure("Failed to create group: "@, e),
        },
        Consulted::JoinGroup { user_id, group_name, entry } => match entry {
            Entry::Entered { group_id, recent_messages } => ProtocolMessageView::GroupJoined {
                group: entered_group(group_name@),
                recent_messages: recent_messages.deep_view(),
            },
            Entry::Refused(e) => failure("Failed to join group: "@, e),
        },
        Consulted::ListGroups { result } => match result {
            Ok(groups) => ProtocolMessageView::GroupListResponse { groups: groups.deep_view() },
            Err(e) => failure("Failed to get groups: "@, e),
        },
        Consulted::ListUsers { result } => match result {
            Ok(users) => ProtocolMessageView::UserListResponse { users: users.deep_view() },
            Err(e) => failure("Failed to get users: "@, e),
        },
        Consulted::ListGroupUsers { result } => match result {
            Ok(users) => ProtocolMessageView::UserListResponse { users: users.deep_view() },
            Err(e) => failure("Failed to get group members: "@, e),
        },
        Consulted::InviteUser { username, group_name, result } => match result {
            Ok(_) => ProtocolMessageView::Okay {
                message: "User '"@ + username@ + "' invited to group '"@ + group_name@ + "'!"@,
            },
            Err(e) => failure("Failed to invite user: "@, e),
        },
        Consulted::LeaveGroup { user_id, group_name, result } => match result {
            Ok(_) => ProtocolMessageView::Okay { message: "Left group '"@ + group_name@ + "'!"@ },
            Err(e) => failure("Failed to leave group: "@, e),
        },
        Consulted::QuitGroup { user_id } => ProtocolMessageView::Okay {
            message: "Left group and returned to home!"@,
        },
        Consulted::GoHome { user_id } => ProtocolMessageView::Okay { message: "Returned to home"@ },
        Consulted::Quit => ProtocolMessageView::Okay { message: "Goodbye!"@ },
        Consulted::SendMessage { user_id, posting } => match posting {
            Posting::UnknownGroup(e) => failure("Failed to get group ID: "@, e),
            Posting::Refused(e) => failure("Failed to send message: "@, e),
            Posting::Posted { group_id, message, recent_messages } => ProtocolMessageView::MessageReceived {
                message: message.deep_view(),
                recent_messages: recent_messages.deep_view(),
            },
        },
        Consulted::Unsupported => ProtocolMessageView::Error {
            message: "Command not implemented yet"@,
        },
    }
}

/// The registry in which the session of `user_id`, if there is one, views
/// `group`.
pub open spec fn regrouped(
    sessions: Map<Seq<char>, SessionView>,
    user_id: Seq<char>,
    group: Option<Seq<char>>,
) -> Map<Seq<char>, SessionView> {
    if sessions.dom().contains(user_id) {
        sessions.insert(
            user_id,
            SessionView { socket: sessions[user_id].socket, current_group: group },
        )
    } else {
        sessions
    }
}

/// The registry after a request with the store's answer is concluded for
/// the connection on `socket` whose authenticated user was `user`.
pub open spec fn sessions_after(
    consulted: Consulted,
    sessions: Map<Seq<char>, SessionView>,
    user: Option<Seq<char>>,
    socket: SocketId,
) -> Map<Seq<char>, SessionView> {
    match consulted {
        Consulted::Register { result: Ok(user_id) } => sessions.insert(
            user_id@,
            SessionView { socket, current_group: None },
        ),
        Consulted::Login { result: Ok(user_id) } => sessions.insert(
            user_id@,
            SessionView { socket, current_group: None },
        ),
        Consulted::JoinGroup {
            user_id,
            group_name,
            entry: Entry::Entered { group_id: Some(group_id), recent_messages },
        } => regrouped(sessions, user_id@, Some(group_id@)),
        Consulted::LeaveGroup { user_id, group_name, result: Ok(_) } => regrouped(
            sessions,
            user_id@,
            None,
        ),
        Consulted::QuitGroup { user_id } => regrouped(sessions, user_id@, None),
        Consulted::GoHome { user_id } => regrouped(sessions, user_id@, None),
        Consulted::Quit => match user {
            Some(user_id) => sessions.remove(user_id),
            None => sessions,
        },
        _ => sessions,
    }
}

/// The authenticated user of the connection after a request is concluded.
pub open spec fn user_after(consulted: Consulted, user: Option<Seq<char>>) -> Option<Seq<char>> {
    match consulted {
        Consulted::Register { result: Ok(user_id) } => Some(user_id@),
        Consulted::Login { result: Ok(user_id) } => Some(user_id@),
        Consulted::Quit => None,
        _ => user,
    }
}

/// Whether `outcome`, the registry `after` and the user `user_now` are what
/// concluding `consulted` gives for a connection on `socket`, from the
/// registry `before` and the user `user`.
pub open spec fn concludes(
    consulted: Consulted,
    before: Map<Seq<char>, SessionView>,
    user: Option<Seq<char>>,
    socket: SocketId,
    outcome: Outcome,
    after: Map<Seq<char>, SessionView>,
    user_now: Option<Seq<char>>,
) -> bool {
    &&& outcome.response.deep_view() == response_of(consulted)
    &&& after == sessions_after(consulted, before, user, socket)
    &&& user_now == user_after(consulted, user)
    &&& outcome.close == (consulted is Quit)
    &&& match consulted {
        Consulted::SendMessage {
            user_id,
            posting: Posting::Posted { group_id, message, recent_messages },
        } => outcome.broadcast matches Some(prepared) && prepared.delivers(
            after,
            group_id@,
            user_id@,
            ProtocolMessageView::ReloadMessages { recent_messages: recent_messages.deep_view() },
        ),
        _ => outcome.broadcast is None,
    }
}

/// The response that reports a failure of the store.
fn failed(prefix: &str, error: &StoreError) -> (response: ProtocolMessage)
    ensures
        response.deep_view() == failure(prefix@, *error),
{
    let detail = error.to_string();
    ProtocolMessage::Error { message: String::from_str(prefix).concat(detail.as_str()) }
}

/// Carries a request out on the registry, given what the store answered to
/// it: the response to send back, the change to the registry and to the
/// connection's authenticated user, and the delivery to prepare. It asks
/// nothing of the store and writes to no socket.
pub fn conclude(
    consulted: Consulted,
    registry: &mut SessionRegistry,
    current_user_id: &mut Option<String>,
    socket: SocketId,
) -> (outcome: Outcome)
    ensures
        concludes(
            consulted,
            old(registry)@,
            old(current_user_id).deep_view(),
            socket,
            outcome,
            final(registry)@,
            final(current_user_id).deep_view(),
        ),
{
    match consulted {
        Consulted::Unauthenticated => Outcome {
            response: ProtocolMessage::Error { message: String::from_str("Not authenticated") },
            broadcast: None,
            close: false,
        },
        Consulted::Register { result } => match result {
            Ok(user_id) => {
                *current_user_id = Some(user_id.clone());
                registry.upsert(user_id.clone(), socket);
                Outcome {
                    response: ProtocolMessage::AuthResult {
                        success: true,
                        user_id: Some(user_id),
                        message: String::from_str("Registration successful!"),
                    },
                    broadcast: None,
                    close: false,
                }
            },
            Err(e) => {
                let detail = e.to_string();
                Outcome {
                    response: ProtocolMessage::AuthResult {
                        success: false,
                        user_id: None,
                        message: String::from_str("Registration failed: ").concat(detail.as_str()),
                    },
                    broadcast: None,
                    close: false,
                }
            },
        },
        Consulted::Login { result } => match result {
            Ok(user_id) => {
                *current_user_id = Some(user_id.clone());
                registry.upsert(user_id.clone(), socket);
                Outcome {
                    response: ProtocolMessage::AuthResult {
                        success: true,
                        user_id: Some(user_id),
                        message: String::from_str("Login successful!"),
                    },
                    broadcast: None,
                    close: false,
                }
            },
            Err(e) => {
                let detail = e.to_string();
                Outcome {
                    response: ProtocolMessage::AuthResult {
                        success: false,
                        user_id: None,
                        message: String::from_str("Login failed: ").concat(detail.as_str()),
                    },
                    broadcast: None,
                    close: false,
                }
            },
        },
        Consulted::CreateGroup { name, result } => match result {
            Ok(_) => Outcome {
                response: ProtocolMessage::Okay {
                    message: String::from_str("Group '").concat(name.as_str()).concat(
                        "' created successfully!",
                    ),
                },
                broadcast: None,
                close: false,
            },
            Err(e) => Outcome { response: failed("Failed to create group: ", &e), broadcast: None, close: false },
        },
        Consulted::JoinGroup { user_id, group_name, entry } => match entry {
            Entry::Entered { group_id, recent_messages } => {
                match group_id {
                    Some(group_id) => {
                        let _ = registry.set_group(user_id.as_str(), Some(group_id));
                    },
                    None => {},
                }
                let group = Group {
                    id: String::from_str("temp_id"),
                    name: group_name,
                    members: Vec::new(),
                    creator_id: String::from_str(""),
                    created_at: String::from_str(""),
                };
                assert(group.deep_view() == entered_group(group_name@)) by {
                    assert(group.members.deep_view() =~= Seq::<Seq<char>>::empty());
                }
                Outcome {
                    response: ProtocolMessage::GroupJoined { group, recent_messages },
                    broadcast: None,
                    close: false,
                }
            },
            Entry::Refused(e) => Outcome {
                response: failed("Failed to join group: ", &e),
                broadcast: None,
                close: false,
            },
        },
        Consulted::ListGroups { result } => match result {
            Ok(groups) => Outcome {
                response: ProtocolMessage::GroupListResponse { groups },
                broadcast: None,
                close: false,
            },
            Err(e) => Outcome { response: failed("Failed to get groups: ", &e), broadcast: None, close: false },
        },
        Consulted::ListUsers { result } => match result {
            Ok(users) => Outcome {
                response: ProtocolMessage::UserListResponse { users },
                broadcast: None,
                close: false,
            },
            Err(e) => Outcome { response: failed("Failed to get users: ", &e), broadcast: None, close: false },
        },
        Consulted::ListGroupUsers { result } => match result {
            Ok(users) => Outcome {
                response: ProtocolMessage::UserListResponse { users },
                broadcast: None,
                close: false,
            },
            Err(e) => Outcome {
                response: failed("Failed to get group members: ", &e),
                broadcast: None,
                close: false,
            },
        },
        Consulted::InviteUser { username, group_name, result } => match result {
            Ok(_) => Outcome {
                response: ProtocolMessage::Okay {
                    message: String::from_str("User '").concat(username.as_str()).concat(
                        "' invited to group '",
                    ).concat(group_name.as_str()).concat("'!"),
                },
                broadcast: None,
                close: false,
            },
            Err(e) => Outcome { response: failed("Failed to invite user: ", &e), broadcast: None, close: false },
        },
        Consulted::LeaveGroup { user_id, group_name, result } => match result {
            Ok(_) => {
                let _ = registry.set_group(user_id.as_str(), None);
                Outcome {
                    response: ProtocolMessage::Okay {
                        message: String::from_str("Left group '").concat(
                            group_name.as_str(),
                        ).concat("'!"),
                    },
                    broadcast: None,
                    close: false,
                }
            },
            Err(e) => Outcome { response: failed("Failed to leave group: ", &e), broadcast: None, close: false },
        },
        Consulted::QuitGroup { user_id } => {
            let _ = registry.set_group(user_id.as_str(), None);
            Outcome {
                response: ProtocolMessage::Okay {
                    message: String::from_str("Left group and returned to home!"),
                },
                broadcast: None,
                close: false,
            }
        },
        Consulted::GoHome { user_id } => {
            let _ = registry.set_group(user_id.as_str(), None);
            Outcome {
                response: ProtocolMessage::Okay { message: String::from_str("Returned to home") },
                broadcast: None,
                close: false,
            }
        },
        Consulted::Quit => {
            match current_user_id {
                Some(user_id) => {
                    registry.remove(user_id.as_str());
                },
                None => {},
            }
            *current_user_id = None;
            Outcome {
                response: ProtocolMessage::Okay { message: String::from_str("Goodbye!") },
                broadcast: None,
                close: true,
            }
        },
        Consulted::SendMessage { user_id, posting } => match posting {
            Posting::UnknownGroup(e) => Outcome {
                response: failed("Failed to get group ID: ", &e),
                broadcast: None,
                close: false,
            },
            Posting::Refused(e) => Outcome {
                response: failed("Failed to send message: ", &e),
                broadcast: None,
                close: false,
            },
            Posting::Posted { group_id, message, recent_messages } => {
                let payload = ProtocolMessage::ReloadMessages {
                    recent_messages: recent_messages.clone(),
                };
                let prepared = broadcast(registry, group_id.as_str(), user_id.as_str(), payload);
                Outcome {
                    response: ProtocolMessage::MessageReceived { message, recent_messages },
                    broadcast: Some(prepared),
                    close: false,
                }
            },
        },
        Consulted::Unsupported => Outcome {
            response: ProtocolMessage::Error {
                message: String::from_str("Command not implemented yet"),
            },
            broadcast: None,
            close: false,
        },
    }
}

/// Whether `consulted` is the record of `message`, made for a connection
/// whose authenticated user is `user`: it is of the request's kind, holds
/// the request's own fields and that user, and windows of recent messages
/// within the limit. A request that needs a session and has none is
/// recorded as unauthenticated.
pub open spec fn answers(message: ProtocolMessage, user: Option<String>, consulted: Consulted) -> bool {
    if needs_session(message.deep_view()) && user is None {
        consulted is Unauthenticated
    } else {
        match message {
            ProtocolMessage::Register { username, password } => consulted is Register,
            ProtocolMessage::Login { username, password } => consulted is Login,
            ProtocolMessage::CreateGroup { name } => (consulted matches Consulted::CreateGroup {
                name: recorded,
                result,
            } && recorded@ == name@),
            ProtocolMessage::JoinGroup { group_name } => (consulted matches Consulted::JoinGroup {
                user_id,
                group_name: recorded,
                entry,
            } && Some(user_id@) == user.deep_view() && recorded@ == group_name@ && (
            entry matches Entry::Entered { group_id, recent_messages } ==> recent_messages.len()
                <= RECENT_LIMIT)),
            ProtocolMessage::ListGroups => consulted is ListGroups,
            ProtocolMessage::ListUsers => consulted is ListUsers,
            ProtocolMessage::ListGroupUsers { group_name } => consulted is ListGroupUsers,
            ProtocolMessage::InviteUser { username, group_name } => (
            consulted matches Consulted::InviteUser { username: invited, group_name: recorded, result }
                && invited@ == username@ && recorded@ == group_name@),
            ProtocolMessage::LeaveGroup { group_name } => (consulted matches Consulted::LeaveGroup {
                user_id,
                group_name: recorded,
                result,
            } && Some(user_id@) == user.deep_view() && recorded@ == group_name@),
            ProtocolMessage::QuitGroup => (consulted matches Consulted::QuitGroup { user_id } && Some(
                user_id@,
            ) == user.deep_view()),
            ProtocolMessage::GoHome => (consulted matches Consulted::GoHome { user_id } && Some(
                user_id@,
            ) == user.deep_view()),
            ProtocolMessage::Quit => consulted is Quit,
            ProtocolMessage::SendMessage { content, group_name } => (
            consulted matches Consulted::SendMessage { user_id, posting } && Some(user_id@)
                == user.deep_view() && (posting matches Posting::Posted {
                group_id,
                message: stored,
                recent_messages,
            } ==> stored.sender@ == user_id@ && stored.content@ == content@
                && recent_messages.len() <= RECENT_LIMIT)),
            _ => consulted is Unsupported,
        }
    }
}

/// What one request asks of the store, with the arguments it is asked
/// with. Entering a group asks to join it and then, if that succeeds, for
/// the group's identifier and its recent messages; a message for a group
/// asks for the group's identifier, then, if there is one, to append the
/// message, and then, if that succeeds, for the recent messages.
#[derive(Debug, Clone, PartialEq, Eq)]
#[allow(inconsistent_fields)]
pub enum StoreRequest {
    /// The store is not asked.
    Nothing,
    Register { username: String, password: String },
    Login { username: String, password: String },
    CreateGroup { name: String, creator_id: String },
    JoinGroup { group_name: String, user_id: String },
    ListGroups { user_id: String },
    ListUsers,
    ListGroupUsers { group_name: String },
    InviteUser { group_name: String, username: String, inviter_id: String },
    LeaveGroup { group_name: String, user_id: String },
    SendMessage { group_name: String, user_id: String, content: String },
}

/// What the store answered to a request to join a group.
#[derive(Debug, PartialEq, Eq)]
pub enum JoinAnswer {
    /// Joining failed.
    Refused(StoreError),
    /// Joining succeeded: what the lookup of the group's identifier gave,
    /// and the window of recent messages.
    Joined { group_id: Result<String, StoreError>, recent_messages: Vec<ChatMessage> },
}

/// What the store answered to a message for a group.
#[derive(Debug, PartialEq, Eq)]
pub enum SendAnswer {
    /// The lookup of the group's identifier failed.
    UnknownGroup(StoreError),
    /// Appending the message failed.
    Refused(StoreError),
    /// The message is stored: the identifier that the lookup gave, the
    /// identifiers of the message and of its group as the store returned
    /// them, the window of recent messages, and the time at which the
    /// answer was taken.
    Stored {
        group_id: String,
        message_id: String,
        stored_in: String,
        recent_messages: Vec<ChatMessage>,
        at: String,
    },
}

/// What the store answered to a request.
#[derive(Debug, PartialEq, Eq)]
pub enum StoreAnswer {
    /// The store was not asked.
    Nothing,
    /// The identifier of the user who registered or logged in.
    Account(Result<String, StoreError>),
    /// Whether a group was created, a user invited, or a group left.
    Done(Result<(), StoreError>),
    Join(JoinAnswer),
    Groups(Result<Vec<Group>, StoreError>),
    Names(Result<Vec<String>, StoreError>),
    Send(SendAnswer),
}

/// What a request of a connection whose authenticated user is `user` asks
/// of the store. A request that needs a session and has none asks nothing,
/// and so do the requests that concern the registry alone.
pub open spec fn request_of(message: ProtocolMessage, user: Option<String>) -> StoreRequest {
    match message {
        ProtocolMessage::Register { username, password } => StoreRequest::Register {
            username,
            password,
        },
        ProtocolMessage::Login { username, password } => StoreRequest::Login { username, password },
        ProtocolMessage::ListUsers => StoreRequest::ListUsers,
        ProtocolMessage::CreateGroup { name } => match user {
            Some(user_id) => StoreRequest::CreateGroup { name, creator_id: user_id },
            None => StoreRequest::Nothing,
        },
        ProtocolMessage::JoinGroup { group_name } => match user {
            Some(user_id) => StoreRequest::JoinGroup { group_name, user_id },
            None => StoreRequest::Nothing,
        },
        ProtocolMessage::ListGroups => match user {
            Some(user_id) => StoreRequest::ListGroups { user_id },
            None => StoreRequest::Nothing,
        },
        ProtocolMessage::ListGroupUsers { group_name } => match user {
            Some(user_id) => StoreRequest::ListGroupUsers { group_name },
            None => StoreRequest::Nothing,
        },
        ProtocolMessage::InviteUser { username, group_name } => match user {
            Some(user_id) => StoreRequest::InviteUser { group_name, username, inviter_id: user_id },
            None => StoreRequest::Nothing,
        },
        ProtocolMessage::LeaveGroup { group_name } => match user {
            Some(user_id) => StoreRequest::LeaveGroup { group_name, user_id },
            None => StoreRequest::Nothing,
        },
        ProtocolMessage::SendMessage { content, group_name } => match user {
            Some(user_id) => StoreRequest::SendMessage { group_name, user_id, content },
            None => StoreRequest::Nothing,
        },
        _ => StoreRequest::Nothing,
    }
}

/// Determines what a request asks of the store.
pub fn store_request(message: &ProtocolMessage, current_user_id: &Option<String>) -> (request:
    StoreRequest)
    ensures
        request == request_of(*message, *current_user_id),
{
    match message {
        ProtocolMessage::Register { username, password } => StoreRequest::Register {
            username: username.clone(),
            password: password.clone(),
        },
        ProtocolMessage::Login { username, password } => StoreRequest::Login {
            username: username.clone(),
            password: password.clone(),
        },
        ProtocolMessage::ListUsers => StoreRequest::ListUsers,
        ProtocolMessage::CreateGroup { name } => match current_user_id {
            Some(user_id) => StoreRequest::CreateGroup {
                name: name.clone(),
                creator_id: user_id.clone(),
            },
            None => StoreRequest::Nothing,
        },
        ProtocolMessage::JoinGroup { group_name } => match current_user_id {
            Some(user_id) => StoreRequest::JoinGroup {
                group_name: group_name.clone(),
                user_id: user_id.clone(),
            },
            None => StoreRequest::Nothing,
        },
        ProtocolMessage::ListGroups => match current_user_id {
            Some(user_id) => StoreRequest::ListGroups { user_id: user_id.clone() },
            None => StoreRequest::Nothing,
        },
        ProtocolMessage::ListGroupUsers { group_name } => match current_user_id {
            Some(_) => StoreRequest::ListGroupUsers { group_name: group_name.clone() },
            None => StoreRequest::Nothing,
        },
        ProtocolMessage::InviteUser { username, group_name } => match current_user_id {
            Some(user_id) => StoreRequest::InviteUser {
                group_name: group_name.clone(),
                username: username.clone(),
                inviter_id: user_id.clone(),
            },
            None => StoreRequest::Nothing,
        },
        ProtocolMessage::LeaveGroup { group_name } => match current_user_id {
            Some(user_id) => StoreRequest::LeaveGroup {
                group_name: group_name.clone(),
                user_id: user_id.clone(),
            },
            None => StoreRequest::Nothing,
        },
        ProtocolMessage::SendMessage { content, group_name } => match current_user_id {
            Some(user_id) => StoreRequest::SendMessage {
                group_name: group_name.clone(),
                user_id: user_id.clone(),
                content: content.clone(),
            },
            None => StoreRequest::Nothing,
        },
        _ => StoreRequest::Nothing,
    }
}

/// Whether an answer is of the kind that a request is answered with, and
/// its windows of recent messages are within the limit.
pub open spec fn fits(request: StoreRequest, answer: StoreAnswer) -> bool {
    match request {
        StoreRequest::Nothing => answer is Nothing,
        StoreRequest::Register { username, password } => answer is Account,
        StoreRequest::Login { username, password } => answer is Account,
        StoreRequest::CreateGroup { name, creator_id } => answer is Done,
        StoreRequest::InviteUser { group_name, username, inviter_id } => answer is Done,
        StoreRequest::LeaveGroup { group_name, user_id } => answer is Done,
        StoreRequest::ListGroups { user_id } => answer is Groups,
        StoreRequest::ListUsers => answer is Names,
        StoreRequest::ListGroupUsers { group_name } => answer is Names,
        StoreRequest::JoinGroup { group_name, user_id } => (answer matches StoreAnswer::Join(joined)
            && (joined matches JoinAnswer::Joined { group_id, recent_messages }
            ==> recent_messages.len() <= RECENT_LIMIT)),
        StoreRequest::SendMessage { group_name, user_id, content } => (
        answer matches StoreAnswer::Send(sent) && (sent matches SendAnswer::Stored {
            group_id,
            message_id,
            stored_in,
            recent_messages,
            at,
        } ==> recent_messages.len() <= RECENT_LIMIT)),
    }
}

/// The window that a request for the recent messages gives: the one the
/// store returned, or none where the store failed.
pub fn window_or_none(fetched: Result<Vec<ChatMessage>, StoreError>) -> (window: Vec<ChatMessage>)
    ensures
        window@ == match fetched {
            Ok(messages) => messages@,
            Err(_) => Seq::<ChatMessage>::empty(),
        },
{
    match fetched {
        Ok(messages) => messages,
        Err(_) => Vec::new(),
    }
}

/// The window of recent messages of a group, or none where the store fails.
fn recent_messages_of(database: &Database, group_name: &str) -> (window: Vec<ChatMessage>)
    ensures
        window.len() <= RECENT_LIMIT,
{
    window_or_none(database.get_recent_messages(group_name, RECENT_LIMIT))
}

/// Carries a request to the store and brings back what the store
/// answered. This is the one place where the handler touches the store.
pub fn carry_out(request: &StoreRequest, database: &Database) -> (answer: StoreAnswer)
    ensures
        fits(*request, answer),
{
    match request {
        StoreRequest::Nothing => StoreAnswer::Nothing,
        StoreRequest::Register { username, password } => StoreAnswer::Account(
            database.register_user(username.as_str(), password.as_str()),
        ),
        StoreRequest::Login { username, password } => StoreAnswer::Account(
            database.login_user(username.as_str(), password.as_str()),
        ),
        StoreRequest::CreateGroup { name, creator_id } => StoreAnswer::Done(
            database.create_group(name.as_str(), creator_id.as_str()),
        ),
        StoreRequest::InviteUser { group_name, username, inviter_id } => StoreAnswer::Done(
            database.invite_user_to_group(
                group_name.as_str(),
                username.as_str(),
                inviter_id.as_str(),
            ),
        ),
        StoreRequest::LeaveGroup { group_name, user_id } => StoreAnswer::Done(
            database.leave_group(group_name.as_str(), user_id.as_str()),
        ),
        StoreRequest::ListGroups { user_id } => StoreAnswer::Groups(
            database.get_user_groups(user_id.as_str()),
        ),
        StoreRequest::ListUsers => StoreAnswer::Names(database.get_all_users()),
        StoreRequest::ListGroupUsers { group_name } => StoreAnswer::Names(
            database.get_group_members(group_name.as_str()),
        ),
        StoreRequest::JoinGroup { group_name, user_id } => StoreAnswer::Join(
            match database.join_group(group_name.as_str(), user_id.as_str()) {
                Err(e) => JoinAnswer::Refused(e),
                Ok(_) => {
                    let group_id = database.get_group_id(group_name.as_str());
                    let recent_messages = recent_messages_of(database, group_name.as_str());
                    JoinAnswer::Joined { group_id, recent_messages }
                },
            },
        ),
        StoreRequest::SendMessage { group_name, user_id, content } => StoreAnswer::Send(
            match database.get_group_id(group_name.as_str()) {
                Err(e) => SendAnswer::UnknownGroup(e),
                Ok(group_id) => match database.send_message(
                    group_name.as_str(),
                    user_id.as_str(),
                    content.as_str(),
                ) {
                    Err(e) => SendAnswer::Refused(e),
                    Ok(sent) => {
                        let recent_messages = recent_messages_of(database, group_name.as_str());
                        SendAnswer::Stored {
                            group_id,
                            message_id: sent[0].clone(),
                            stored_in: sent[1].clone(),
                            recent_messages,
                            at: timestamp_now(),
                        }
                    },
                },
            },
        ),
    }
}

/// Whether `consulted` is the record of `message` with the answer of the
/// store, for a connection whose authenticated user is `user`. A request
/// that needs a session and has none is recorded as unauthenticated,
/// whatever the answer; an answer of another kind than the request is
/// answered with is recorded as a message that the server does not carry
/// out.
pub open spec fn records(
    message: ProtocolMessage,
    user: Option<String>,
    answer: StoreAnswer,
    consulted: Consulted,
) -> bool {
    if needs_session(message.deep_view()) && user is None {
        consulted is Unauthenticated
    } else {
        match (message, answer) {
            (
                ProtocolMessage::Register { username, password },
                StoreAnswer::Account(result),
            ) => consulted == (Consulted::Register { result }),
            (ProtocolMessage::Login { username, password }, StoreAnswer::Account(result)) => consulted
                == (Consulted::Login { result }),
            (ProtocolMessage::CreateGroup { name }, StoreAnswer::Done(result)) => consulted == (
            Consulted::CreateGroup { name, result }),
            (ProtocolMessage::JoinGroup { group_name }, StoreAnswer::Join(joined)) => (
            consulted matches Consulted::JoinGroup { user_id, group_name: recorded, entry }
                && Some(user_id) == user && recorded == group_name && match joined {
                JoinAnswer::Refused(e) => entry == Entry::Refused(e),
                JoinAnswer::Joined { group_id, recent_messages } => (entry matches Entry::Entered {
                    group_id: entered,
                    recent_messages: window,
                } && entered == (match group_id {
                    Ok(found) => Some(found),
                    Err(_) => None::<String>,
                }) && window@ == recent_messages@),
            }),
            (ProtocolMessage::ListGroups, StoreAnswer::Groups(result)) => consulted == (
            Consulted::ListGroups { result }),
            (ProtocolMessage::ListUsers, StoreAnswer::Names(result)) => consulted == (
            Consulted::ListUsers { result }),
            (ProtocolMessage::ListGroupUsers { group_name }, StoreAnswer::Names(result)) => consulted
                == (Consulted::ListGroupUsers { result }),
            (ProtocolMessage::InviteUser { username, group_name }, StoreAnswer::Done(result)) => consulted
                == (Consulted::InviteUser { username, group_name, result }),
            (ProtocolMessage::LeaveGroup { group_name }, StoreAnswer::Done(result)) => (
            consulted matches Consulted::LeaveGroup { user_id, group_name: recorded, result: left }
                && Some(user_id) == user && recorded == group_name && left == result),
            (ProtocolMessage::QuitGroup, _) => (consulted matches Consulted::QuitGroup { user_id }
                && Some(user_id) == user),
            (ProtocolMessage::GoHome, _) => (consulted matches Consulted::GoHome { user_id } && Some(
                user_id,
            ) == user),
            (ProtocolMessage::Quit, _) => consulted is Quit,
            (ProtocolMessage::SendMessage { content, group_name }, StoreAnswer::Send(sent)) => (
            consulted matches Consulted::SendMessage { user_id, posting } && Some(user_id) == user
                && match sent {
                SendAnswer::UnknownGroup(e) => posting == Posting::UnknownGroup(e),
                SendAnswer::Refused(e) => posting == Posting::Refused(e),
                SendAnswer::Stored { group_id, message_id, stored_in, recent_messages, at } => (
                posting matches Posting::Posted { group_id: posted_in, message: stored, recent_messages: window }
                    && posted_in == group_id && stored == (Message {
                    id: message_id,
                    sender: user_id,
                    group_id: stored_in,
                    content,
                    timestamp: at,
                }) && window@ == recent_messages@),
            }),
            _ => consulted is Unsupported,
        }
    }
}

/// Records a request with what the store answered to it.
pub fn record(message: ProtocolMessage, current_user_id: &Option<String>, answer: StoreAnswer) -> (consulted:
    Consulted)
    ensures
        records(message, *current_user_id, answer, consulted),
{
    match message {
        ProtocolMessage::Register { username, password } => match answer {
            StoreAnswer::Account(result) => Consulted::Register { result },
            _ => Consulted::Unsupported,
        },
        ProtocolMessage::Login { username, password } => match answer {
            StoreAnswer::Account(result) => Consulted::Login { result },
            _ => Consulted::Unsupported,
        },
        ProtocolMessage::ListUsers => match answer {
            StoreAnswer::Names(result) => Consulted::ListUsers { result },
            _ => Consulted::Unsupported,
        },
        ProtocolMessage::Quit => Consulted::Quit,
        ProtocolMessage::CreateGroup { name } => match current_user_id {
            None => Consulted::Unauthenticated,
            Some(_) => match answer {
                StoreAnswer::Done(result) => Consulted::CreateGroup { name, result },
                _ => Consulted::Unsupported,
            },
        },
        ProtocolMessage::JoinGroup { group_name } => match current_user_id {
            None => Consulted::Unauthenticated,
            Some(user_id) => match answer {
                StoreAnswer::Join(joined) => {
                    let entry = match joined {
                        JoinAnswer::Refused(e) => Entry::Refused(e),
                        JoinAnswer::Joined { group_id, recent_messages } => Entry::Entered {
                            group_id: match group_id {
                                Ok(found) => Some(found),
                                Err(_) => None,
                            },
                            recent_messages,
                        },
                    };
                    Consulted::JoinGroup { user_id: user_id.clone(), group_name, entry }
                },
                _ => Consulted::Unsupported,
            },
        },
        ProtocolMessage::ListGroups => match current_user_id {
            None => Consulted::Unauthenticated,
            Some(_) => match answer {
                StoreAnswer::Groups(result) => Consulted::ListGroups { result },
                _ => Consulted::Unsupported,
            },
        },
        ProtocolMessage::ListGroupUsers { group_name } => match current_user_id {
            None => Consulted::Unauthenticated,
            Some(_) => match answer {
                StoreAnswer::Names(result) => Consulted::ListGroupUsers { result },
                _ => Consulted::Unsupported,
            },
        },
        ProtocolMessage::InviteUser { username, group_name } => match current_user_id {
            None => Consulted::Unauthenticated,
            Some(_) => match answer {
                StoreAnswer::Done(result) => Consulted::InviteUser { username, group_name, result },
                _ => Consulted::Unsupported,
            },
        },
        ProtocolMessage::LeaveGroup { group_name } => match current_user_id {
            None => Consulted::Unauthenticated,
            Some(user_id) => match answer {
                StoreAnswer::Done(result) => Consulted::LeaveGroup {
                    user_id: user_id.clone(),
                    group_name,
                    result,
                },
                _ => Consulted::Unsupported,
            },
        },
        ProtocolMessage::QuitGroup => match current_user_id {
            None => Consulted::Unauthenticated,
            Some(user_id) => Consulted::QuitGroup { user_id: user_id.clone() },
        },
        ProtocolMessage::GoHome => match current_user_id {
            None => Consulted::Unauthenticated,
            Some(user_id) => Consulted::GoHome { user_id: user_id.clone() },
        },
        ProtocolMessage::SendMessage { content, group_name } => match current_user_id {
            None => Consulted::Unauthenticated,
            Some(user_id) => match answer {
                StoreAnswer::Send(sent) => {
                    let posting = match sent {
                        SendAnswer::UnknownGroup(e) => Posting::UnknownGroup(e),
                        SendAnswer::Refused(e) => Posting::Refused(e),
                        SendAnswer::Stored {
                            group_id,
                            message_id,
                            stored_in,
                            recent_messages,
                            at,
                        } => Posting::Posted {
                            group_id,
                            message: Message {
                                id: message_id,
                                sender: user_id.clone(),
                                group_id: stored_in,
                                content,
                                timestamp: at,
                            },
                            recent_messages,
                        },
                    };
                    Consulted::SendMessage { user_id: user_id.clone(), posting }
                },
                _ => Consulted::Unsupported,
            },
        },
        _ => Consulted::Unsupported,
    }
}

/// Asks the store what a request needs from it and records the answer:
/// [`store_request`] determines what is asked, [`carry_out`] asks, and
/// [`record`] makes the record. A request that needs an authenticated
/// session and comes from a connection without one is recorded as
/// unauthenticated, and the store is not asked. The registry is not
/// touched.
pub fn consult_store(
    message: ProtocolMessage,
    current_user_id: &Option<String>,
    database: &Database,
) -> (consulted: Consulted)
    ensures
        answers(message, *current_user_id, consulted),
        exists|answer: StoreAnswer|
            fits(request_of(message, *current_user_id), answer) && #[trigger] records(
                message,
                *current_user_id,
                answer,
                consulted,
            ),
{
    let request = store_request(&message, current_user_id);
    let answer = carry_out(&request, database);
    record(message, current_user_id, answer)
}

/// Whether a request was handled: the store gave some answer of the kind
/// that what the request asks is answered with, the answer was recorded,
/// and the record was concluded on the registry `before` for a connection
/// on `socket` whose authenticated user was `user`, which gave `outcome`,
/// the registry `after` and the user `user_now`.
pub open spec fn handles(
    message: ProtocolMessage,
    user: Option<String>,
    before: Map<Seq<char>, SessionView>,
    socket: SocketId,
    outcome: Outcome,
    after: Map<Seq<char>, SessionView>,
    user_now: Option<Seq<char>>,
) -> bool {
    exists|answer: StoreAnswer, consulted: Consulted|
        {
            &&& fits(request_of(message, user), answer)
            &&& #[trigger] records(message, user, answer, consulted)
            &&& answers(message, user, consulted)
            &&& concludes(consulted, before, user.deep_view(), socket, outcome, after, user_now)
        }
}

/// Handles one request of a connection: asks the store, then concludes on
/// the registry. A request that needs an authenticated session and has
/// none is answered with an error and changes nothing.
pub fn process_message(
    message: ProtocolMessage,
    database: &Database,
    registry: &mut SessionRegistry,
    current_user_id: &mut Option<String>,
    socket: SocketId,
) -> (outcome: Outcome)
    ensures
        handles(
            message,
            *old(current_user_id),
            old(registry)@,
            socket,
            outcome,
            final(registry)@,
            final(current_user_id).deep_view(),
        ),
        needs_session(message.deep_view()) && *old(current_user_id) is None ==> {
            &&& outcome.response.deep_view() == not_authenticated()
            &&& outcome.broadcast is None
            &&& !outcome.close
            &&& final(registry)@ == old(registry)@
            &&& *final(current_user_id) is None
        },
{
    let consulted = consult_store(message, current_user_id, database);
    conclude(consulted, registry, current_user_id, socket)
}

/// The response to a line that could not be decoded.
pub open spec fn invalid_message() -> ProtocolMessageView {
    ProtocolMessageView::Error { message: "Invalid message format"@ }
}

/// Handles one line that a connection sent, as the codec decoded it. A
/// line that is no message is answered with an error and changes nothing;
/// a message is processed as a request.
pub fn handle_line(
    decoded: Result<ProtocolMessage, ProtocolError>,
    database: &Database,
    registry: &mut SessionRegistry,
    current_user_id: &mut Option<String>,
    socket: SocketId,
) -> (outcome: Outcome)
    ensures
        match decoded {
            Ok(message) => handles(
                message,
                *old(current_user_id),
                old(registry)@,
                socket,
                outcome,
                final(registry)@,
                final(current_user_id).deep_view(),
            ),
            Err(_) => {
                &&& outcome.response.deep_view() == invalid_message()
                &&& outcome.broadcast is None
                &&& !outcome.close
                &&& final(registry)@ == old(registry)@
                &&& final(current_user_id).deep_view() == old(current_user_id).deep_view()
            },
        },
{
    match decoded {
        Ok(message) => process_message(message, database, registry, current_user_id, socket),
        Err(_) => Outcome {
            response: ProtocolMessage::Error { message: String::from_str("Invalid message format") },
            broadcast: None,
            close: false,
        },
    }
}

/// Cleans up after a connection that was closed or failed: its user, if it
/// had authenticated, has no session any more.
pub fn disconnect(registry: &mut SessionRegistry, current_user_id: &mut Option<String>)
    ensures
        final(registry)@ == match old(current_user_id).deep_view() {
            Some(user_id) => old(registry)@.remove(user_id),
            None => old(registry)@,
        },
        *final(current_user_id) is None,
{
    match current_user_id {
        Some(user_id) => {
            registry.remove(user_id.as_str());
        },
        None => {},
    }
    *current_user_id = None;
}

/// Once a request to leave a group, to quit it or to go home is concluded,
/// the snapshot of no group names the user who made it.
pub proof fn lemma_leaving_clears_every_snapshot(
    consulted: Consulted,
    before: Map<Seq<char>, SessionView>,
    user: Option<Seq<char>>,
    socket: SocketId,
    group_id: Seq<char>,
)
    ensures
        match consulted {
            Consulted::LeaveGroup { user_id, group_name, result: Ok(_) } => outside_of(
                sessions_after(consulted, before, user, socket),
                user_id@,
                group_id,
            ),
            Consulted::QuitGroup { user_id } => outside_of(
                sessions_after(consulted, before, user, socket),
                user_id@,
                group_id,
            ),
            Consulted::GoHome { user_id } => outside_of(
                sessions_after(consulted, before, user, socket),
                user_id@,
                group_id,
            ),
            _ => true,
        },
{
}

/// A request that needs an authenticated session and comes from a
/// connection without one is answered with the authorization error, and
/// concluding it changes neither the registry nor the connection.
pub proof fn lemma_gate(
    message: ProtocolMessage,
    consulted: Consulted,
    before: Map<Seq<char>, SessionView>,
    socket: SocketId,
)
    requires
        needs_session(message.deep_view()),
        answers(message, None, consulted),
    ensures
        consulted is Unauthenticated,
        response_of(consulted) == not_authenticated(),
        sessions_after(consulted, before, None, socket) == before,
        user_after(consulted, None) == None::<Seq<char>>,
{
}

/// Where a connection stands in the conversation: not authenticated,
/// authenticated and in no group, or inside a group.
#[derive(Debug, Clone, PartialEq, Eq)]
pub enum SessionState {
    Unauthenticated,
    Home,
    InGroup(GroupId),
}

/// The mathematical content of a [`SessionState`].
pub enum SessionStateView {
    Unauthenticated,
    Home,
    InGroup(Seq<char>),
}

impl DeepView for SessionState {
    type V = SessionStateView;

    open spec fn deep_view(&self) -> SessionStateView {
        match *self {
            SessionState::Unauthenticated => SessionStateView::Unauthenticated,
            SessionState::Home => SessionStateView::Home,
            SessionState::InGroup(group_id) => SessionStateView::InGroup(group_id@),
        }
    }
}

/// The state of a connection whose authenticated user is `user`, as the
/// registry `sessions` has it. A user whose session is gone is at home.
pub open spec fn state_of(user: Option<Seq<char>>, sessions: Map<Seq<char>, SessionView>) -> SessionStateView {
    match user {
        None => SessionStateView::Unauthenticated,
        Some(user_id) => if sessions.dom().contains(user_id) {
            match sessions[user_id].current_group {
                Some(group_id) => SessionStateView::InGroup(group_id),
                None => SessionStateView::Home,
            }
        } else {
            SessionStateView::Home
        },
    }
}

/// The state of a connection, read from its authenticated user and the
/// registry.
pub fn session_state(registry: &SessionRegistry, current_user_id: &Option<String>) -> (state:
    SessionState)
    ensures
        state.deep_view() == state_of(current_user_id.deep_view(), registry@),
{
    match current_user_id {
        None => SessionState::Unauthenticated,
        Some(user_id) => match registry.get(user_id.as_str()) {
            Some(session) => match &session.current_group {
                Some(group_id) => SessionState::InGroup(group_id.clone()),
                None => SessionState::Home,
            },
            None => SessionState::Home,
        },
    }
}

/// The state that a request with the store's answer leads to, from the
/// state `from` of the connection that made it: authentication leads home,
/// entering a group leads into it, leaving it and going home lead home,
/// and everything else stays where it is. Quitting ends the session: the
/// connection is no longer authenticated, and the outcome of the request
/// says that the connection closes, so no request follows.
pub open spec fn next_state(consulted: Consulted, from: SessionStateView) -> SessionStateView {
    match consulted {
        Consulted::Register { result: Ok(_) } => SessionStateView::Home,
        Consulted::Login { result: Ok(_) } => SessionStateView::Home,
        Consulted::JoinGroup {
            user_id,
            group_name,
            entry: Entry::Entered { group_id: Some(group_id), recent_messages },
        } => SessionStateView::InGroup(group_id@),
        Consulted::LeaveGroup { user_id, group_name, result: Ok(_) } => SessionStateView::Home,
        Consulted::QuitGroup { user_id } => SessionStateView::Home,
        Consulted::GoHome { user_id } => SessionStateView::Home,
        Consulted::Quit => SessionStateView::Unauthenticated,
        _ => from,
    }
}

/// Whether a record was made for the connection whose authenticated user
/// is `user`: where it names a user, it names that one.
pub open spec fn made_for(consulted: Consulted, user: Option<Seq<char>>) -> bool {
    match consulted {
        Consulted::JoinGroup { user_id, group_name, entry } => user == Some(user_id@),
        Consulted::LeaveGroup { user_id, group_name, result } => user == Some(user_id@),
        Consulted::QuitGroup { user_id } => user == Some(user_id@),
        Consulted::GoHome { user_id } => user == Some(user_id@),
        Consulted::SendMessage { user_id, posting } => user == Some(user_id@),
        _ => true,
    }
}

/// The transitions of a session. Concluding a request moves the connection
/// that made it, if its session is live, exactly as the table of
/// transitions says; a connection that is not authenticated stays so under
/// every request but a successful registration or login.
pub proof fn lemma_transitions(
    consulted: Consulted,
    before: Map<Seq<char>, SessionView>,
    user: Option<Seq<char>>,
    socket: SocketId,
)
    requires
        made_for(consulted, user),
        user matches Some(user_id) ==> before.dom().contains(user_id),
    ensures
        state_of(user_after(consulted, user), sessions_after(consulted, before, user, socket))
            == next_state(consulted, state_of(user, before)),
        user is None && !(consulted matches Consulted::Register { result: Ok(_) }) && !(
        consulted matches Consulted::Login { result: Ok(_) }) ==> state_of(
            user_after(consulted, user),
            sessions_after(consulted, before, user, socket),
        ) == SessionStateView::Unauthenticated,
{
}

/// Leaving a group, seen from the response: where the request of an
/// authenticated connection is answered with an error, the registry is as
/// it was; where it is confirmed, the session of the user, if it is live,
/// views no group.
pub proof fn lemma_leave_by_response(
    message: ProtocolMessage,
    user_id: String,
    before: Map<Seq<char>, SessionView>,
    socket: SocketId,
    outcome: Outcome,
    after: Map<Seq<char>, SessionView>,
    user_now: Option<Seq<char>>,
)
    requires
        message is LeaveGroup,
        handles(message, Some(user_id), before, socket, outcome, after, user_now),
    ensures
        outcome.response.deep_view() is Error ==> after == before,
        outcome.response.deep_view() is Okay ==> after == regrouped(before, user_id@, None),
        user_now == Some(user_id@),
        !outcome.close,
{
}

/// Entering a group, seen from the response: where the request of an
/// authenticated connection is answered with an error, the registry is as
/// it was.
pub proof fn lemma_refused_entry_changes_nothing(
    message: ProtocolMessage,
    user_id: String,
    before: Map<Seq<char>, SessionView>,
    socket: SocketId,
    outcome: Outcome,
    after: Map<Seq<char>, SessionView>,
    user_now: Option<Seq<char>>,
)
    requires
        message is JoinGroup,
        handles(message, Some(user_id), before, socket, outcome, after, user_now),
    ensures
        outcome.response.deep_view() is Error ==> after == before,
        user_now == Some(user_id@),
{
}

} // verus!
