//! The statements that the store runs on its database: the text of each and
//! the values bound to its parameters, in their order.

use vstd::prelude::*;
use vstd::string::*;

verus! {

/// One value bound to a parameter of a statement.
#[derive(Debug, Clone, PartialEq, Eq)]
pub enum Bound {
    Text(String),
    Integer(i64),
}

/// The mathematical content of a [`Bound`].
pub enum BoundView {
    Text(Seq<char>),
    Integer(i64),
}

impl DeepView for Bound {
    type V = BoundView;

    open spec fn deep_view(&self) -> BoundView {
        match *self {
            Bound::Text(text) => BoundView::Text(text@),
            Bound::Integer(number) => BoundView::Integer(number),
        }
    }
}

/// One statement: its text, and the values bound to `?1`, `?2` and so on.
#[derive(Debug, Clone, PartialEq, Eq)]
pub struct Statement {
    pub sql: String,
    pub bound: Vec<Bound>,
}

/// The mathematical content of a [`Statement`].
pub struct StatementView {
    pub sql: Seq<char>,
    pub bound: Seq<BoundView>,
}

impl DeepView for Statement {
    type V = StatementView;

    open spec fn deep_view(&self) -> StatementView {
        StatementView { sql: self.sql@, bound: self.bound.deep_view() }
    }
}

/// Puts a statement together.
fn statement(sql: &str, bound: Vec<Bound>) -> (made: Statement)
    ensures
        made.deep_view() == (StatementView { sql: sql@, bound: bound.deep_view() }),
        made.bound.len() == bound.len(),
{
    Statement { sql: String::from_str(sql), bound }
}

/// Adds a text to the values of a statement.
fn bind_text(bound: &mut Vec<Bound>, text: &str)
    ensures
        final(bound).deep_view() == old(bound).deep_view().push(BoundView::Text(text@)),
        final(bound).len() == old(bound).len() + 1,
{
    bound.push(Bound::Text(String::from_str(text)));
    assert(bound.deep_view() =~= old(bound).deep_view().push(BoundView::Text(text@)));
}

/// Adds a number to the values of a statement.
fn bind_integer(bound: &mut Vec<Bound>, number: i64)
    ensures
        final(bound).deep_view() == old(bound).deep_view().push(BoundView::Integer(number)),
        final(bound).len() == old(bound).len() + 1,
{
    bound.push(Bound::Integer(number));
    assert(bound.deep_view() =~= old(bound).deep_view().push(BoundView::Integer(number)));
}

/// Creates the table of accounts unless it exists.
pub fn create_users_table() -> (made: Statement)
    ensures
        made.sql@ == "CREATE TABLE IF NOT EXISTS users (
                id TEXT PRIMARY KEY,
                username TEXT NOT NULL UNIQUE,
                password_hash TEXT NOT NULL,
                created_at TEXT NOT NULL
            )"@,
        made.bound.deep_view() == Seq::<BoundView>::empty(),
        made.bound.len() == 0,
{
    let mut bound: Vec<Bound> = Vec::new();
    statement(
        "CREATE TABLE IF NOT EXISTS users (
                id TEXT PRIMARY KEY,
                username TEXT NOT NULL UNIQUE,
                password_hash TEXT NOT NULL,
                created_at TEXT NOT NULL
            )",
        bound,
    )
}

/// Creates the table of groups unless it exists.
pub fn create_groups_table() -> (made: Statement)
    ensures
        made.sql@ == "CREATE TABLE IF NOT EXISTS groups (
                id TEXT PRIMARY KEY,
                name TEXT NOT NULL UNIQUE,
                creator_id TEXT NOT NULL,
                created_at TEXT NOT NULL,
                FOREIGN KEY(creator_id) REFERENCES users(id)
            )"@,
        made.bound.deep_view() == Seq::<BoundView>::empty(),
        made.bound.len() == 0,
{
    let mut bound: Vec<Bound> = Vec::new();
    statement(
        "CREATE TABLE IF NOT EXISTS groups (
                id TEXT PRIMARY KEY,
                name TEXT NOT NULL UNIQUE,
                creator_id TEXT NOT NULL,
                created_at TEXT NOT NULL,
                FOREIGN KEY(creator_id) REFERENCES users(id)
            )",
        bound,
    )
}

/// Creates the table of memberships unless it exists.
pub fn create_memberships_table() -> (made: Statement)
    ensures
        made.sql@ == "CREATE TABLE IF NOT EXISTS group_memberships (
                id TEXT PRIMARY KEY,
                group_id TEXT NOT NULL,
                user_id TEXT NOT NULL,
                joined_at TEXT NOT NULL,
                FOREIGN KEY(group_id) REFERENCES groups(id),
                FOREIGN KEY(user_id) REFERENCES users(id),
                UNIQUE(group_id, user_id)
            )"@,
        made.bound.deep_view() == Seq::<BoundView>::empty(),
        made.bound.len() == 0,
{
    let mut bound: Vec<Bound> = Vec::new();
    statement(
        "CREATE TABLE IF NOT EXISTS group_memberships (
                id TEXT PRIMARY KEY,
                group_id TEXT NOT NULL,
                user_id TEXT NOT NULL,
                joined_at TEXT NOT NULL,
                FOREIGN KEY(group_id) REFERENCES groups(id),
                FOREIGN KEY(user_id) REFERENCES users(id),
                UNIQUE(group_id, user_id)
            )",
        bound,
    )
}

/// Creates the table of messages unless it exists.
pub fn create_messages_table() -> (made: Statement)
    ensures
        made.sql@ == "CREATE TABLE IF NOT EXISTS messages (
                id TEXT PRIMARY KEY,
                group_id TEXT NOT NULL,
                user_id TEXT NOT NULL,
                content TEXT NOT NULL,
                sent_at TEXT NOT NULL,
                FOREIGN KEY(group_id) REFERENCES groups(id),
                FOREIGN KEY(user_id) REFERENCES users(id)
            )"@,
        made.bound.deep_view() == Seq::<BoundView>::empty(),
        made.bound.len() == 0,
{
    let mut bound: Vec<Bound> = Vec::new();
    statement(
        "CREATE TABLE IF NOT EXISTS messages (
                id TEXT PRIMARY KEY,
                group_id TEXT NOT NULL,
                user_id TEXT NOT NULL,
                content TEXT NOT NULL,
                sent_at TEXT NOT NULL,
                FOREIGN KEY(group_id) REFERENCES groups(id),
                FOREIGN KEY(user_id) REFERENCES users(id)
            )",
        bound,
    )
}

/// Creates the table of departures unless it exists.
pub fn create_departures_table() -> (made: Statement)
    ensures
        made.sql@ == "CREATE TABLE IF NOT EXISTS group_departures (
                id TEXT PRIMARY KEY,
                group_id TEXT NOT NULL,
                user_id TEXT NOT NULL,
                left_at TEXT NOT NULL,
                FOREIGN KEY(group_id) REFERENCES groups(id),
                FOREIGN KEY(user_id) REFERENCES users(id),
                UNIQUE(group_id, user_id)
            )"@,
        made.bound.deep_view() == Seq::<BoundView>::empty(),
        made.bound.len() == 0,
{
    let mut bound: Vec<Bound> = Vec::new();
    statement(
        "CREATE TABLE IF NOT EXISTS group_departures (
                id TEXT PRIMARY KEY,
                group_id TEXT NOT NULL,
                user_id TEXT NOT NULL,
                left_at TEXT NOT NULL,
                FOREIGN KEY(group_id) REFERENCES groups(id),
                FOREIGN KEY(user_id) REFERENCES users(id),
                UNIQUE(group_id, user_id)
            )",
        bound,
    )
}

/// Adds an account.
pub fn insert_user(user_id: &str, username: &str, password_hash: &str, created_at: &str) -> (made: Statement)
    ensures
        made.sql@ == "INSERT INTO users (id, username, password_hash, created_at) VALUES (?1, ?2, ?3, ?4)"@,
        made.bound.deep_view() == seq![BoundView::Text(user_id@), BoundView::Text(username@), BoundView::Text(password_hash@), BoundView::Text(created_at@)],
        made.bound.len() == 4,
{
    let mut bound: Vec<Bound> = Vec::new();
    bind_text(&mut bound, user_id);
    bind_text(&mut bound, username);
    bind_text(&mut bound, password_hash);
    bind_text(&mut bound, created_at);
    statement(
        "INSERT INTO users (id, username, password_hash, created_at) VALUES (?1, ?2, ?3, ?4)",
        bound,
    )
}

/// Reads the identifier and the password hash of the account of a user
/// name.
pub fn select_account(username: &str) -> (made: Statement)
    ensures
        made.sql@ == "SELECT id, password_hash FROM users WHERE username = ?1"@,
        made.bound.deep_view() == seq![BoundView::Text(username@)],
        made.bound.len() == 1,
{
    let mut bound: Vec<Bound> = Vec::new();
    bind_text(&mut bound, username);
    statement(
        "SELECT id, password_hash FROM users WHERE username = ?1",
        bound,
    )
}

/// Counts the accounts that have a user name.
pub fn count_usernames(username: &str) -> (made: Statement)
    ensures
        made.sql@ == "SELECT COUNT(*) FROM users WHERE username = ?1"@,
        made.bound.deep_view() == seq![BoundView::Text(username@)],
        made.bound.len() == 1,
{
    let mut bound: Vec<Bound> = Vec::new();
    bind_text(&mut bound, username);
    statement(
        "SELECT COUNT(*) FROM users WHERE username = ?1",
        bound,
    )
}

/// Adds a group.
pub fn insert_group(group_id: &str, name: &str, creator_id: &str, created_at: &str) -> (made: Statement)
    ensures
        made.sql@ == "INSERT INTO groups (id, name, creator_id, created_at) VALUES (?1, ?2, ?3, ?4)"@,
        made.bound.deep_view() == seq![BoundView::Text(group_id@), BoundView::Text(name@), BoundView::Text(creator_id@), BoundView::Text(created_at@)],
        made.bound.len() == 4,
{
    let mut bound: Vec<Bound> = Vec::new();
    bind_text(&mut bound, group_id);
    bind_text(&mut bound, name);
    bind_text(&mut bound, creator_id);
    bind_text(&mut bound, created_at);
    statement(
        "INSERT INTO groups (id, name, creator_id, created_at) VALUES (?1, ?2, ?3, ?4)",
        bound,
    )
}

/// Reads identifier, name, creator and creation time of the groups that a
/// user is a member of.
pub fn select_user_groups(user_id: &str) -> (made: Statement)
    ensures
        made.sql@ == "SELECT g.id, g.name, g.creator_id, g.created_at 
             FROM groups g 
             JOIN group_memberships gm ON g.id = gm.group_id 
             WHERE gm.user_id = ?1"@,
        made.bound.deep_view() == seq![BoundView::Text(user_id@)],
        made.bound.len() == 1,
{
    let mut bound: Vec<Bound> = Vec::new();
    bind_text(&mut bound, user_id);
    statement(
        "SELECT g.id, g.name, g.creator_id, g.created_at 
             FROM groups g 
             JOIN group_memberships gm ON g.id = gm.group_id 
             WHERE gm.user_id = ?1",
        bound,
    )
}

/// Reads the user names of all accounts, in their order.
pub fn select_usernames() -> (made: Statement)
    ensures
        made.sql@ == "SELECT username FROM users ORDER BY username"@,
        made.bound.deep_view() == Seq::<BoundView>::empty(),
        made.bound.len() == 0,
{
    let mut bound: Vec<Bound> = Vec::new();
    statement(
        "SELECT username FROM users ORDER BY username",
        bound,
    )
}

/// Counts the accounts.
pub fn count_users() -> (made: Statement)
    ensures
        made.sql@ == "SELECT COUNT(*) FROM users"@,
        made.bound.deep_view() == Seq::<BoundView>::empty(),
        made.bound.len() == 0,
{
    let mut bound: Vec<Bound> = Vec::new();
    statement(
        "SELECT COUNT(*) FROM users",
        bound,
    )
}

/// Counts the groups.
pub fn count_groups() -> (made: Statement)
    ensures
        made.sql@ == "SELECT COUNT(*) FROM groups"@,
        made.bound.deep_view() == Seq::<BoundView>::empty(),
        made.bound.len() == 0,
{
    let mut bound: Vec<Bound> = Vec::new();
    statement(
        "SELECT COUNT(*) FROM groups",
        bound,
    )
}

/// Counts the messages.
pub fn count_messages() -> (made: Statement)
    ensures
        made.sql@ == "SELECT COUNT(*) FROM messages"@,
        made.bound.deep_view() == Seq::<BoundView>::empty(),
        made.bound.len() == 0,
{
    let mut bound: Vec<Bound> = Vec::new();
    statement(
        "SELECT COUNT(*) FROM messages",
        bound,
    )
}

/// Reads the identifier of the account of a user name.
pub fn select_user_id(username: &str) -> (made: Statement)
    ensures
        made.sql@ == "SELECT id FROM users WHERE username = ?1"@,
        made.bound.deep_view() == seq![BoundView::Text(username@)],
        made.bound.len() == 1,
{
    let mut bound: Vec<Bound> = Vec::new();
    bind_text(&mut bound, username);
    statement(
        "SELECT id FROM users WHERE username = ?1",
        bound,
    )
}

/// Deletes the departure record of a user in a group.
pub fn delete_departure(group_id: &str, user_id: &str) -> (made: Statement)
    ensures
        made.sql@ == "DELETE FROM group_departures WHERE group_id = ?1 AND user_id = ?2"@,
        made.bound.deep_view() == seq![BoundView::Text(group_id@), BoundView::Text(user_id@)],
        made.bound.len() == 2,
{
    let mut bound: Vec<Bound> = Vec::new();
    bind_text(&mut bound, group_id);
    bind_text(&mut bound, user_id);
    statement(
        "DELETE FROM group_departures WHERE group_id = ?1 AND user_id = ?2",
        bound,
    )
}

/// Deletes the membership record of a user in a group.
pub fn delete_membership(group_id: &str, user_id: &str) -> (made: Statement)
    ensures
        made.sql@ == "DELETE FROM group_memberships WHERE group_id = ?1 AND user_id = ?2"@,
        made.bound.deep_view() == seq![BoundView::Text(group_id@), BoundView::Text(user_id@)],
        made.bound.len() == 2,
{
    let mut bound: Vec<Bound> = Vec::new();
    bind_text(&mut bound, group_id);
    bind_text(&mut bound, user_id);
    statement(
        "DELETE FROM group_memberships WHERE group_id = ?1 AND user_id = ?2",
        bound,
    )
}

/// Records the departure of a user from a group, in place of an earlier
/// record of the same user and group.
pub fn insert_departure(departure_id: &str, group_id: &str, user_id: &str, left_at: &str) -> (made: Statement)
    ensures
        made.sql@ == "INSERT OR REPLACE INTO group_departures (id, group_id, user_id, left_at) VALUES (?1, ?2, ?3, ?4)"@,
        made.bound.deep_view() == seq![BoundView::Text(departure_id@), BoundView::Text(group_id@), BoundView::Text(user_id@), BoundView::Text(left_at@)],
        made.bound.len() == 4,
{
    let mut bound: Vec<Bound> = Vec::new();
    bind_text(&mut bound, departure_id);
    bind_text(&mut bound, group_id);
    bind_text(&mut bound, user_id);
    bind_text(&mut bound, left_at);
    statement(
        "INSERT OR REPLACE INTO group_departures (id, group_id, user_id, left_at) VALUES (?1, ?2, ?3, ?4)",
        bound,
    )
}

/// Reads the user names of the members of a group, in their order.
pub fn select_member_names(group_id: &str) -> (made: Statement)
    ensures
        made.sql@ == "SELECT u.username 
             FROM users u 
             JOIN group_memberships gm ON u.id = gm.user_id 
             WHERE gm.group_id = ?1 
             ORDER BY u.username"@,
        made.bound.deep_view() == seq![BoundView::Text(group_id@)],
        made.bound.len() == 1,
{
    let mut bound: Vec<Bound> = Vec::new();
    bind_text(&mut bound, group_id);
    statement(
        "SELECT u.username 
             FROM users u 
             JOIN group_memberships gm ON u.id = gm.user_id 
             WHERE gm.group_id = ?1 
             ORDER BY u.username",
        bound,
    )
}

/// Adds a message.
pub fn insert_message(message_id: &str, group_id: &str, user_id: &str, content: &str, sent_at: &str) -> (made: Statement)
    ensures
        made.sql@ == "INSERT INTO messages (id, group_id, user_id, content, sent_at) VALUES (?1, ?2, ?3, ?4, ?5)"@,
        made.bound.deep_view() == seq![BoundView::Text(message_id@), BoundView::Text(group_id@), BoundView::Text(user_id@), BoundView::Text(content@), BoundView::Text(sent_at@)],
        made.bound.len() == 5,
{
    let mut bound: Vec<Bound> = Vec::new();
    bind_text(&mut bound, message_id);
    bind_text(&mut bound, group_id);
    bind_text(&mut bound, user_id);
    bind_text(&mut bound, content);
    bind_text(&mut bound, sent_at);
    statement(
        "INSERT INTO messages (id, group_id, user_id, content, sent_at) VALUES (?1, ?2, ?3, ?4, ?5)",
        bound,
    )
}

/// Reads identifier, content, author and time of sending of the messages
/// of a group, newest first, at most `limit` of them.
pub fn select_recent_messages(group_id: &str, limit: u32) -> (made: Statement)
    ensures
        made.sql@ == "SELECT m.id, m.content, u.username, m.sent_at 
             FROM messages m 
             JOIN users u ON m.user_id = u.id 
             WHERE m.group_id = ?1 
             ORDER BY m.sent_at DESC 
             LIMIT ?2"@,
        made.bound.deep_view() == seq![BoundView::Text(group_id@), BoundView::Integer(limit as i64)],
        made.bound.len() == 2,
{
    let mut bound: Vec<Bound> = Vec::new();
    bind_text(&mut bound, group_id);
    bind_integer(&mut bound, limit as i64);
    statement(
        "SELECT m.id, m.content, u.username, m.sent_at 
             FROM messages m 
             JOIN users u ON m.user_id = u.id 
             WHERE m.group_id = ?1 
             ORDER BY m.sent_at DESC 
             LIMIT ?2",
        bound,
    )
}

/// Reads the identifier of the group of a name.
pub fn select_group_id(group_name: &str) -> (made: Statement)
    ensures
        made.sql@ == "SELECT id FROM groups WHERE name = ?1"@,
        made.bound.deep_view() == seq![BoundView::Text(group_name@)],
        made.bound.len() == 1,
{
    let mut bound: Vec<Bound> = Vec::new();
    bind_text(&mut bound, group_name);
    statement(
        "SELECT id FROM groups WHERE name = ?1",
        bound,
    )
}

/// Counts the membership records of a user in a group.
pub fn count_membership(group_id: &str, user_id: &str) -> (made: Statement)
    ensures
        made.sql@ == "SELECT COUNT(*) FROM group_memberships WHERE group_id = ?1 AND user_id = ?2"@,
        made.bound.deep_view() == seq![BoundView::Text(group_id@), BoundView::Text(user_id@)],
        made.bound.len() == 2,
{
    let mut bound: Vec<Bound> = Vec::new();
    bind_text(&mut bound, group_id);
    bind_text(&mut bound, user_id);
    statement(
        "SELECT COUNT(*) FROM group_memberships WHERE group_id = ?1 AND user_id = ?2",
        bound,
    )
}

/// Counts the departure records of a user in a group.
pub fn count_departure(group_id: &str, user_id: &str) -> (made: Statement)
    ensures
        made.sql@ == "SELECT COUNT(*) FROM group_departures WHERE group_id = ?1 AND user_id = ?2"@,
        made.bound.deep_view() == seq![BoundView::Text(group_id@), BoundView::Text(user_id@)],
        made.bound.len() == 2,
{
    let mut bound: Vec<Bound> = Vec::new();
    bind_text(&mut bound, group_id);
    bind_text(&mut bound, user_id);
    statement(
        "SELECT COUNT(*) FROM group_departures WHERE group_id = ?1 AND user_id = ?2",
        bound,
    )
}

/// Records a user as a member of a group.
pub fn insert_membership(membership_id: &str, group_id: &str, user_id: &str, joined_at: &str) -> (made: Statement)
    ensures
        made.sql@ == "INSERT INTO group_memberships (id, group_id, user_id, joined_at) VALUES (?1, ?2, ?3, ?4)"@,
        made.bound.deep_view() == seq![BoundView::Text(membership_id@), BoundView::Text(group_id@), BoundView::Text(user_id@), BoundView::Text(joined_at@)],
        made.bound.len() == 4,
{
    let mut bound: Vec<Bound> = Vec::new();
    bind_text(&mut bound, membership_id);
    bind_text(&mut bound, group_id);
    bind_text(&mut bound, user_id);
    bind_text(&mut bound, joined_at);
    statement(
        "INSERT INTO group_memberships (id, group_id, user_id, joined_at) VALUES (?1, ?2, ?3, ?4)",
        bound,
    )
}

} // verus!
