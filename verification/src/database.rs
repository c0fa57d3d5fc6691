//! The persistence store: users and their password hashes, groups,
//! memberships, departures and messages, kept in an SQLite database.

use crate::common::{fresh_id, timestamp_now, ChatMessage, ChatMessageView, Group, GroupView};
use crate::error::StoreError;
use crate::membership::{
    accept_invitation, answer_join, confirm_departure, join_reply, require_membership, Admission,
    Standing,
};
use crate::statements::{
    count_departure, count_groups, count_membership, count_messages, count_usernames, count_users,
    create_departures_table, create_groups_table, create_memberships_table,
    create_messages_table, create_users_table, delete_departure, delete_membership,
    insert_departure, insert_group, insert_membership, insert_message, insert_user,
    select_account, select_group_id, select_member_names, select_recent_messages,
    select_user_groups, select_user_id, select_usernames, Bound, Statement,
};
use std::sync::{Arc, Mutex, MutexGuard};
use vstd::prelude::*;

verus! {

/// `rusqlite::Connection`, an open database.
#[verifier::external_type_specification]
#[verifier::external_body]
pub struct ExConnection(rusqlite::Connection);

/// `rusqlite::Error`, whatever the database reports.
#[verifier::external_type_specification]
#[verifier::external_body]
pub struct ExSqlError(rusqlite::Error);

/// `std::sync::Mutex`, the lock around the connection.
#[verifier::external_type_specification]
#[verifier::external_body]
#[verifier::reject_recursive_types(T)]
pub struct ExMutex<T: ?Sized>(Mutex<T>);

/// `std::sync::MutexGuard`, the connection while it is locked.
#[verifier::external_type_specification]
#[verifier::external_body]
#[verifier::reject_recursive_types(T)]
pub struct ExMutexGuard<'a, T: ?Sized + 'a>(MutexGuard<'a, T>);

/// Calls `rusqlite::Connection::open` on a path. Whether it succeeds
/// depends on the file system.
#[verifier::external_body]
fn open_connection(db_path: &str) -> (opened: Result<rusqlite::Connection, rusqlite::Error>) {
    rusqlite::Connection::open(db_path)
}

/// Calls `std::sync::Mutex::new` on a connection.
#[verifier::external_body]
fn guard_connection(connection: rusqlite::Connection) -> (lock: Mutex<rusqlite::Connection>) {
    Mutex::new(connection)
}

/// Calls `std::sync::Mutex::lock` and waits for the connection. A lock that
/// a panicking holder poisoned is taken all the same.
#[verifier::external_body]
fn lock_connection<'a>(lock: &'a Mutex<rusqlite::Connection>) -> (held: MutexGuard<
    'a,
    rusqlite::Connection,
>) {
    match lock.lock() {
        Ok(held) => held,
        Err(poisoned) => poisoned.into_inner(),
    }
}

/// Renders a `rusqlite::Error` with its `Display`.
#[verifier::external_body]
fn sql_error_text(error: &rusqlite::Error) -> (text: String) {
    error.to_string()
}

/// Calls `rusqlite::Connection::execute`: runs the statement with its
/// values bound, each as the `rusqlite::types::Value` of its kind, and
/// returns the number of rows it changed. What it finds and changes
/// depends on the database.
#[verifier::external_body]
fn execute(connection: &MutexGuard<'_, rusqlite::Connection>, statement: &Statement) -> (changed:
    Result<usize, rusqlite::Error>) {
    let values = statement.bound.iter().map(|bound| match bound {
        Bound::Text(text) => rusqlite::types::Value::Text(text.clone()),
        Bound::Integer(number) => rusqlite::types::Value::Integer(*number),
    });
    connection.execute(statement.sql.as_str(), rusqlite::params_from_iter(values))
}

/// Calls `rusqlite::Connection::query_row` on the statement with its values
/// bound and reads the first column of the first row as an integer. The
/// answer depends on the database.
#[verifier::external_body]
fn query_count(connection: &MutexGuard<'_, rusqlite::Connection>, statement: &Statement) -> (count:
    Result<i64, rusqlite::Error>) {
    let values = statement.bound.iter().map(|bound| match bound {
        Bound::Text(text) => rusqlite::types::Value::Text(text.clone()),
        Bound::Integer(number) => rusqlite::types::Value::Integer(*number),
    });
    connection.query_row(statement.sql.as_str(), rusqlite::params_from_iter(values), |row| {
        row.get(0)
    })
}

/// Calls `rusqlite::Connection::prepare` and `rusqlite::Statement::query_map`
/// on the statement with its values bound and reads the first `columns`
/// columns of every row as text, in the order in which the database
/// returns the rows; each row that is returned has that many entries. The
/// answer depends on the database.
#[verifier::external_body]
fn query_rows(
    connection: &MutexGuard<'_, rusqlite::Connection>,
    statement: &Statement,
    columns: usize,
) -> (rows: Result<Vec<Vec<String>>, rusqlite::Error>)
    ensures
        rows matches Ok(table) ==> forall|i: int|
            0 <= i < table.len() ==> (#[trigger] table[i]).len() == columns,
{
    let values = statement.bound.iter().map(|bound| match bound {
        Bound::Text(text) => rusqlite::types::Value::Text(text.clone()),
        Bound::Integer(number) => rusqlite::types::Value::Integer(*number),
    });
    let mut prepared = connection.prepare(statement.sql.as_str())?;
    let rows = prepared.query_map(rusqlite::params_from_iter(values), |row| {
        (0..columns).map(|column| row.get::<usize, String>(column)).collect()
    })?;
    rows.collect()
}

/// `bcrypt::BcryptError`, whatever the password hashing reports.
#[verifier::external_type_specification]
#[verifier::external_body]
pub struct ExBcryptError(bcrypt::BcryptError);

/// Renders a `bcrypt::BcryptError` with its `Display`.
#[verifier::external_body]
fn hash_error_text(error: &bcrypt::BcryptError) -> (text: String) {
    error.to_string()
}

/// Calls `bcrypt::hash` with `bcrypt::DEFAULT_COST`. The salt is random,
/// so nothing is claimed of the hash.
#[verifier::external_body]
fn hash_password(password: &str) -> (hash: Result<String, bcrypt::BcryptError>) {
    bcrypt::hash(password, bcrypt::DEFAULT_COST)
}

/// What `bcrypt::verify` answers for a password and a stored hash: whether
/// the password matches, or nothing where the hash cannot be read.
pub uninterp spec fn password_verdict(password: Seq<char>, hash: Seq<char>) -> Option<bool>;

/// Calls `bcrypt::verify`, which recomputes the hash of the password with
/// the salt and cost that the stored hash holds and compares the two.
#[verifier::external_body]
fn verify_password(password: &str, hash: &str) -> (verdict: Result<bool, bcrypt::BcryptError>)
    ensures
        password_verdict(password@, hash@) == match verdict {
            Ok(matches) => Some(matches),
            Err(_) => None::<bool>,
        },
{
    bcrypt::verify(password, hash)
}

/// The store's error for a failure of the database.
fn backend(error: &rusqlite::Error) -> (failure: StoreError)
    ensures
        failure is Backend,
{
    StoreError::Backend(sql_error_text(error))
}

/// The first row that a statement returns, read as `columns` texts, if the
/// statement succeeds and returns a row.
fn single_row(
    connection: &MutexGuard<'_, rusqlite::Connection>,
    statement: &Statement,
    columns: usize,
) -> (row: Option<Vec<String>>)
    ensures
        row matches Some(texts) ==> texts.len() == columns,
{
    match query_rows(connection, statement, columns) {
        Ok(rows) => first_of(rows),
        Err(_) => None,
    }
}

/// The first of the rows, if there is one.
pub fn first_of(rows: Vec<Vec<String>>) -> (row: Option<Vec<String>>)
    ensures
        row == if rows.len() > 0 {
            Some(rows[0])
        } else {
            None
        },
{
    let mut rows = rows;
    if rows.len() > 0 {
        Some(rows.swap_remove(0))
    } else {
        None
    }
}

/// The handle of the store. Its clones share one connection, which a lock
/// gives to one operation at a time.
#[derive(Clone)]
pub struct Database {
    conn: Arc<Mutex<rusqlite::Connection>>,
}

impl Database {
    /// Opens the database at `db_path`, creating the file and the tables
    /// that are missing.
    pub fn new(db_path: &str) -> (opened: Result<Database, rusqlite::Error>) {
        let conn = open_connection(db_path)?;
        let db = Database { conn: Arc::new(guard_connection(conn)) };
        db.init_tables()?;
        Ok(db)
    }

    fn init_tables(&self) -> (done: Result<(), rusqlite::Error>) {
        let conn = lock_connection(&self.conn);
        execute(&conn, &create_users_table())?;
        execute(&conn, &create_groups_table())?;
        execute(&conn, &create_memberships_table())?;
        execute(&conn, &create_messages_table())?;
        execute(&conn, &create_departures_table())?;
        Ok(())
    }

    /// Creates the account `username` with a hash of `password` and returns
    /// the identifier of the new user. A user name that is in use is
    /// refused, as [`check_username_free`] decides.
    pub fn register_user(&self, username: &str, password: &str) -> (result: Result<
        String,
        StoreError,
    >)
        ensures
            result matches Err(e) ==> e is UsernameTaken || e is Backend,
    {
        let taken = match self.user_exists(username) {
            Ok(taken) => taken,
            Err(e) => return Err(backend(&e)),
        };
        check_username_free(taken)?;
        let user_id = fresh_id();
        let password_hash = match hash_password(password) {
            Ok(hash) => hash,
            Err(e) => return Err(StoreError::Backend(hash_error_text(&e))),
        };
        let created_at = timestamp_now();
        let conn = lock_connection(&self.conn);
        let insert = insert_user(
            user_id.as_str(),
            username,
            password_hash.as_str(),
            created_at.as_str(),
        );
        match execute(&conn, &insert) {
            Ok(_) => Ok(user_id),
            Err(e) => Err(backend(&e)),
        }
    }

    /// Checks `password` against the hash stored for `username` and returns
    /// the identifier of the user. [`found_account`] says what a missing
    /// account gives and [`authenticate`] what the password check gives; it
    /// succeeds only if the password matches the hash that was read.
    pub fn login_user(&self, username: &str, password: &str) -> (result: Result<
        String,
        StoreError,
    >)
        ensures
            result is Ok ==> exists|hash: Seq<char>|
                #[trigger] password_verdict(password@, hash) == Some(true),
            result matches Err(e) ==> e is UnknownAccount || e is InvalidPassword || e is Backend,
    {
        let conn = lock_connection(&self.conn);
        let row = single_row(&conn, &select_account(username), 2);
        let (user_id, password_hash) = found_account(row)?;
        let verdict = verify_password(password, password_hash.as_str());
        authenticate(user_id, verdict)
    }

    fn user_exists(&self, username: &str) -> (found: Result<bool, rusqlite::Error>) {
        let conn = lock_connection(&self.conn);
        let count = query_count(&conn, &count_usernames(username))?;
        Ok(count > 0)
    }

    /// Creates the group `name` and makes its creator the first member.
    pub fn create_group(&self, name: &str, creator_id: &str) -> (result: Result<(), StoreError>)
        ensures
            result matches Err(e) ==> e is Backend,
    {
        let group_id = fresh_id();
        let created_at = timestamp_now();
        let conn = lock_connection(&self.conn);
        let insert = insert_group(group_id.as_str(), name, creator_id, created_at.as_str());
        match execute(&conn, &insert) {
            Ok(_) => {},
            Err(e) => return Err(backend(&e)),
        }
        add_membership(&conn, group_id.as_str(), creator_id)
    }

    /// The groups that the user is a member of, as [`groups_from_rows`]
    /// reads them. Their member lists are left empty.
    pub fn get_user_groups(&self, user_id: &str) -> (result: Result<Vec<Group>, StoreError>)
        ensures
            result matches Ok(groups) ==> forall|i: int|
                0 <= i < groups.len() ==> (#[trigger] groups[i]).members.len() == 0,
            result matches Err(e) ==> e is Backend,
    {
        let conn = lock_connection(&self.conn);
        match query_rows(&conn, &select_user_groups(user_id), 4) {
            Ok(rows) => Ok(groups_from_rows(&rows)),
            Err(e) => Err(backend(&e)),
        }
    }

    /// The names of all users, in the order of the names.
    pub fn get_all_users(&self) -> (result: Result<Vec<String>, StoreError>)
        ensures
            result matches Err(e) ==> e is Backend,
    {
        let conn = lock_connection(&self.conn);
        match query_rows(&conn, &select_usernames(), 1) {
            Ok(rows) => Ok(first_column(&rows)),
            Err(e) => Err(backend(&e)),
        }
    }

    /// The number of accounts.
    pub fn get_user_count(&self) -> (count: Result<u32, rusqlite::Error>) {
        let conn = lock_connection(&self.conn);
        let count = query_count(&conn, &count_users())?;
        Ok(narrow(count))
    }

    /// The number of groups.
    pub fn get_group_count(&self) -> (count: Result<u32, rusqlite::Error>) {
        let conn = lock_connection(&self.conn);
        let count = query_count(&conn, &count_groups())?;
        Ok(narrow(count))
    }

    /// The number of messages.
    pub fn get_message_count(&self) -> (count: Result<u32, rusqlite::Error>) {
        let conn = lock_connection(&self.conn);
        let count = query_count(&conn, &count_messages())?;
        Ok(narrow(count))
    }

    /// Lets the user into the group `group_name`. [`found_group`] says what
    /// a missing group gives. The request is answered by [`join_reply`]
    /// from the standing that the store records for the user in the group:
    /// a member enters again; a user who never was a member becomes one,
    /// which adds the membership record; a user who left the group is
    /// refused until a member invites the user back.
    pub fn join_group(&self, group_name: &str, user_id: &str) -> (result: Result<(), StoreError>)
        ensures
            result matches Err(e) ==> e is GroupNotFound || e is RejoinBarred || e is Backend,
    {
        let conn = lock_connection(&self.conn);
        let group_id = find_group(&conn, group_name)?;
        let memberships = count_memberships(&conn, group_id.as_str(), user_id)?;
        let member = Standing::from_counts(memberships, 0);
        if member.member {
            return join_reply(member);
        }
        let departures = count_departures(&conn, group_id.as_str(), user_id)?;
        let standing = Standing::from_counts(memberships, departures);
        match answer_join(standing) {
            Admission::Admitted => add_membership(&conn, group_id.as_str(), user_id)?,
            _ => {},
        }
        join_reply(standing)
    }

    /// Makes `username` a member of `group_name` on the invitation of the
    /// member `inviter_id`. [`found_group`] and [`found_user`] say what a
    /// missing group and a missing user give. The inviter has to pass
    /// [`require_membership`] and the invited user [`accept_invitation`];
    /// then the departure record of the invited user, if there is one, is
    /// deleted, which lifts the bar that it had set, and the membership
    /// record is added.
    pub fn invite_user_to_group(&self, group_name: &str, username: &str, inviter_id: &str) -> (result:
        Result<(), StoreError>)
        ensures
            result matches Err(e) ==> e is GroupNotFound || e is NotAMember || e is UserNotFound
                || e is AlreadyInGroup || e is Backend,
    {
        let conn = lock_connection(&self.conn);
        let group_id = find_group(&conn, group_name)?;
        let inviter_memberships = count_memberships(&conn, group_id.as_str(), inviter_id)?;
        require_membership(inviter_memberships)?;
        let user_id = found_user(single_row(&conn, &select_user_id(username), 1))?;
        let memberships = count_memberships(&conn, group_id.as_str(), user_id.as_str())?;
        accept_invitation(memberships)?;
        match execute(&conn, &delete_departure(group_id.as_str(), user_id.as_str())) {
            Ok(_) => {},
            Err(e) => return Err(backend(&e)),
        }
        add_membership(&conn, group_id.as_str(), user_id.as_str())
    }

    /// Ends the membership of the user in `group_name`. [`found_group`]
    /// says what a missing group gives. The membership record is deleted,
    /// [`confirm_departure`] answers from the number of records that were
    /// deleted, and for a member the departure is recorded, which bars the
    /// user from joining again uninvited.
    pub fn leave_group(&self, group_name: &str, user_id: &str) -> (result: Result<(), StoreError>)
        ensures
            result matches Err(e) ==> e is GroupNotFound || e is NotAMember || e is Backend,
    {
        let conn = lock_connection(&self.conn);
        let group_id = find_group(&conn, group_name)?;
        let deleted = match execute(&conn, &delete_membership(group_id.as_str(), user_id)) {
            Ok(deleted) => deleted,
            Err(e) => return Err(backend(&e)),
        };
        confirm_departure(deleted)?;
        let departure_id = fresh_id();
        let left_at = timestamp_now();
        let insert = insert_departure(
            departure_id.as_str(),
            group_id.as_str(),
            user_id,
            left_at.as_str(),
        );
        match execute(&conn, &insert) {
            Ok(_) => Ok(()),
            Err(e) => Err(backend(&e)),
        }
    }

    /// The names of the members of `group_name`, in the order of the names.
    pub fn get_group_members(&self, group_name: &str) -> (result: Result<Vec<String>, StoreError>)
        ensures
            result matches Err(e) ==> e is GroupNotFound || e is Backend,
    {
        let conn = lock_connection(&self.conn);
        let group_id = find_group(&conn, group_name)?;
        match query_rows(&conn, &select_member_names(group_id.as_str()), 1) {
            Ok(rows) => Ok(first_column(&rows)),
            Err(e) => Err(backend(&e)),
        }
    }

    /// Appends a message of the member `user_id` to `group_name`. It
    /// returns, in this order, the identifiers of the message and of the
    /// group, the user, the content and the time of sending.
    pub fn send_message(&self, group_name: &str, user_id: &str, content: &str) -> (result: Result<
        Vec<String>,
        StoreError,
    >)
        ensures
            result matches Ok(sent) ==> sent.len() == 5 && sent[2]@ == user_id@ && sent[3]@
                == content@,
            result matches Err(e) ==> e is GroupNotFound || e is NotAMember || e is Backend,
    {
        let conn = lock_connection(&self.conn);
        let group_id = find_group(&conn, group_name)?;
        let memberships = count_memberships(&conn, group_id.as_str(), user_id)?;
        require_membership(memberships)?;
        let message_id = fresh_id();
        let sent_at = timestamp_now();
        let insert = insert_message(
            message_id.as_str(),
            group_id.as_str(),
            user_id,
            content,
            sent_at.as_str(),
        );
        match execute(&conn, &insert) {
            Ok(_) => {},
            Err(e) => return Err(backend(&e)),
        }
        let mut sent: Vec<String> = Vec::new();
        sent.push(message_id);
        sent.push(group_id);
        sent.push(user_id.to_owned());
        sent.push(content.to_owned());
        sent.push(sent_at);
        Ok(sent)
    }

    /// The most recent messages of `group_name`, at most `limit` of them,
    /// oldest first: the rows that the store returns newest first, read by
    /// [`messages_from_rows`] and turned round by [`recent_window`].
    pub fn get_recent_messages(&self, group_name: &str, limit: u32) -> (result: Result<
        Vec<ChatMessage>,
        StoreError,
    >)
        ensures
            result matches Ok(window) ==> window.len() <= limit,
            result matches Err(e) ==> e is GroupNotFound || e is Backend,
    {
        let conn = lock_connection(&self.conn);
        let group_id = find_group(&conn, group_name)?;
        match query_rows(&conn, &select_recent_messages(group_id.as_str(), limit), 4) {
            Ok(rows) => Ok(recent_window(messages_from_rows(&rows), limit)),
            Err(e) => Err(backend(&e)),
        }
    }

    /// The identifier of the group `group_name`, as [`found_group_named`]
    /// reads it.
    pub fn get_group_id(&self, group_name: &str) -> (result: Result<String, StoreError>)
        ensures
            result matches Err(e) ==> (e matches StoreError::NoSuchGroup(name) && name@
                == group_name@),
    {
        let conn = lock_connection(&self.conn);
        found_group_named(single_row(&conn, &select_group_id(group_name), 1), group_name)
    }
}

/// The identifier that a lookup of a group returned: that of the row, or
/// the error of a group that is not found where no row came back.
pub fn found_group(row: Option<Vec<String>>) -> (result: Result<String, StoreError>)
    requires
        row matches Some(texts) ==> texts.len() == 1,
    ensures
        result == match row {
            Some(texts) => Ok::<String, StoreError>(texts[0]),
            None => Err::<String, StoreError>(StoreError::GroupNotFound),
        },
{
    match first_text(row) {
        Some(group_id) => Ok(group_id),
        None => Err(StoreError::GroupNotFound),
    }
}

/// The identifier that a lookup of the group `group_name` returned: that
/// of the row, or an error that names the group where no row came back.
pub fn found_group_named(row: Option<Vec<String>>, group_name: &str) -> (result: Result<
    String,
    StoreError,
>)
    requires
        row matches Some(texts) ==> texts.len() == 1,
    ensures
        match row {
            Some(texts) => result == Ok::<String, StoreError>(texts[0]),
            None => result matches Err(StoreError::NoSuchGroup(name)) && name@ == group_name@,
        },
{
    match first_text(row) {
        Some(group_id) => Ok(group_id),
        None => Err(StoreError::NoSuchGroup(group_name.to_owned())),
    }
}

/// The identifier that a lookup of a user returned: that of the row, or the
/// error of a user who is not found where no row came back.
pub fn found_user(row: Option<Vec<String>>) -> (result: Result<String, StoreError>)
    requires
        row matches Some(texts) ==> texts.len() == 1,
    ensures
        result == match row {
            Some(texts) => Ok::<String, StoreError>(texts[0]),
            None => Err::<String, StoreError>(StoreError::UserNotFound),
        },
{
    match first_text(row) {
        Some(user_id) => Ok(user_id),
        None => Err(StoreError::UserNotFound),
    }
}

/// The identifier and the password hash that a lookup of an account
/// returned: those of the row, or the error of an unknown account where no
/// row came back.
pub fn found_account(row: Option<Vec<String>>) -> (result: Result<(String, String), StoreError>)
    requires
        row matches Some(texts) ==> texts.len() == 2,
    ensures
        result == match row {
            Some(texts) => Ok::<(String, String), StoreError>((texts[0], texts[1])),
            None => Err::<(String, String), StoreError>(StoreError::UnknownAccount),
        },
{
    match row {
        Some(texts) => {
            let mut texts = texts;
            let password_hash = texts.swap_remove(1);
            let user_id = texts.swap_remove(0);
            Ok((user_id, password_hash))
        },
        None => Err(StoreError::UnknownAccount),
    }
}

/// The only text of a row, if there is a row.
fn first_text(row: Option<Vec<String>>) -> (text: Option<String>)
    requires
        row matches Some(texts) ==> texts.len() == 1,
    ensures
        text == match row {
            Some(texts) => Some(texts[0]),
            None => None::<String>,
        },
{
    match row {
        Some(texts) => {
            let mut texts = texts;
            Some(texts.swap_remove(0))
        },
        None => None,
    }
}

/// Refuses a registration under a user name that an account has.
pub fn check_username_free(taken: bool) -> (result: Result<(), StoreError>)
    ensures
        result == if taken {
            Err::<(), StoreError>(StoreError::UsernameTaken)
        } else {
            Ok::<(), StoreError>(())
        },
{
    if taken {
        Err(StoreError::UsernameTaken)
    } else {
        Ok(())
    }
}

/// Decides a login from what the password check answered for the hash of
/// the account `user_id`: the user is let in exactly when the password
/// matches.
pub fn authenticate(user_id: String, verdict: Result<bool, bcrypt::BcryptError>) -> (result: Result<
    String,
    StoreError,
>)
    ensures
        match verdict {
            Ok(true) => result == Ok::<String, StoreError>(user_id),
            Ok(false) => result == Err::<String, StoreError>(StoreError::InvalidPassword),
            Err(_) => result matches Err(e) && e is Backend,
        },
{
    match verdict {
        Ok(true) => Ok(user_id),
        Ok(false) => Err(StoreError::InvalidPassword),
        Err(e) => Err(StoreError::Backend(hash_error_text(&e))),
    }
}

/// A count that the database returned, cut to its lower 32 bits.
pub fn narrow(count: i64) -> (narrowed: u32)
    ensures
        narrowed == count as u32,
        0 <= count <= u32::MAX ==> narrowed == count,
{
    #[verifier::truncate]
    (count as u32)
}

/// The first entry of every row, in the order of the rows.
pub fn first_column(rows: &Vec<Vec<String>>) -> (column: Vec<String>)
    requires
        forall|i: int| 0 <= i < rows.len() ==> (#[trigger] rows[i]).len() == 1,
    ensures
        column.deep_view() == rows.deep_view().map_values(|row: Seq<Seq<char>>| row[0]),
{
    let mut column: Vec<String> = Vec::new();
    let mut i: usize = 0;
    while i < rows.len()
        invariant
            i <= rows.len(),
            forall|j: int| 0 <= j < rows.len() ==> (#[trigger] rows[j]).len() == 1,
            column.deep_view() == rows.deep_view().take(i as int).map_values(
                |row: Seq<Seq<char>>| row[0],
            ),
        decreases rows.len() - i,
    {
        let ghost before = column.deep_view();
        column.push(rows[i][0].clone());
        proof {
            assert(column.deep_view() =~= before.push(rows.deep_view()[i as int][0]));
            assert(rows.deep_view().take(i + 1) =~= rows.deep_view().take(i as int).push(
                rows.deep_view()[i as int],
            ));
        }
        i += 1;
    }
    assert(rows.deep_view().take(i as int) =~= rows.deep_view());
    column
}

/// The group that a row of identifier, name, creator and creation time
/// stands for. Its member list is left empty.
pub open spec fn group_of_row(row: Seq<Seq<char>>) -> GroupView {
    GroupView {
        id: row[0],
        name: row[1],
        members: Seq::empty(),
        creator_id: row[2],
        created_at: row[3],
    }
}

/// The groups that the rows stand for, in the order of the rows.
pub fn groups_from_rows(rows: &Vec<Vec<String>>) -> (groups: Vec<Group>)
    requires
        forall|i: int| 0 <= i < rows.len() ==> (#[trigger] rows[i]).len() == 4,
    ensures
        groups.deep_view() == rows.deep_view().map_values(|row: Seq<Seq<char>>| group_of_row(row)),
        forall|i: int| 0 <= i < groups.len() ==> (#[trigger] groups[i]).members.len() == 0,
{
    let mut groups: Vec<Group> = Vec::new();
    let mut i: usize = 0;
    while i < rows.len()
        invariant
            i <= rows.len(),
            forall|j: int| 0 <= j < rows.len() ==> (#[trigger] rows[j]).len() == 4,
            forall|j: int| 0 <= j < groups.len() ==> (#[trigger] groups[j]).members.len() == 0,
            groups.deep_view() == rows.deep_view().take(i as int).map_values(
                |row: Seq<Seq<char>>| group_of_row(row),
            ),
        decreases rows.len() - i,
    {
        let row = &rows[i];
        let group = Group {
            id: row[0].clone(),
            name: row[1].clone(),
            creator_id: row[2].clone(),
            created_at: row[3].clone(),
            members: Vec::new(),
        };
        let ghost before = groups.deep_view();
        proof {
            assert(group.members.deep_view() =~= Seq::<Seq<char>>::empty());
            assert(group.deep_view() == group_of_row(rows.deep_view()[i as int]));
        }
        groups.push(group);
        proof {
            assert(groups.deep_view() =~= before.push(group.deep_view()));
            assert(rows.deep_view().take(i + 1) =~= rows.deep_view().take(i as int).push(
                rows.deep_view()[i as int],
            ));
        }
        i += 1;
    }
    assert(rows.deep_view().take(i as int) =~= rows.deep_view());
    groups
}

/// The message that a row of identifier, content, user name and time of
/// sending stands for.
pub open spec fn message_of_row(row: Seq<Seq<char>>) -> ChatMessageView {
    ChatMessageView { id: row[0], content: row[1], username: row[2], timestamp: row[3] }
}

/// The messages that the rows stand for, in the order of the rows.
pub fn messages_from_rows(rows: &Vec<Vec<String>>) -> (messages: Vec<ChatMessage>)
    requires
        forall|i: int| 0 <= i < rows.len() ==> (#[trigger] rows[i]).len() == 4,
    ensures
        messages.deep_view() == rows.deep_view().map_values(
            |row: Seq<Seq<char>>| message_of_row(row),
        ),
{
    let mut messages: Vec<ChatMessage> = Vec::new();
    let mut i: usize = 0;
    while i < rows.len()
        invariant
            i <= rows.len(),
            forall|j: int| 0 <= j < rows.len() ==> (#[trigger] rows[j]).len() == 4,
            messages.deep_view() == rows.deep_view().take(i as int).map_values(
                |row: Seq<Seq<char>>| message_of_row(row),
            ),
        decreases rows.len() - i,
    {
        let row = &rows[i];
        let message = ChatMessage {
            id: row[0].clone(),
            content: row[1].clone(),
            username: row[2].clone(),
            timestamp: row[3].clone(),
        };
        let ghost before = messages.deep_view();
        proof {
            assert(message.deep_view() == message_of_row(rows.deep_view()[i as int]));
        }
        messages.push(message);
        proof {
            assert(messages.deep_view() =~= before.push(message.deep_view()));
            assert(rows.deep_view().take(i + 1) =~= rows.deep_view().take(i as int).push(
                rows.deep_view()[i as int],
            ));
        }
        i += 1;
    }
    assert(rows.deep_view().take(i as int) =~= rows.deep_view());
    messages
}

/// Looks a group up by its name.
fn find_group(connection: &MutexGuard<'_, rusqlite::Connection>, group_name: &str) -> (result:
    Result<String, StoreError>)
    ensures
        result matches Err(e) ==> e is GroupNotFound,
{
    found_group(single_row(connection, &select_group_id(group_name), 1))
}

/// Counts the membership records of a user in a group.
fn count_memberships(
    connection: &MutexGuard<'_, rusqlite::Connection>,
    group_id: &str,
    user_id: &str,
) -> (result: Result<i64, StoreError>)
    ensures
        result matches Err(e) ==> e is Backend,
{
    match query_count(connection, &count_membership(group_id, user_id)) {
        Ok(count) => Ok(count),
        Err(e) => Err(backend(&e)),
    }
}

/// Counts the departure records of a user in a group.
fn count_departures(
    connection: &MutexGuard<'_, rusqlite::Connection>,
    group_id: &str,
    user_id: &str,
) -> (result: Result<i64, StoreError>)
    ensures
        result matches Err(e) ==> e is Backend,
{
    match query_count(connection, &count_departure(group_id, user_id)) {
        Ok(count) => Ok(count),
        Err(e) => Err(backend(&e)),
    }
}

/// Records a user as a member of a group, as of now.
fn add_membership(
    connection: &MutexGuard<'_, rusqlite::Connection>,
    group_id: &str,
    user_id: &str,
) -> (result: Result<(), StoreError>)
    ensures
        result matches Err(e) ==> e is Backend,
{
    let membership_id = fresh_id();
    let joined_at = timestamp_now();
    let insert = insert_membership(membership_id.as_str(), group_id, user_id, joined_at.as_str());
    match execute(connection, &insert) {
        Ok(_) => Ok(()),
        Err(e) => Err(backend(&e)),
    }
}

/// The window of recent messages that rows in the order newest first stand
/// for: the first `limit` of them, turned round so that the oldest comes
/// first.
pub open spec fn window_of(newest_first: Seq<ChatMessageView>, limit: int) -> Seq<ChatMessageView> {
    newest_first.take(vstd::math::min(limit, newest_first.len() as int)).reverse()
}

/// Builds the window of recent messages from the rows that the store
/// returned newest first.
pub fn recent_window(newest_first: Vec<ChatMessage>, limit: u32) -> (window: Vec<ChatMessage>)
    ensures
        window.deep_view() == window_of(newest_first.deep_view(), limit as int),
        window.len() <= limit,
{
    let mut rest = newest_first;
    if rest.len() > limit as usize {
        rest.truncate(limit as usize);
    }
    let ghost kept = rest.deep_view();
    let mut window: Vec<ChatMessage> = Vec::new();
    while rest.len() > 0
        invariant
            rest.len() <= kept.len(),
            window.len() == kept.len() - rest.len(),
            rest.deep_view() =~= kept.take(rest.len() as int),
            forall|i: int|
                0 <= i < window.len() ==> (#[trigger] window.deep_view()[i]) == kept[kept.len() - 1
                    - i],
        decreases rest.len(),
    {
        let ghost before = rest.deep_view();
        let ghost built = window.deep_view();
        match rest.pop() {
            Some(message) => {
                assert(message.deep_view() == before[before.len() - 1]);
                window.push(message);
                assert(window.deep_view() =~= built.push(message.deep_view()));
            },
            None => {},
        }
    }
    window
}

/// The window of recent messages is in ascending order whenever the rows it
/// was built from were in descending order, whatever the order is, and it
/// holds no more messages than the limit.
pub proof fn lemma_window_is_ascending(
    newest_first: Seq<ChatMessageView>,
    limit: nat,
    not_after: spec_fn(ChatMessageView, ChatMessageView) -> bool,
)
    requires
        forall|i: int, j: int|
            0 <= i < j < newest_first.len() ==> not_after(
                #[trigger] newest_first[j],
                #[trigger] newest_first[i],
            ),
    ensures
        window_of(newest_first, limit as int).len() <= limit,
        window_of(newest_first, limit as int).len() <= newest_first.len(),
        forall|i: int, j: int|
            0 <= i < j < window_of(newest_first, limit as int).len() ==> not_after(
                #[trigger] window_of(newest_first, limit as int)[i],
                #[trigger] window_of(newest_first, limit as int)[j],
            ),
{
}

} // verus!
