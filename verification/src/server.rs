//! What the server reports about itself.

use crate::common::{Group, GroupId, GroupInvite, Message, User, UserId};
use crate::database::Database;
use crate::text::{decimal, decimal_of};
use std::collections::HashMap;
use vstd::prelude::*;
use vstd::string::*;

verus! {

/// The size of the service at one moment.
#[derive(Debug, Clone, Copy, PartialEq, Eq)]
pub struct ServerStats {
    pub connected_users: usize,
    pub total_users: u32,
    pub total_groups: u32,
    pub total_messages: u32,
}

/// Puts the number of live sessions together with the numbers of users,
/// groups and messages that the store counts.
pub fn get_stats(connected_users: usize, database: &Database) -> (stats: Result<
    ServerStats,
    rusqlite::Error,
>)
    ensures
        stats matches Ok(counted) ==> counted.connected_users == connected_users,
{
    let total_users = database.get_user_count()?;
    let total_groups = database.get_group_count()?;
    let total_messages = database.get_message_count()?;
    Ok(ServerStats { connected_users, total_users, total_groups, total_messages })
}

/// The line of the performance log for one interval: the time, the sizes
/// of the store, and the processor time used in all, used in the interval,
/// and the length of the interval, in milliseconds.
pub open spec fn performance_line_of(
    timestamp: Seq<char>,
    stats: ServerStats,
    cpu_total_ms: nat,
    cpu_delta_ms: nat,
    wall_interval_ms: nat,
) -> Seq<char> {
    timestamp + " | users="@ + decimal_of(stats.total_users as nat) + " groups="@ + decimal_of(
        stats.total_groups as nat,
    ) + " messages="@ + decimal_of(stats.total_messages as nat) + " cpu_total_ms="@ + decimal_of(
        cpu_total_ms,
    ) + " cpu_delta_ms="@ + decimal_of(cpu_delta_ms) + " wall_interval_ms="@ + decimal_of(
        wall_interval_ms,
    )
}

/// Composes the line of the performance log for one interval.
pub fn performance_line(
    timestamp: &str,
    stats: &ServerStats,
    cpu_total_ms: u128,
    cpu_delta_ms: u128,
    wall_interval_ms: u128,
) -> (line: String)
    ensures
        line@ == performance_line_of(
            timestamp@,
            *stats,
            cpu_total_ms as nat,
            cpu_delta_ms as nat,
            wall_interval_ms as nat,
        ),
{
    let users = decimal(stats.total_users as u128);
    let groups = decimal(stats.total_groups as u128);
    let messages = decimal(stats.total_messages as u128);
    let cpu_total = decimal(cpu_total_ms);
    let cpu_delta = decimal(cpu_delta_ms);
    let wall = decimal(wall_interval_ms);
    String::from_str(timestamp).concat(" | users=").concat(users.as_str()).concat(
        " groups=",
    ).concat(groups.as_str()).concat(" messages=").concat(messages.as_str()).concat(
        " cpu_total_ms=",
    ).concat(cpu_total.as_str()).concat(" cpu_delta_ms=").concat(cpu_delta.as_str()).concat(
        " wall_interval_ms=",
    ).concat(wall.as_str())
}

/// The state of a server that keeps everything in memory.
pub struct ServerState {
    pub users: HashMap<UserId, User>,
    pub groups: HashMap<GroupId, Group>,
    pub invites: HashMap<String, GroupInvite>,
    pub messages: Vec<Message>,
    pub active_connections: usize,
    pub message_count: usize,
}

impl ServerState {
    /// The state of a server that has seen nothing yet.
    pub fn new() -> (state: ServerState)
        ensures
            state.users@ == Map::<UserId, User>::empty(),
            state.groups@ == Map::<GroupId, Group>::empty(),
            state.invites@ == Map::<String, GroupInvite>::empty(),
            state.messages@ == Seq::<Message>::empty(),
            state.active_connections == 0,
            state.message_count == 0,
    {
        ServerState {
            users: HashMap::new(),
            groups: HashMap::new(),
            invites: HashMap::new(),
            messages: Vec::new(),
            active_connections: 0,
            message_count: 0,
        }
    }
}

} // verus!
