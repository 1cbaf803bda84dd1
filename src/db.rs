//! Records of the audit log of bot activity. Storing and querying them is
//! done outside the library; these are the values that travel.
use vstd::prelude::*;

verus! {

/// One bot action to be written to the audit log.
#[derive(Clone, Debug)]
pub struct CommandLog {
    pub command_name: String,
    pub user_id: String,
    pub user_name: String,
    pub channel_id: String,
    pub guild_id: Option<String>,
    pub message_id: String,
    pub success: bool,
    pub error_message: Option<String>,
}

/// A recent log entry, as queried back.
#[derive(Clone, Debug)]
pub struct RecentLog {
    pub command_name: String,
    pub user_name: String,
    pub timestamp: i64,
    pub success: bool,
}

/// Usage statistics of one user.
#[derive(Clone, Debug)]
pub struct UserStats {
    pub user_id: String,
    pub total_count: i64,
    pub command_breakdown: Vec<(String, i64)>,
    pub first_use: Option<i64>,
    pub last_use: Option<i64>,
}

/// How many successful actions one day saw.
#[derive(Clone, Debug)]
pub struct DailyUsage {
    pub date: String,
    pub count: i64,
}

} // verus!
