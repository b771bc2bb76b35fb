//! Records of the progress database.

use vstd::prelude::*;

verus! {

/// A feature under test.
#[derive(Debug, Clone)]
pub struct Feature {
    pub id: Option<i64>,
    pub category: String,
    pub description: String,
    pub steps: Vec<String>,
    pub passes: bool,
    pub verification_command: Option<String>,
    pub last_error: Option<String>,
}

/// A running (or stopped) agent process.
#[derive(Debug, Clone)]
pub struct Instance {
    pub id: i64,
    pub pid: u32,
    pub role: String,
    pub start_time: String,
    pub status: String,
    pub log_path: Option<String>,
    pub project_path: Option<String>,
    pub updated_at: String,
}

/// A fact the agent keeps about a project.
#[derive(Debug, Clone)]
pub struct Knowledge {
    pub key: String,
    pub value: String,
    pub category: String,
    pub description: Option<String>,
}

/// An agent session.
#[derive(Debug, Clone)]
pub struct Session {
    pub id: i64,
    pub session_number: i32,
    pub started_at: String,
    pub completed_at: Option<String>,
    pub features_before: i32,
    pub features_after: i32,
    pub status: String,
}

/// An event of a session.
#[derive(Debug, Clone)]
pub struct SessionEvent {
    pub id: i64,
    pub session_id: i64,
    pub event_type: String,
    pub message: Option<String>,
    pub timestamp: String,
}

/// Counts over all sessions.
#[derive(Debug, Clone, Copy, Default)]
pub struct SessionStats {
    pub total_sessions: usize,
    pub completed_sessions: usize,
    pub total_features_completed: usize,
}

} // verus!
