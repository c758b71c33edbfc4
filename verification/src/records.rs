//! Rows of the session log and its aggregate queries.
//!
//! The log itself is an external collaborator (an append-only store the host
//! owns); these are the shapes the engine's records take there and the
//! shapes its aggregate queries return.

use vstd::prelude::*;

verus! {

/// One row of the session log: an action or completion record as stored.
#[derive(Clone, Debug)]
pub struct PomodoroRecord {
    pub id: i64,
    pub task_name: String,
    /// Action label: start, pause, resume or complete.
    pub action: String,
    /// Seconds credited; zero for non-completion records.
    pub elapsed: u64,
    /// Phase code the record is tagged with.
    pub phase: u8,
    /// Epoch second the record was written at.
    pub timestamp: i64,
}

/// Totals per task over a queried window.
#[derive(Clone, Debug)]
pub struct TaskStats {
    pub task_name: String,
    /// Number of completion records.
    pub sessions: i64,
    /// Sum of the elapsed seconds credited.
    pub total_seconds: i64,
}

/// Totals per task and calendar day over a queried window.
#[derive(Clone, Debug)]
pub struct DailyStats {
    /// ISO date, "YYYY-MM-DD".
    pub day: String,
    pub task_name: String,
    pub sessions: i64,
    pub total_seconds: i64,
}

} // verus!
