//! What the web dashboard takes and answers.

use vstd::prelude::*;

verus! {

/// Query parameters for context entries.
#[derive(Debug, Clone)]
pub struct ContextQuery {
    pub session_id: Option<String>,
    pub limit: Option<usize>,
}

/// One context entry in an answer.
#[derive(Debug, Clone)]
pub struct ContextEntryResponse {
    pub id: String,
    pub agent_name: String,
    pub session_id: String,
    pub timestamp: String,
    pub content: String,
    pub role: String,
    pub metadata: Vec<(String, String)>,
}

/// The answer to a query for context entries.
#[derive(Debug, Clone)]
pub struct ContextResponse {
    pub entries: Vec<ContextEntryResponse>,
    pub total: usize,
}

/// One session in an answer.
#[derive(Debug, Clone)]
pub struct SessionInfoResponse {
    pub session_id: String,
    pub entry_count: usize,
    pub first_entry: String,
    pub last_entry: String,
}

/// The answer to a query for sessions.
#[derive(Debug, Clone)]
pub struct SessionsResponse {
    pub sessions: Vec<SessionInfoResponse>,
    pub total: usize,
}

/// One log entry in an answer.
#[derive(Debug, Clone)]
pub struct LogEntryResponse {
    pub id: String,
    pub timestamp: String,
    pub level: String,
    pub message: String,
    pub session_id: String,
    pub module: Option<String>,
    pub file: Option<String>,
    pub line: Option<u32>,
    pub target: Option<String>,
    pub metadata: Vec<(String, String)>,
}

/// The answer to a query for logs.
#[derive(Debug, Clone)]
pub struct LogsResponse {
    pub logs: Vec<LogEntryResponse>,
    pub total: usize,
}

} // verus!
