//! Request and response bodies of the loopback HTTP API.
use vstd::prelude::*;

use crate::ai::task::RoutingPreference;

verus! {

#[derive(Debug, Clone)]
pub struct CreateProjectRequest {
    pub name: String,
    pub description: Option<String>,
}

#[derive(Debug, Clone)]
pub struct UpdateProjectRequest {
    pub name: Option<String>,
    pub description: Option<String>,
    pub status: Option<String>,
}

#[derive(Debug, Clone)]
pub struct CreateTaskRequest {
    pub title: String,
    pub description: Option<String>,
    pub priority: i32,
    pub due_at: Option<i64>,
}

#[derive(Debug, Clone)]
pub struct UpdateTaskRequest {
    pub title: Option<String>,
    pub description: Option<String>,
    pub status: Option<String>,
    pub priority: Option<i32>,
    pub due_at: Option<i64>,
}

/// The priority of a task created without one.
pub fn default_priority() -> (r: i32)
    ensures
        r == 1,
{
    1
}

#[derive(Debug, Clone, Copy)]
pub struct LimitQuery {
    pub limit: u32,
}

/// The page size of list endpoints when none is given.
pub fn default_limit() -> (r: u32)
    ensures
        r == 50,
{
    50
}

/// One mentor interaction turn as a client sends it.
#[derive(Debug, Clone)]
pub struct MentorTurnRequest {
    pub message: String,
    pub conversation_id: Option<String>,
    pub project_id: Option<String>,
    pub routing: RoutingPreference,
}

/// One SSE event sent back during a mentor turn.
#[derive(Debug, Clone)]
pub struct MentorTurnChunk {
    pub chunk: String,
    pub done: bool,
    pub correlation_id: String,
    pub conversation_id: Option<String>,
    pub error: Option<String>,
}

/// The body of the health endpoint.
#[derive(Debug, Clone)]
pub struct HealthResponse {
    pub status: &'static str,
    pub version: &'static str,
    pub daemon_ready: bool,
}

/// An error body.
#[derive(Debug, Clone)]
pub struct ApiError {
    pub error: String,
    pub correlation_id: Option<String>,
}

/// Query of the signals list.
#[derive(Debug, Clone)]
pub struct SignalQuery {
    pub project_id: Option<String>,
    pub limit: u32,
}

/// The page size of the signals list when none is given.
pub fn default_signal_limit() -> (r: u32)
    ensures
        r == 50,
{
    50
}

} // verus!
