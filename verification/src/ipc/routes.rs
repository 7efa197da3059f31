//! The decisions of the HTTP handlers: status codes, error bodies, how updates merge with
//! stored records and how a mentor stream becomes SSE events.
use vstd::prelude::*;

use crate::ai::task::StreamChunk;
use crate::engines::mentor::MentorTurnInput;
use crate::error::{daemon_error_text, provider_error_text, DaemonError, ProviderError};
use crate::ipc::types::{
    ApiError, HealthResponse, MentorTurnChunk, MentorTurnRequest, UpdateProjectRequest,
    UpdateTaskRequest,
};
use crate::memory::l1::{Project, Task};
use crate::text::{concat, owned};

verus! {

/// 404 with the message.
pub fn not_found(msg: &str) -> (r: (u16, ApiError))
    ensures
        r.0 == 404,
        r.1.error@ == msg@,
        r.1.correlation_id is None,
{
    (404, ApiError { error: owned(msg), correlation_id: None })
}

/// 500 with the error's message.
pub fn internal_err(e: &DaemonError) -> (r: (u16, ApiError))
    ensures
        r.0 == 500,
        r.1.error@ == daemon_error_text(*e),
        r.1.correlation_id is None,
{
    (500, ApiError { error: e.to_string(), correlation_id: None })
}

/// The health answer: ok and ready, with the daemon's version.
pub fn health(version: &'static str) -> (r: HealthResponse)
    ensures
        r.status@ == "ok"@,
        r.version == version,
        r.daemon_ready,
{
    HealthResponse { status: "ok", version, daemon_ready: true }
}

/// The outcome of a handler that looks a record up: the record, or the error reply
/// (404 "<what> not found" when it is missing, 500 when the store failed).
pub fn lookup_reply<T>(found: Result<Option<T>, DaemonError>, what: &str) -> (r: Result<T, (u16, ApiError)>)
    ensures
        match found {
            Ok(Some(t)) => r == Ok::<T, (u16, ApiError)>(t),
            Ok(None) => r matches Err(e) && e.0 == 404 && e.1.error@ == what@ + " not found"@
                && e.1.correlation_id is None,
            Err(d) => r matches Err(e) && e.0 == 500 && e.1.error@ == daemon_error_text(d)
                && e.1.correlation_id is None,
        },
{
    match found {
        Ok(Some(t)) => Ok(t),
        Ok(None) => {
            let msg = concat(what, " not found");
            Err(not_found(msg.as_str()))
        },
        Err(e) => Err(internal_err(&e)),
    }
}

/// The values a project update writes: each given field, and the stored value otherwise.
pub struct ProjectChanges {
    pub name: String,
    pub description: Option<String>,
    pub status: String,
}

pub fn merge_project_update(existing: Project, req: UpdateProjectRequest) -> (r: ProjectChanges)
    ensures
        r.name == match req.name {
            Some(n) => n,
            None => existing.name,
        },
        r.description == match req.description {
            Some(d) => Some(d),
            None => existing.description,
        },
        r.status == match req.status {
            Some(s) => s,
            None => existing.status,
        },
{
    ProjectChanges {
        name: match req.name {
            Some(n) => n,
            None => existing.name,
        },
        description: match req.description {
            Some(d) => Some(d),
            None => existing.description,
        },
        status: match req.status {
            Some(s) => s,
            None => existing.status,
        },
    }
}

/// The values a task update writes: each given field, and the stored value otherwise.
pub struct TaskChanges {
    pub title: String,
    pub description: Option<String>,
    pub status: String,
    pub priority: i32,
    pub due_at: Option<i64>,
}

pub fn merge_task_update(existing: Task, req: UpdateTaskRequest) -> (r: TaskChanges)
    ensures
        r.title == match req.title {
            Some(t) => t,
            None => existing.title,
        },
        r.description == match req.description {
            Some(d) => Some(d),
            None => existing.description,
        },
        r.status == match req.status {
            Some(s) => s,
            None => existing.status,
        },
        r.priority == match req.priority {
            Some(p) => p,
            None => existing.priority,
        },
        r.due_at == match req.due_at {
            Some(d) => Some(d),
            None => existing.due_at,
        },
{
    TaskChanges {
        title: match req.title {
            Some(t) => t,
            None => existing.title,
        },
        description: match req.description {
            Some(d) => Some(d),
            None => existing.description,
        },
        status: match req.status {
            Some(s) => s,
            None => existing.status,
        },
        priority: match req.priority {
            Some(p) => p,
            None => existing.priority,
        },
        due_at: match req.due_at {
            Some(d) => Some(d),
            None => existing.due_at,
        },
    }
}

/// The mentor turn a request asks for, on behalf of the local user.
pub fn mentor_turn_input(req: MentorTurnRequest, correlation_id: String) -> (r: MentorTurnInput)
    ensures
        r.message == req.message,
        r.conversation_id == req.conversation_id,
        r.project_id == req.project_id,
        r.routing == req.routing,
        r.correlation_id == correlation_id,
        r.user_id@ == "local"@,
{
    MentorTurnInput {
        message: req.message,
        conversation_id: req.conversation_id,
        project_id: req.project_id,
        routing: req.routing,
        correlation_id,
        user_id: owned("local"),
    }
}

/// The SSE event of one stream item: a chunk passes its content and done flag; an error
/// ends the stream with its message.
pub fn mentor_chunk(
    item: Result<StreamChunk, ProviderError>,
    correlation_id: &str,
    conversation_id: &str,
) -> (r: MentorTurnChunk)
    ensures
        r.correlation_id@ == correlation_id@,
        r.conversation_id matches Some(c) && c@ == conversation_id@,
        match item {
            Ok(sc) => r.chunk == sc.content && r.done == sc.done && r.error is None,
            Err(e) => {
                &&& r.chunk@ == Seq::<char>::empty()
                &&& r.done
                &&& r.error matches Some(m) && m@ == provider_error_text(e)
            },
        },
{
    match item {
        Ok(sc) => MentorTurnChunk {
            chunk: sc.content,
            done: sc.done,
            correlation_id: owned(correlation_id),
            conversation_id: Some(owned(conversation_id)),
            error: None,
        },
        Err(e) => MentorTurnChunk {
            chunk: String::new(),
            done: true,
            correlation_id: owned(correlation_id),
            conversation_id: Some(owned(conversation_id)),
            error: Some(e.to_string()),
        },
    }
}

/// The single SSE event sent (with status 500) when a mentor turn fails before streaming.
pub fn mentor_failure_chunk(e: &DaemonError, correlation_id: &str) -> (r: MentorTurnChunk)
    ensures
        r.chunk@ == Seq::<char>::empty(),
        r.done,
        r.correlation_id@ == correlation_id@,
        r.conversation_id is None,
        r.error matches Some(m) && m@ == daemon_error_text(*e),
{
    MentorTurnChunk {
        chunk: String::new(),
        done: true,
        correlation_id: owned(correlation_id),
        conversation_id: None,
        error: Some(e.to_string()),
    }
}

} // verus!
