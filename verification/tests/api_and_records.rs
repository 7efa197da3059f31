use cognition_daemon::ai::task::{RoutingPreference, StreamChunk};
use cognition_daemon::crypto::encrypt;
use cognition_daemon::engines::trust::{health_report, TableCounts};
use cognition_daemon::error::{DaemonError, ProviderError};
use cognition_daemon::ipc::routes::{
    health, internal_err, lookup_reply, mentor_chunk, mentor_failure_chunk, mentor_turn_input,
    merge_project_update, merge_task_update, not_found,
};
use cognition_daemon::ipc::types::{
    default_limit, default_priority, default_signal_limit, MentorTurnRequest,
    UpdateProjectRequest, UpdateTaskRequest,
};
use cognition_daemon::memory::l0::{event_type_name, EventKind};
use cognition_daemon::memory::l1::{Project, Task};
use cognition_daemon::memory::l2::{build_filter_clause, knn_candidates, EntityFilter};
use cognition_daemon::observability::audit::{AuditMetadata, AuditRecord};
use cognition_daemon::sync::{
    import_plaintext, imported_artifact_format, imported_project_status, imported_task_priority,
    imported_task_status,
};

#[test]
fn defaults_of_requests() {
    assert_eq!(default_priority(), 1);
    assert_eq!(default_limit(), 50);
    assert_eq!(default_signal_limit(), 50);
}

#[test]
fn health_is_ok_and_ready() {
    let h = health("0.1.0");
    assert_eq!(h.status, "ok");
    assert!(h.daemon_ready);
    assert_eq!(h.version, "0.1.0");
}

#[test]
fn error_replies() {
    let (code, body) = not_found("project not found");
    assert_eq!(code, 404);
    assert_eq!(body.error, "project not found");
    assert!(body.correlation_id.is_none());
    let (code, body) = internal_err(&DaemonError::Database("locked".to_string()));
    assert_eq!(code, 500);
    assert_eq!(body.error, "Database error: locked");
    let ok: Result<Option<u8>, DaemonError> = Ok(Some(3));
    assert_eq!(lookup_reply(ok, "project").unwrap(), 3);
    let missing: Result<Option<u8>, DaemonError> = Ok(None);
    let (code, body) = lookup_reply(missing, "task").unwrap_err();
    assert_eq!((code, body.error.as_str()), (404, "task not found"));
    let failed: Result<Option<u8>, DaemonError> = Err(DaemonError::Internal("x".to_string()));
    let (code, body) = lookup_reply(failed, "task").unwrap_err();
    assert_eq!((code, body.error.as_str()), (500, "Internal error: x"));
}

#[test]
fn error_messages() {
    let e = ProviderError::ContextOverflow { available: 10, required: 20 };
    assert_eq!(e.to_string(), "Context overflow: available_tokens=10, required=20");
    assert_eq!(ProviderError::Unavailable { provider: "local".to_string() }.to_string(), "Provider 'local' is unavailable");
    assert_eq!(ProviderError::RateLimited { provider: "a".to_string() }.to_string(), "Rate limited by provider 'a'");
    assert_eq!(
        DaemonError::Provider(ProviderError::Http { message: "m".to_string() }).to_string(),
        "AI provider error: HTTP request failed: m"
    );
    assert_eq!(DaemonError::Config("c".to_string()).to_string(), "Configuration error: c");
}

#[test]
fn updates_keep_what_is_not_given() {
    let existing = Project {
        id: "p".to_string(),
        name: "Old".to_string(),
        description: Some("d".to_string()),
        status: "active".to_string(),
        created_at: 1,
        updated_at: 2,
    };
    let req = UpdateProjectRequest { name: None, description: None, status: Some("paused".to_string()) };
    let c = merge_project_update(existing, req);
    assert_eq!((c.name.as_str(), c.description.as_deref(), c.status.as_str()), ("Old", Some("d"), "paused"));

    let task = Task {
        id: "t".to_string(),
        project_id: "p".to_string(),
        title: "T".to_string(),
        description: None,
        status: "todo".to_string(),
        priority: 2,
        due_at: Some(5),
        created_at: 0,
        updated_at: 0,
    };
    let req = UpdateTaskRequest {
        title: Some("New".to_string()),
        description: Some("why".to_string()),
        status: None,
        priority: None,
        due_at: None,
    };
    let c = merge_task_update(task, req);
    assert_eq!(c.title, "New");
    assert_eq!(c.description.as_deref(), Some("why"));
    assert_eq!(c.status, "todo");
    assert_eq!(c.priority, 2);
    assert_eq!(c.due_at, Some(5));
}

#[test]
fn mentor_turn_events() {
    let req = MentorTurnRequest {
        message: "Hello, what can you help me with?".to_string(),
        conversation_id: None,
        project_id: None,
        routing: RoutingPreference::Local,
    };
    let input = mentor_turn_input(req, "corr".to_string());
    assert_eq!(input.user_id, "local");
    assert_eq!(input.correlation_id, "corr");
    assert_eq!(input.message, "Hello, what can you help me with?");

    let chunk = StreamChunk { content: "Hi".to_string(), done: true, model: None, provider: None, usage: None };
    let ev = mentor_chunk(Ok(chunk), "corr", "conv");
    assert_eq!(ev.chunk, "Hi");
    assert!(ev.done);
    assert!(ev.error.is_none());
    assert_eq!(ev.conversation_id.as_deref(), Some("conv"));
    assert_eq!(ev.correlation_id, "corr");
    let ev = mentor_chunk(Err(ProviderError::StreamInterrupted("cut".to_string())), "corr", "conv");
    assert!(ev.done);
    assert_eq!(ev.chunk, "");
    assert_eq!(ev.error.as_deref(), Some("Stream interrupted: cut"));
    let fail = mentor_failure_chunk(&DaemonError::Provider(ProviderError::Unavailable { provider: "local".to_string() }), "corr");
    assert!(fail.done && fail.conversation_id.is_none());
    assert_eq!(fail.error.as_deref(), Some("AI provider error: Provider 'local' is unavailable"));
}

#[test]
fn event_type_names() {
    let e = EventKind::MentorTurnReceived { conversation_id: "c".to_string(), message_preview: "p".to_string() };
    assert_eq!(event_type_name(&e), "mentor_turn_received");
    let e = EventKind::CapabilityComputed { skill: "s".to_string(), score: 1, project_id: None };
    assert_eq!(event_type_name(&e), "capability_computed");
    let e = EventKind::ArtifactGenerated { artifact_id: "a".to_string(), artifact_type: "t".to_string(), project_id: None };
    assert_eq!(event_type_name(&e), "artifact_generated");
}

#[test]
fn filter_clauses() {
    assert_eq!(build_filter_clause(&None), (String::new(), vec![]));
    let none = Some(EntityFilter { entity_type: None, entity_id: None });
    assert_eq!(build_filter_clause(&none), (String::new(), vec![]));
    let t = Some(EntityFilter { entity_type: Some("task".to_string()), entity_id: None });
    assert_eq!(build_filter_clause(&t), (" WHERE entity_type = ?1".to_string(), vec!["task".to_string()]));
    let i = Some(EntityFilter { entity_type: None, entity_id: Some("x".to_string()) });
    assert_eq!(build_filter_clause(&i), (" WHERE entity_id = ?1".to_string(), vec!["x".to_string()]));
    let both = Some(EntityFilter { entity_type: Some("task".to_string()), entity_id: Some("x".to_string()) });
    assert_eq!(
        build_filter_clause(&both),
        (" WHERE entity_type = ?1 AND entity_id = ?2".to_string(), vec!["task".to_string(), "x".to_string()])
    );
    assert_eq!(knn_candidates(3, false), 3);
    assert_eq!(knn_candidates(3, true), 100);
    assert_eq!(knn_candidates(10, true), 200);
}

#[test]
fn audit_records() {
    let r = AuditRecord::mentor_turn_received("conv", "corr", "local");
    assert_eq!(r.event_type, "mentor_turn_received");
    assert_eq!(r.entity_type.as_deref(), Some("conversation"));
    assert_eq!(r.entity_id.as_deref(), Some("conv"));
    assert!(r.metadata.is_none());
    let r = AuditRecord::ai_call_completed("mock", "mock-model", 10, 11, "corr", "local");
    assert_eq!(r.event_type, "ai_call_completed");
    match r.metadata {
        Some(AuditMetadata::AiCallCompleted { provider, model, prompt_tokens, completion_tokens }) => {
            assert_eq!((provider.as_str(), model.as_str(), prompt_tokens, completion_tokens), ("mock", "mock-model", 10, 11));
        }
        m => panic!("{m:?}"),
    }
    let r = AuditRecord::ai_call_started("ollama", "llama3.2", "c", "u");
    assert!(matches!(r.metadata, Some(AuditMetadata::AiCall { .. })));
    let r = AuditRecord::mentor_turn_completed("conv", "msg", "c", "u");
    assert!(matches!(r.metadata, Some(AuditMetadata::MessageRef { message_id }) if message_id == "msg"));
}

#[test]
fn import_opens_exported_payload() {
    assert_eq!(import_plaintext(false, None, None, None, None).unwrap(), None);
    match import_plaintext(true, None, None, None, None) {
        Err(DaemonError::Internal(m)) => assert_eq!(m, "passphrase required for encrypted import"),
        r => panic!("{r:?}"),
    }
    let blob = encrypt("pw", b"{\"projects\":[1]}").unwrap();
    let plain = import_plaintext(true, Some("pw"), Some(blob.salt.clone()), Some(blob.nonce.clone()), Some(blob.ciphertext.clone()));
    assert_eq!(plain.unwrap(), Some(b"{\"projects\":[1]}".to_vec()));
    match import_plaintext(true, Some("pw"), None, Some(blob.nonce), Some(blob.ciphertext)) {
        Err(DaemonError::Internal(m)) => assert!(m.starts_with("key derivation: ")),
        r => panic!("{r:?}"),
    }
}

#[test]
fn health_report_from_counts() {
    let c = TableCounts { projects: 1, tasks: 2, conversations: 3, messages: 4, signals: 5, capability_scores: 6, artifacts: 7 };
    let r = health_report(42, Some(c));
    assert!(r.daemon_healthy && r.db_ok);
    assert_eq!((r.uptime_s, r.projects, r.artifacts), (42, 1, 7));
    let r = health_report(5, None);
    assert!(r.daemon_healthy && !r.db_ok);
    assert_eq!((r.projects, r.tasks, r.messages, r.artifacts), (0, 0, 0, 0));
}

#[test]
fn import_rows_fill_in_defaults() {
    assert_eq!(imported_project_status(None), "active");
    assert_eq!(imported_project_status(Some("paused")), "paused");
    assert_eq!(imported_task_status(None), "todo");
    assert_eq!(imported_task_status(Some("done")), "done");
    assert_eq!(imported_task_priority(None), 1);
    assert_eq!(imported_task_priority(Some(5)), 5);
    assert_eq!(imported_artifact_format(None), "markdown");
    assert_eq!(imported_artifact_format(Some("html")), "html");
}
