//! L0: the typed events of the append-only event log.
use vstd::prelude::*;

verus! {

/// The events the system records. Each is stored under the type name of `event_type_text`.
#[derive(Debug, Clone)]
pub enum EventKind {
    MentorTurnReceived { conversation_id: String, message_preview: String },
    MentorTurnCompleted {
        conversation_id: String,
        message_id: String,
        provider: String,
        model: String,
        tokens_used: Option<u32>,
    },
    ConversationCreated { conversation_id: String },
    MessageWritten { message_id: String, conversation_id: String, role: String },
    EmbeddingIndexed { entity_type: String, entity_id: String, chunk_index: u32, model: String },
    WorkflowSignalReceived { signal_type: String, source: String },
    CapabilityComputed { skill: String, score: i64, project_id: Option<String> },
    ArtifactGenerated { artifact_id: String, artifact_type: String, project_id: Option<String> },
}

/// The event type stored for an event: its kind in snake case.
pub open spec fn event_type_text(e: EventKind) -> Seq<char> {
    match e {
        EventKind::MentorTurnReceived { .. } => "mentor_turn_received"@,
        EventKind::MentorTurnCompleted { .. } => "mentor_turn_completed"@,
        EventKind::ConversationCreated { .. } => "conversation_created"@,
        EventKind::MessageWritten { .. } => "message_written"@,
        EventKind::EmbeddingIndexed { .. } => "embedding_indexed"@,
        EventKind::WorkflowSignalReceived { .. } => "workflow_signal_received"@,
        EventKind::CapabilityComputed { .. } => "capability_computed"@,
        EventKind::ArtifactGenerated { .. } => "artifact_generated"@,
    }
}

pub fn event_type_name(event: &EventKind) -> (r: &'static str)
    ensures
        r@ == event_type_text(*event),
{
    match event {
        EventKind::MentorTurnReceived { .. } => "mentor_turn_received",
        EventKind::MentorTurnCompleted { .. } => "mentor_turn_completed",
        EventKind::ConversationCreated { .. } => "conversation_created",
        EventKind::MessageWritten { .. } => "message_written",
        EventKind::EmbeddingIndexed { .. } => "embedding_indexed",
        EventKind::WorkflowSignalReceived { .. } => "workflow_signal_received",
        EventKind::CapabilityComputed { .. } => "capability_computed",
        EventKind::ArtifactGenerated { .. } => "artifact_generated",
    }
}

} // verus!
