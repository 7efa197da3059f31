//! Audit records: what is written to the audit log for AI calls and mentor turns.
use vstd::prelude::*;

use crate::text::owned;

verus! {

/// The structured metadata of an audit record (stored as a JSON object with these keys).
#[derive(Debug, Clone)]
pub enum AuditMetadata {
    /// `{provider, model}`
    AiCall { provider: String, model: String },
    /// `{provider, model, prompt_tokens, completion_tokens}`
    AiCallCompleted { provider: String, model: String, prompt_tokens: u32, completion_tokens: u32 },
    /// `{message_id}`
    MessageRef { message_id: String },
}

#[derive(Debug, Clone)]
pub struct AuditRecord {
    pub event_type: String,
    pub entity_type: Option<String>,
    pub entity_id: Option<String>,
    pub user_id: String,
    pub metadata: Option<AuditMetadata>,
    pub correlation_id: String,
}

pub open spec fn is_text(o: Option<String>, t: Seq<char>) -> bool {
    o matches Some(s) && s@ == t
}

impl AuditRecord {
    /// An AI call was routed to a provider and model.
    pub fn ai_call_started(provider: &str, model: &str, correlation_id: &str, user_id: &str) -> (r: Self)
        ensures
            r.event_type@ == "ai_call_started"@,
            is_text(r.entity_type, "ai_call"@),
            r.entity_id is None,
            r.user_id@ == user_id@,
            r.metadata matches Some(AuditMetadata::AiCall { provider: p, model: m }) && p@ == provider@
                && m@ == model@,
            r.correlation_id@ == correlation_id@,
    {
        AuditRecord {
            event_type: owned("ai_call_started"),
            entity_type: Some(owned("ai_call")),
            entity_id: None,
            user_id: owned(user_id),
            metadata: Some(AuditMetadata::AiCall { provider: owned(provider), model: owned(model) }),
            correlation_id: owned(correlation_id),
        }
    }

    /// An AI call completed, with its token counts.
    pub fn ai_call_completed(
        provider: &str,
        model: &str,
        prompt_tokens: u32,
        completion_tokens: u32,
        correlation_id: &str,
        user_id: &str,
    ) -> (r: Self)
        ensures
            r.event_type@ == "ai_call_completed"@,
            is_text(r.entity_type, "ai_call"@),
            r.entity_id is None,
            r.user_id@ == user_id@,
            r.metadata matches Some(
                AuditMetadata::AiCallCompleted {
                    provider: p,
                    model: m,
                    prompt_tokens: pt,
                    completion_tokens: ct,
                },
            ) && p@ == provider@ && m@ == model@ && pt == prompt_tokens && ct == completion_tokens,
            r.correlation_id@ == correlation_id@,
    {
        AuditRecord {
            event_type: owned("ai_call_completed"),
            entity_type: Some(owned("ai_call")),
            entity_id: None,
            user_id: owned(user_id),
            metadata: Some(
                AuditMetadata::AiCallCompleted {
                    provider: owned(provider),
                    model: owned(model),
                    prompt_tokens,
                    completion_tokens,
                },
            ),
            correlation_id: owned(correlation_id),
        }
    }

    /// A mentor turn was received in a conversation.
    pub fn mentor_turn_received(conversation_id: &str, correlation_id: &str, user_id: &str) -> (r: Self)
        ensures
            r.event_type@ == "mentor_turn_received"@,
            is_text(r.entity_type, "conversation"@),
            is_text(r.entity_id, conversation_id@),
            r.user_id@ == user_id@,
            r.metadata is None,
            r.correlation_id@ == correlation_id@,
    {
        AuditRecord {
            event_type: owned("mentor_turn_received"),
            entity_type: Some(owned("conversation")),
            entity_id: Some(owned(conversation_id)),
            user_id: owned(user_id),
            metadata: None,
            correlation_id: owned(correlation_id),
        }
    }

    /// A mentor turn completed with the stored assistant message.
    pub fn mentor_turn_completed(
        conversation_id: &str,
        message_id: &str,
        correlation_id: &str,
        user_id: &str,
    ) -> (r: Self)
        ensures
            r.event_type@ == "mentor_turn_completed"@,
            is_text(r.entity_type, "conversation"@),
            is_text(r.entity_id, conversation_id@),
            r.user_id@ == user_id@,
            r.metadata matches Some(AuditMetadata::MessageRef { message_id: m }) && m@ == message_id@,
            r.correlation_id@ == correlation_id@,
    {
        AuditRecord {
            event_type: owned("mentor_turn_completed"),
            entity_type: Some(owned("conversation")),
            entity_id: Some(owned(conversation_id)),
            user_id: owned(user_id),
            metadata: Some(AuditMetadata::MessageRef { message_id: owned(message_id) }),
            correlation_id: owned(correlation_id),
        }
    }
}

} // verus!
