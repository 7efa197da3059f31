//! The contract between engines and the AI orchestrator: what a task needs, never which model.
use vstd::prelude::*;

verus! {

#[derive(Debug, Clone, Copy, PartialEq, Eq, Structural)]
pub enum TaskKind {
    MentorTurn,
    CapabilityScore,
    ArtifactDraft,
    Summarize,
    Embed,
}

#[derive(Debug, Clone, Copy, PartialEq, Eq, Structural)]
pub enum MessageRole {
    System,
    User,
    Assistant,
}

#[derive(Debug, Clone)]
pub struct ChatMessage {
    pub role: MessageRole,
    pub content: String,
}

#[derive(Debug, Clone, Copy, PartialEq, Eq, Structural)]
pub enum RoutingPreference {
    Local,
    Cloud,
    Auto,
}

#[derive(Debug, Clone, Copy, PartialEq, Eq, Structural)]
pub enum QualityFloor {
    Low,
    Medium,
    High,
}

#[derive(Debug, Clone, Copy)]
pub struct RoutingPolicy {
    pub preferred: RoutingPreference,
    pub quality_floor: QualityFloor,
    pub latency_budget_ms: Option<u64>,
}

#[derive(Debug, Clone)]
pub struct AuditContext {
    pub user_id: String,
    pub correlation_id: String,
}

/// Token counts reported by a provider on the final chunk.
#[derive(Debug, Clone, Copy)]
pub struct TokenUsage {
    pub prompt_tokens: u32,
    pub completion_tokens: u32,
}

/// One streamed chunk from a provider. `usage` is only present on the final chunk.
#[derive(Debug, Clone)]
pub struct StreamChunk {
    pub content: String,
    pub done: bool,
    pub model: Option<String>,
    pub provider: Option<String>,
    pub usage: Option<TokenUsage>,
}

impl Default for RoutingPreference {
    fn default() -> (r: Self)
        ensures
            r == RoutingPreference::Local,
    {
        RoutingPreference::Local
    }
}

impl Default for QualityFloor {
    fn default() -> (r: Self)
        ensures
            r == QualityFloor::Medium,
    {
        QualityFloor::Medium
    }
}

impl Default for RoutingPolicy {
    /// Local first, medium quality, no latency budget.
    fn default() -> (r: Self)
        ensures
            r.preferred == RoutingPreference::Local,
            r.quality_floor == QualityFloor::Medium,
            r.latency_budget_ms is None,
    {
        RoutingPolicy {
            preferred: RoutingPreference::Local,
            quality_floor: QualityFloor::Medium,
            latency_budget_ms: None,
        }
    }
}

} // verus!
