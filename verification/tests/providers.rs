use cognition_daemon::ai::orchestrator::{
    completion_usage, default_model_for, probes_cloud, probes_local, resolve_route, Route,
    DEFAULT_MAX_TOKENS,
};
use cognition_daemon::ai::providers::anthropic::{
    anthropic_http_error, anthropic_max_tokens, anthropic_request_parts, sse_data_payloads,
    to_anthropic_role, AnthropicEvent, AnthropicStream, AnthropicUsage, ContentDelta,
};
use cognition_daemon::ai::providers::mock::MockProvider;
use cognition_daemon::ai::providers::ollama::{
    ndjson_object_lines, ollama_http_error, role_str, OllamaChatChunk,
};
use cognition_daemon::ai::providers::registry::{provider_plan, ProviderKind};
use cognition_daemon::ai::task::{
    ChatMessage, MessageRole, QualityFloor, RoutingPolicy, RoutingPreference, StreamChunk,
    TokenUsage,
};
use cognition_daemon::error::ProviderError;

fn msg(role: MessageRole, c: &str) -> ChatMessage {
    ChatMessage { role, content: c.to_string() }
}

#[test]
fn mock_streams_canned_answer() {
    let p = MockProvider::default();
    assert_eq!(p.name(), "mock");
    assert!(p.is_available());
    let chunks = p.chat_stream(&vec![msg(MessageRole::User, "hi")]).unwrap();
    assert_eq!(chunks.len(), 11);
    let text: String = chunks.iter().map(|c| c.content.as_str()).collect();
    assert_eq!(text, "Hello! I'm your AI mentor. How can I help you today?");
    assert!(chunks[..10].iter().all(|c| !c.done && c.usage.is_none()));
    let last = chunks.last().unwrap();
    assert!(last.done);
    assert_eq!(last.model.as_deref(), Some("mock-model"));
    assert_eq!(last.provider.as_deref(), Some("mock"));
    let u = last.usage.unwrap();
    assert_eq!((u.prompt_tokens, u.completion_tokens), (10, 11));
}

#[test]
fn roles_on_the_wire() {
    assert_eq!(to_anthropic_role(&MessageRole::System), "user");
    assert_eq!(to_anthropic_role(&MessageRole::User), "user");
    assert_eq!(to_anthropic_role(&MessageRole::Assistant), "assistant");
    assert_eq!(role_str(&MessageRole::System), "system");
    assert_eq!(role_str(&MessageRole::User), "user");
    assert_eq!(role_str(&MessageRole::Assistant), "assistant");
}

#[test]
fn anthropic_request_takes_first_system_message() {
    let parts = anthropic_request_parts(&vec![
        msg(MessageRole::User, "q1"),
        msg(MessageRole::System, "ctx1"),
        msg(MessageRole::Assistant, "a1"),
        msg(MessageRole::System, "ctx2"),
        msg(MessageRole::User, "q2"),
    ]);
    assert_eq!(parts.system.as_deref(), Some("ctx1"));
    let m: Vec<(&str, &str)> = parts.messages.iter().map(|m| (m.role, m.content.as_str())).collect();
    assert_eq!(m, vec![("user", "q1"), ("assistant", "a1"), ("user", "q2")]);
    assert!(anthropic_request_parts(&vec![msg(MessageRole::User, "x")]).system.is_none());
    assert_eq!(anthropic_max_tokens(None), 4096);
    assert_eq!(anthropic_max_tokens(Some(10)), 10);
}

#[test]
fn anthropic_http_errors() {
    assert!(matches!(anthropic_http_error(429, "429 Too Many Requests", ""),
        ProviderError::RateLimited { provider } if provider == "anthropic"));
    assert!(matches!(anthropic_http_error(401, "401 Unauthorized", ""),
        ProviderError::AuthRequired { provider } if provider == "anthropic"));
    match anthropic_http_error(500, "500 Internal Server Error", "boom") {
        ProviderError::Http { message } => assert_eq!(message, "Anthropic 500 Internal Server Error: boom"),
        e => panic!("{e:?}"),
    }
}

#[test]
fn sse_payloads_are_data_lines() {
    let body = "event: x\r\ndata: {\"a\":1}\r\n\n  data: {\"b\":2}  \ndata: [DONE]\ndata:nospace\n";
    assert_eq!(sse_data_payloads(body), vec!["{\"a\":1}".to_string(), "{\"b\":2}".to_string()]);
}

#[test]
fn anthropic_events_become_chunks() {
    let mut s = AnthropicStream::new("requested".to_string());
    assert!(s.on_event(AnthropicEvent::MessageStart { model: "served".to_string() }).is_none());
    let c = s
        .on_event(AnthropicEvent::ContentBlockDelta { delta: ContentDelta::TextDelta { text: "Hi".to_string() } })
        .unwrap();
    assert_eq!((c.content.as_str(), c.done), ("Hi", false));
    assert_eq!(c.model.as_deref(), Some("served"));
    assert_eq!(c.provider.as_deref(), Some("anthropic"));
    assert!(s.on_event(AnthropicEvent::ContentBlockDelta { delta: ContentDelta::Other }).is_none());
    let end = s
        .on_event(AnthropicEvent::MessageDelta {
            usage: Some(AnthropicUsage { input_tokens: Some(5), output_tokens: None }),
        })
        .unwrap();
    assert!(end.done);
    assert_eq!(end.content, "");
    let u = end.usage.unwrap();
    assert_eq!((u.prompt_tokens, u.completion_tokens), (5, 0));
    assert!(s.on_event(AnthropicEvent::MessageStop).is_none());
    assert!(s.on_event(AnthropicEvent::Other).is_none());
}

#[test]
fn ollama_stream_pieces() {
    let lines = ndjson_object_lines("{\"a\":1}\n \n{\"b\":2}\n");
    assert_eq!(lines, vec!["{\"a\":1}".to_string(), "{\"b\":2}".to_string()]);
    let mid = OllamaChatChunk {
        content: "x".to_string(),
        done: false,
        prompt_eval_count: Some(3),
        eval_count: Some(4),
        model: "llama3.2".to_string(),
    }
    .to_stream_chunk();
    assert!(mid.usage.is_none());
    assert_eq!(mid.provider.as_deref(), Some("ollama"));
    let end = OllamaChatChunk {
        content: String::new(),
        done: true,
        prompt_eval_count: None,
        eval_count: Some(9),
        model: "llama3.2".to_string(),
    }
    .to_stream_chunk();
    let u = end.usage.unwrap();
    assert_eq!((u.prompt_tokens, u.completion_tokens), (0, 9));
    assert_eq!(end.model.as_deref(), Some("llama3.2"));
    match ollama_http_error("404 Not Found", "no model") {
        ProviderError::Http { message } => assert_eq!(message, "Ollama 404 Not Found: no model"),
        e => panic!("{e:?}"),
    }
}

#[test]
fn routing_decisions() {
    assert_eq!(resolve_route(RoutingPreference::Local, Some(0), Some(0)).unwrap(), Route::Local(0));
    assert_eq!(resolve_route(RoutingPreference::Auto, None, Some(1)).unwrap(), Route::Cloud(1));
    assert_eq!(resolve_route(RoutingPreference::Auto, Some(2), Some(1)).unwrap(), Route::Local(2));
    assert_eq!(resolve_route(RoutingPreference::Cloud, Some(0), Some(3)).unwrap(), Route::Cloud(3));
    for (pref, want) in [
        (RoutingPreference::Local, "local"),
        (RoutingPreference::Auto, "local"),
        (RoutingPreference::Cloud, "cloud"),
    ] {
        match resolve_route(pref, None, None) {
            Err(ProviderError::Unavailable { provider }) => assert_eq!(provider, want),
            r => panic!("{r:?}"),
        }
    }
    assert!(matches!(resolve_route(RoutingPreference::Local, None, Some(0)), Err(_)));
    assert!(probes_local(RoutingPreference::Auto) && !probes_local(RoutingPreference::Cloud));
    assert!(probes_cloud(RoutingPreference::Auto, false) && !probes_cloud(RoutingPreference::Auto, true));
    assert!(!probes_cloud(RoutingPreference::Local, false));
}

#[test]
fn models_and_usage() {
    assert_eq!(default_model_for("ollama", "cloud-m"), "llama3.2");
    assert_eq!(default_model_for("anthropic", "cloud-m"), "cloud-m");
    assert_eq!(default_model_for("mock", "cloud-m"), "mock-model");
    assert_eq!(default_model_for("other", "cloud-m"), "other");
    assert_eq!(DEFAULT_MAX_TOKENS, 4096);
    let mut c = StreamChunk { content: String::new(), done: false, model: None, provider: None, usage: None };
    assert_eq!(completion_usage(&c), None);
    c.done = true;
    assert_eq!(completion_usage(&c), Some((0, 0)));
    c.usage = Some(TokenUsage { prompt_tokens: 7, completion_tokens: 8 });
    assert_eq!(completion_usage(&c), Some((7, 8)));
}

#[test]
fn routing_policy_defaults_to_local() {
    let p = RoutingPolicy::default();
    assert_eq!(p.preferred, RoutingPreference::Local);
    assert_eq!(p.quality_floor, QualityFloor::Medium);
    assert!(p.latency_budget_ms.is_none());
}

#[test]
fn registry_plan() {
    assert_eq!(provider_plan(true, true), (vec![ProviderKind::Mock], vec![]));
    assert_eq!(provider_plan(false, false), (vec![ProviderKind::Ollama], vec![]));
    assert_eq!(provider_plan(false, true), (vec![ProviderKind::Ollama], vec![ProviderKind::Anthropic]));
}
