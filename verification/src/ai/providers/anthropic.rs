//! Anthropic provider: the request it sends and how its SSE stream becomes chunks.
//! The HTTP exchange itself is done by the caller.
use vstd::prelude::*;

use crate::ai::task::{ChatMessage, MessageRole, StreamChunk, TokenUsage};
use crate::error::ProviderError;
use crate::text::{concat, has_prefix, lines_of, owned, split_lines, starts_with, str_eq, trim, trimmed, views, chars_of, string_from_chars};

verus! {

/// The Anthropic role of a chat role: system and user messages are sent as "user".
pub open spec fn anthropic_role_text(role: MessageRole) -> Seq<char> {
    match role {
        MessageRole::User | MessageRole::System => "user"@,
        MessageRole::Assistant => "assistant"@,
    }
}

pub fn to_anthropic_role(role: &MessageRole) -> (r: &'static str)
    ensures
        r@ == anthropic_role_text(*role),
{
    match role {
        MessageRole::User | MessageRole::System => "user",
        MessageRole::Assistant => "assistant",
    }
}

/// One message of a Anthropic request.
pub struct AnthropicMessage {
    pub role: &'static str,
    pub content: String,
}

/// The system prompt and the messages of a Anthropic request.
pub struct AnthropicRequestParts {
    pub system: Option<String>,
    pub messages: Vec<AnthropicMessage>,
}

/// The content of the first system message, if any.
pub open spec fn first_system(s: Seq<ChatMessage>) -> Option<Seq<char>>
    decreases s.len(),
{
    if s.len() == 0 {
        None
    } else {
        let r = first_system(s.drop_last());
        if r is Some {
            r
        } else if s.last().role == MessageRole::System {
            Some(s.last().content@)
        } else {
            None
        }
    }
}

pub open spec fn is_system(m: ChatMessage) -> bool {
    m.role == MessageRole::System
}

/// No message before position `i` has the system role.
pub open spec fn no_system_before(s: Seq<ChatMessage>, i: int) -> bool {
    forall|j: int| 0 <= j < i ==> !is_system(#[trigger] s[j])
}

/// The system prompt of a request is there exactly when some message has the system role,
/// and it is then the content of the first such message, wherever it stands.
#[verifier::rlimit(50)]
pub proof fn lemma_first_system_is_first(s: Seq<ChatMessage>)
    ensures
        (first_system(s) is Some) <==> !no_system_before(s, s.len() as int),
        forall|i: int|
            0 <= i < s.len() && is_system(#[trigger] s[i]) && no_system_before(s, i)
                ==> first_system(s) == Some(s[i].content@),
    decreases s.len(),
{
    if s.len() > 0 {
        let t = s.drop_last();
        let n = s.len() - 1;
        lemma_first_system_is_first(t);
        assert forall|i: int| 0 <= i <= n implies #[trigger] no_system_before(s, i) == no_system_before(t, i) by {
            assert forall|j: int| 0 <= j < i implies s[j] == t[j] by {}
        }
        assert(no_system_before(s, s.len() as int) == (no_system_before(t, n) && !is_system(s[n])))
            by {
            if no_system_before(s, s.len() as int) {
                assert(!is_system(s[n]));
                assert(no_system_before(s, n));
            }
            if no_system_before(t, n) && !is_system(s[n]) {
                assert forall|j: int| 0 <= j < s.len() implies !is_system(#[trigger] s[j]) by {
                    if j < n {
                        assert(s[j] == t[j]);
                    }
                }
            }
        }
        assert forall|i: int|
            0 <= i < s.len() && is_system(#[trigger] s[i]) && no_system_before(s, i)
                implies first_system(s) == Some(s[i].content@) by {
            assert(no_system_before(s, i) == no_system_before(t, i));
            if i < n {
                assert(s[i] == t[i]);
            } else {
                assert(!(first_system(t) is Some));
            }
        }
    }
}

/// The non-system messages, with their Anthropic roles.
pub open spec fn anthropic_messages(s: Seq<ChatMessage>) -> Seq<(Seq<char>, Seq<char>)>
    decreases s.len(),
{
    if s.len() == 0 {
        Seq::empty()
    } else {
        let r = anthropic_messages(s.drop_last());
        if s.last().role == MessageRole::System {
            r
        } else {
            r.push((anthropic_role_text(s.last().role), s.last().content@))
        }
    }
}

pub open spec fn not_system() -> spec_fn(ChatMessage) -> bool {
    |m: ChatMessage| !is_system(m)
}

pub open spec fn as_anthropic(m: ChatMessage) -> (Seq<char>, Seq<char>) {
    (anthropic_role_text(m.role), m.content@)
}

/// The messages of a request are the non-system messages, every one of them, in their order,
/// each with its Anthropic role and its content.
pub proof fn lemma_anthropic_messages_keep_the_rest(s: Seq<ChatMessage>)
    ensures
        anthropic_messages(s) == s.filter(not_system()).map_values(|m: ChatMessage| as_anthropic(m)),
    decreases s.len(),
{
    if s.len() > 0 {
        let t = s.drop_last();
        lemma_anthropic_messages_keep_the_rest(t);
        reveal(Seq::filter);
        let ft = t.filter(not_system());
        assert(s.filter(not_system()) == (if not_system()(s.last()) {
            ft.push(s.last())
        } else {
            ft
        }));
        if !is_system(s.last()) {
            assert(ft.push(s.last()).map_values(|m: ChatMessage| as_anthropic(m)) =~= ft.map_values(
                |m: ChatMessage| as_anthropic(m),
            ).push(as_anthropic(s.last())));
        }
    }
}

pub open spec fn anthropic_message_view(m: AnthropicMessage) -> (Seq<char>, Seq<char>) {
    (m.role@, m.content@)
}

/// Splits chat messages into Anthropic's system prompt (the first system message) and the
/// other messages in order.
pub fn anthropic_request_parts(messages: &Vec<ChatMessage>) -> (r: AnthropicRequestParts)
    ensures
        match r.system {
            Some(s) => first_system(messages@) == Some(s@),
            None => first_system(messages@) is None,
        },
        r.messages@.map_values(|m: AnthropicMessage| anthropic_message_view(m)) == anthropic_messages(
            messages@,
        ),
{
    let ghost s = messages@;
    let mut system: Option<String> = None;
    let mut out: Vec<AnthropicMessage> = Vec::new();
    let mut i: usize = 0;
    while i < messages.len()
        invariant
            i <= s.len(),
            s == messages@,
            match system {
                Some(x) => first_system(s.take(i as int)) == Some(x@),
                None => first_system(s.take(i as int)) is None,
            },
            out@.map_values(|m: AnthropicMessage| anthropic_message_view(m)) == anthropic_messages(
                s.take(i as int),
            ),
        decreases s.len() - i,
    {
        assert(s.take(i + 1).drop_last() =~= s.take(i as int));
        let m = &messages[i];
        if m.role == MessageRole::System {
            if system.is_none() {
                system = Some(m.content.clone());
            }
        } else {
            let ghost before = out@;
            out.push(AnthropicMessage { role: to_anthropic_role(&m.role), content: m.content.clone() });
            assert(out@.map_values(|m: AnthropicMessage| anthropic_message_view(m)) =~= before.map_values(
                |m: AnthropicMessage| anthropic_message_view(m),
            ).push(anthropic_message_view(out@.last())));
        }
        i = i + 1;
    }
    assert(s.take(s.len() as int) =~= s);
    AnthropicRequestParts { system, messages: out }
}

/// The token limit sent to Anthropic: the requested one, 4096 by default.
pub fn anthropic_max_tokens(max_tokens: Option<u32>) -> (r: u32)
    ensures
        r == match max_tokens {
            Some(m) => m,
            None => 4096,
        },
{
    match max_tokens {
        Some(m) => m,
        None => 4096,
    }
}

/// The error for a non-success HTTP status from Anthropic: 429 is a rate limit, 401 asks for
/// authentication, and any other status is an HTTP error with the status and body text.
pub fn anthropic_http_error(status: u16, status_text: &str, body: &str) -> (r: ProviderError)
    ensures
        status == 429 ==> (r matches ProviderError::RateLimited { provider } && provider@ == "anthropic"@),
        status == 401 ==> (r matches ProviderError::AuthRequired { provider } && provider@ == "anthropic"@),
        status != 429 && status != 401 ==> (r matches ProviderError::Http { message } && message@
            == "Anthropic "@ + status_text@ + ": "@ + body@),
{
    if status == 429 {
        ProviderError::RateLimited { provider: owned("anthropic") }
    } else if status == 401 {
        ProviderError::AuthRequired { provider: owned("anthropic") }
    } else {
        let mut m = concat("Anthropic ", status_text);
        m.append(": ");
        m.append(body);
        ProviderError::Http { message: m }
    }
}

/// The JSON payload of an SSE line: the trimmed line must start with "data: ", and the
/// "[DONE]" marker carries no event.
pub open spec fn sse_payload(line: Seq<char>) -> Option<Seq<char>> {
    let t = trimmed(line);
    if has_prefix(t, "data: "@) && t.skip(6) != "[DONE]"@ {
        Some(t.skip(6))
    } else {
        None
    }
}

/// The payloads of the lines, in order.
pub open spec fn sse_payloads(lines: Seq<Seq<char>>) -> Seq<Seq<char>>
    decreases lines.len(),
{
    if lines.len() == 0 {
        Seq::empty()
    } else {
        let r = sse_payloads(lines.drop_last());
        match sse_payload(lines.last()) {
            Some(p) => r.push(p),
            None => r,
        }
    }
}

/// The JSON payloads of the SSE `data:` lines in one piece of the response body.
pub fn sse_data_payloads(text: &str) -> (r: Vec<String>)
    ensures
        views(r@) == sse_payloads(split_lines(text@)),
{
    let lines = lines_of(text);
    let ghost ls = views(lines@);
    let mut out: Vec<String> = Vec::new();
    let mut i: usize = 0;
    while i < lines.len()
        invariant
            i <= lines@.len(),
            ls == views(lines@),
            views(out@) == sse_payloads(ls.take(i as int)),
        decreases lines.len() - i,
    {
        assert(ls.take(i + 1).drop_last() =~= ls.take(i as int));
        let t = trim(lines[i].as_str());
        if starts_with(t.as_str(), "data: ") {
            proof {
                reveal_strlit("data: ");
            }
            let v = chars_of(t.as_str());
            let rest = string_from_chars(&v, 6, v.len());
            assert(rest@ =~= t@.skip(6));
            if !str_eq(rest.as_str(), "[DONE]") {
                let ghost before = out@;
                out.push(rest);
                assert(views(out@) =~= views(before).push(rest@));
            }
        }
        i = i + 1;
    }
    assert(ls.take(ls.len() as int) =~= ls);
    out
}

/// Usage reported by a `message_delta` event.
pub struct AnthropicUsage {
    pub input_tokens: Option<u32>,
    pub output_tokens: Option<u32>,
}

/// The delta of a `content_block_delta` event.
pub enum ContentDelta {
    TextDelta { text: String },
    Other,
}

/// The Anthropic SSE events the stream reads; others are `Other`.
pub enum AnthropicEvent {
    MessageStart { model: String },
    ContentBlockDelta { delta: ContentDelta },
    MessageDelta { usage: Option<AnthropicUsage> },
    MessageStop,
    Other,
}

/// State of a Anthropic stream: the model named by `message_start` (the requested model until then).
pub struct AnthropicStream {
    pub resolved_model: String,
}

pub open spec fn anthropic_chunk(c: StreamChunk, content: Seq<char>, done: bool, model: Seq<char>) -> bool {
    &&& c.content@ == content
    &&& c.done == done
    &&& c.model matches Some(m) && m@ == model
    &&& c.provider matches Some(p) && p@ == "anthropic"@
}

/// The token usage of a `message_delta` event; a missing count is 0.
pub open spec fn reported_usage(usage: Option<AnthropicUsage>) -> Option<TokenUsage> {
    match usage {
        Some(u) => Some(
            TokenUsage {
                prompt_tokens: match u.input_tokens {
                    Some(n) => n,
                    None => 0,
                },
                completion_tokens: match u.output_tokens {
                    Some(n) => n,
                    None => 0,
                },
            },
        ),
        None => None,
    }
}

impl AnthropicStream {
    pub fn new(requested_model: String) -> (r: Self)
        ensures
            r.resolved_model == requested_model,
    {
        AnthropicStream { resolved_model: requested_model }
    }

    /// The chunk an event gives, if any. `message_start` sets the model; a text delta gives
    /// its text; `message_delta` gives the final chunk with the reported usage (0 for a
    /// missing count).
    pub fn on_event(&mut self, event: AnthropicEvent) -> (r: Option<StreamChunk>)
        ensures
            match event {
                AnthropicEvent::MessageStart { model } => {
                    &&& final(self).resolved_model@ == model@
                    &&& r is None
                },
                AnthropicEvent::ContentBlockDelta { delta: ContentDelta::TextDelta { text } } => {
                    &&& final(self).resolved_model == old(self).resolved_model
                    &&& r matches Some(c) && anthropic_chunk(c, text@, false, old(self).resolved_model@)
                        && c.usage is None
                },
                AnthropicEvent::MessageDelta { usage } => {
                    &&& final(self).resolved_model == old(self).resolved_model
                    &&& r matches Some(c) && anthropic_chunk(c, Seq::empty(), true, old(self).resolved_model@)
                        && c.usage == reported_usage(usage)
                },
                _ => final(self).resolved_model == old(self).resolved_model && r is None,
            },
    {
        match event {
            AnthropicEvent::MessageStart { model } => {
                self.resolved_model = model;
                None
            },
            AnthropicEvent::ContentBlockDelta { delta } => match delta {
                ContentDelta::TextDelta { text } => Some(
                    StreamChunk {
                        content: text,
                        done: false,
                        model: Some(self.resolved_model.clone()),
                        provider: Some(owned("anthropic")),
                        usage: None,
                    },
                ),
                ContentDelta::Other => None,
            },
            AnthropicEvent::MessageDelta { usage } => {
                let token_usage = match usage {
                    Some(u) => Some(
                        TokenUsage {
                            prompt_tokens: match u.input_tokens {
                                Some(n) => n,
                                None => 0,
                            },
                            completion_tokens: match u.output_tokens {
                                Some(n) => n,
                                None => 0,
                            },
                        },
                    ),
                    None => None,
                };
                Some(
                    StreamChunk {
                        content: String::new(),
                        done: true,
                        model: Some(self.resolved_model.clone()),
                        provider: Some(owned("anthropic")),
                        usage: token_usage,
                    },
                )
            },
            AnthropicEvent::MessageStop | AnthropicEvent::Other => None,
        }
    }
}

} // verus!
