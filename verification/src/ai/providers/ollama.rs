//! Ollama provider: roles on the wire, how its NDJSON stream becomes chunks, its errors.
//! The HTTP exchange itself is done by the caller.
use vstd::prelude::*;

use crate::ai::task::{MessageRole, StreamChunk, TokenUsage};
use crate::error::ProviderError;
use crate::text::{concat, lines_of, owned, split_lines, trim, trimmed, views};

verus! {

/// The Ollama role of a chat role.
pub open spec fn ollama_role_text(role: MessageRole) -> Seq<char> {
    match role {
        MessageRole::System => "system"@,
        MessageRole::User => "user"@,
        MessageRole::Assistant => "assistant"@,
    }
}

pub fn role_str(role: &MessageRole) -> (r: &'static str)
    ensures
        r@ == ollama_role_text(*role),
{
    match role {
        MessageRole::System => "system",
        MessageRole::User => "user",
        MessageRole::Assistant => "assistant",
    }
}

/// The lines that carry a JSON object (those not blank once trimmed), in order.
pub open spec fn ndjson_lines(lines: Seq<Seq<char>>) -> Seq<Seq<char>>
    decreases lines.len(),
{
    if lines.len() == 0 {
        Seq::empty()
    } else {
        let r = ndjson_lines(lines.drop_last());
        if trimmed(lines.last()).len() == 0 {
            r
        } else {
            r.push(lines.last())
        }
    }
}

/// The non-blank lines of one piece of the NDJSON response body.
pub fn ndjson_object_lines(text: &str) -> (r: Vec<String>)
    ensures
        views(r@) == ndjson_lines(split_lines(text@)),
{
    let mut lines = lines_of(text);
    let ghost ls = views(lines@);
    let mut out: Vec<String> = Vec::new();
    let mut i: usize = 0;
    while i < lines.len()
        invariant
            i <= lines@.len(),
            ls == views(lines@),
            views(out@) == ndjson_lines(ls.take(i as int)),
        decreases lines.len() - i,
    {
        assert(ls.take(i + 1).drop_last() =~= ls.take(i as int));
        let t = trim(lines[i].as_str());
        if t.as_str().unicode_len() > 0 {
            let line = lines[i].clone();
            let ghost before = out@;
            out.push(line);
            assert(views(out@) =~= views(before).push(line@));
        }
        i = i + 1;
    }
    assert(ls.take(ls.len() as int) =~= ls);
    out
}

/// One parsed object of Ollama's chat stream.
pub struct OllamaChatChunk {
    pub content: String,
    pub done: bool,
    pub prompt_eval_count: Option<u32>,
    pub eval_count: Option<u32>,
    pub model: String,
}

impl OllamaChatChunk {
    /// The stream chunk of an Ollama object; the final one carries the usage (0 for a
    /// missing count).
    pub fn to_stream_chunk(self) -> (r: StreamChunk)
        ensures
            r.content@ == self.content@,
            r.done == self.done,
            r.model matches Some(m) && m@ == self.model@,
            r.provider matches Some(p) && p@ == "ollama"@,
            self.done ==> r.usage == Some(
                TokenUsage {
                    prompt_tokens: match self.prompt_eval_count {
                        Some(n) => n,
                        None => 0,
                    },
                    completion_tokens: match self.eval_count {
                        Some(n) => n,
                        None => 0,
                    },
                },
            ),
            !self.done ==> r.usage is None,
    {
        let usage = if self.done {
            Some(
                TokenUsage {
                    prompt_tokens: match self.prompt_eval_count {
                        Some(n) => n,
                        None => 0,
                    },
                    completion_tokens: match self.eval_count {
                        Some(n) => n,
                        None => 0,
                    },
                },
            )
        } else {
            None
        };
        StreamChunk {
            content: self.content,
            done: self.done,
            model: Some(self.model),
            provider: Some(owned("ollama")),
            usage,
        }
    }
}

/// The error for a non-success HTTP status from Ollama.
pub fn ollama_http_error(status_text: &str, body: &str) -> (r: ProviderError)
    ensures
        r matches ProviderError::Http { message } && message@ == "Ollama "@ + status_text@ + ": "@
            + body@,
{
    let mut m = concat("Ollama ", status_text);
    m.append(": ");
    m.append(body);
    ProviderError::Http { message: m }
}

} // verus!
