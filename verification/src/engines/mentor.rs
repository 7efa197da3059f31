//! Mentor engine: the decisions of one mentor turn. The caller performs the storage and
//! provider work; these functions decide what to read, what to send and what to keep.
use vstd::prelude::*;

use crate::ai::task::{ChatMessage, MessageRole, RoutingPreference, StreamChunk};
use crate::calendar::{format_utc_millis, utc_format};
use crate::error::ProviderError;
use crate::memory::l1::{Message, WorkflowSignal};
use crate::text::{chars_of, concat, join, joined, owned, string_from_chars, views};

verus! {

/// One mentor interaction as the caller submits it.
pub struct MentorTurnInput {
    pub message: String,
    pub conversation_id: Option<String>,
    pub project_id: Option<String>,
    pub routing: RoutingPreference,
    pub correlation_id: String,
    pub user_id: String,
}

/// The conversation a turn continues: the requested one when it exists; `None` means a new
/// conversation is created.
pub fn conversation_to_continue(requested: &Option<String>, exists: bool) -> (r: Option<String>)
    ensures
        match requested {
            Some(id) => if exists {
                r == Some(*id)
            } else {
                r is None
            },
            None => r is None,
        },
{
    match requested {
        Some(id) => if exists {
            Some(id.clone())
        } else {
            None
        },
        None => None,
    }
}

/// The number of characters of a message kept in the event log.
pub open spec fn preview_len() -> nat {
    80
}

/// The first 80 characters of the message (all of it when shorter).
pub fn message_preview(message: &str) -> (r: String)
    ensures
        r@ == message@.take(
            if message@.len() < preview_len() {
                message@.len() as int
            } else {
                preview_len() as int
            },
        ),
{
    let v = chars_of(message);
    let n = if v.len() < 80 {
        v.len()
    } else {
        80
    };
    string_from_chars(&v, 0, n)
}

/// The chat role of a stored message role: "assistant", "system", and user otherwise.
pub open spec fn chat_role(role: Seq<char>) -> MessageRole {
    if role == "assistant"@ {
        MessageRole::Assistant
    } else if role == "system"@ {
        MessageRole::System
    } else {
        MessageRole::User
    }
}

pub open spec fn chat_view(m: ChatMessage) -> (MessageRole, Seq<char>) {
    (m.role, m.content@)
}

pub open spec fn history_view(m: Message) -> (MessageRole, Seq<char>) {
    (chat_role(m.role@), m.content@)
}

/// The stored conversation history as chat messages, in the same order.
pub fn history_to_chat(history: &Vec<Message>) -> (r: Vec<ChatMessage>)
    ensures
        r@.len() == history@.len(),
        forall|i: int| 0 <= i < r@.len() ==> chat_view(#[trigger] r@[i]) == history_view(history@[i]),
{
    let assistant = owned("assistant");
    let system = owned("system");
    let mut r: Vec<ChatMessage> = Vec::new();
    let mut i: usize = 0;
    while i < history.len()
        invariant
            i <= history@.len(),
            assistant@ == "assistant"@,
            system@ == "system"@,
            r@.len() == i,
            forall|k: int| 0 <= k < i ==> chat_view(#[trigger] r@[k]) == history_view(history@[k]),
        decreases history.len() - i,
    {
        let m = &history[i];
        let role = if m.role == assistant {
            MessageRole::Assistant
        } else if m.role == system {
            MessageRole::System
        } else {
            MessageRole::User
        };
        r.push(ChatMessage { role, content: m.content.clone() });
        i = i + 1;
    }
    r
}

/// One line of workflow context: `- [HH:MM] type → file (language)`.
pub open spec fn signal_line_text(s: WorkflowSignal) -> Seq<char> {
    "- ["@ + (match utc_format(s.created_at, "%H:%M"@) {
        Some(t) => t,
        None => Seq::empty(),
    }) + "] "@ + s.signal_type@ + " → "@ + (match s.file_path {
        Some(f) => f@,
        None => "?"@,
    }) + (match s.language {
        Some(l) => " ("@ + l@ + ")"@,
        None => Seq::empty(),
    })
}

/// The signal with its language replaced.
pub open spec fn with_language(s: WorkflowSignal, language: Option<String>) -> WorkflowSignal {
    WorkflowSignal { language, ..s }
}

/// What a context line shows after the arrow: the file path, or `?` when there is none.
pub open spec fn file_shown(s: WorkflowSignal) -> Seq<char> {
    match s.file_path {
        Some(f) => f@,
        None => "?"@,
    }
}

/// A context line shows the signal's file after the arrow whatever its language (`?` only
/// when it has no file), and a language only adds ` (language)` at the end.
pub proof fn lemma_signal_line_shows_file(s: WorkflowSignal, l: String)
    ensures
        ({
            let bare = signal_line_text(with_language(s, None));
            let arrow_file = " → "@ + file_shown(s);
            &&& bare.len() >= arrow_file.len()
            &&& bare.skip(bare.len() - arrow_file.len()) == arrow_file
            &&& signal_line_text(with_language(s, Some(l))) == bare + " ("@ + l@ + ")"@
        }),
{
    let bare = signal_line_text(with_language(s, None));
    let arrow_file = " → "@ + file_shown(s);
    let head = "- ["@ + (match utc_format(s.created_at, "%H:%M"@) {
        Some(t) => t,
        None => Seq::<char>::empty(),
    }) + "] "@ + s.signal_type@;
    assert(bare =~= head + arrow_file);
    assert(bare.skip(bare.len() - arrow_file.len()) =~= arrow_file);
}

pub fn signal_line(s: &WorkflowSignal) -> (r: String)
    ensures
        r@ == signal_line_text(*s),
{
    let mut r = owned("- [");
    match format_utc_millis(s.created_at, "%H:%M") {
        Some(t) => r.append(t.as_str()),
        None => {
            assert(r@ + Seq::<char>::empty() =~= r@);
        },
    }
    r.append("] ");
    r.append(s.signal_type.as_str());
    r.append(" → ");
    match &s.file_path {
        Some(f) => r.append(f.as_str()),
        None => r.append("?"),
    }
    match &s.language {
        Some(l) => {
            r.append(" (");
            r.append(l.as_str());
            r.append(")");
        },
        None => {
            assert(r@ + Seq::<char>::empty() =~= r@);
        },
    }
    r
}

/// The system message that tells the AI what the user is working on.
pub open spec fn workflow_context_text(signals: Seq<WorkflowSignal>) -> Seq<char> {
    "Current workflow context (recent VSCode activity, newest last):\n"@ + joined(
        signals.map_values(|s: WorkflowSignal| signal_line_text(s)),
        "\n"@,
    )
}

pub fn workflow_context(signals: &Vec<WorkflowSignal>) -> (r: String)
    ensures
        r@ == workflow_context_text(signals@),
{
    let mut lines: Vec<String> = Vec::new();
    let mut i: usize = 0;
    while i < signals.len()
        invariant
            i <= signals@.len(),
            views(lines@) == signals@.take(i as int).map_values(
                |s: WorkflowSignal| signal_line_text(s),
            ),
        decreases signals.len() - i,
    {
        let line = signal_line(&signals[i]);
        let ghost before = lines@;
        lines.push(line);
        assert(views(lines@) =~= views(before).push(line@));
        assert(signals@.take(i + 1).map_values(|s: WorkflowSignal| signal_line_text(s))
            =~= signals@.take(i as int).map_values(|s: WorkflowSignal| signal_line_text(s)).push(
            signal_line_text(signals@[i as int]),
        ));
        i = i + 1;
    }
    assert(signals@.take(signals@.len() as int) =~= signals@);
    concat(
        "Current workflow context (recent VSCode activity, newest last):\n",
        join(&lines, "\n").as_str(),
    )
}

/// The messages sent for a turn: when there are workflow signals, a system message with
/// the workflow context comes first, then the history.
pub fn with_workflow_context(messages: Vec<ChatMessage>, signals: &Vec<WorkflowSignal>) -> (r: Vec<
    ChatMessage,
>)
    ensures
        signals@.len() == 0 ==> r@ == messages@,
        signals@.len() > 0 ==> r@.len() == messages@.len() + 1 && r@[0].role == MessageRole::System
            && r@[0].content@ == workflow_context_text(signals@) && r@.subrange(
            1,
            r@.len() as int,
        ) == messages@,
{
    if signals.len() == 0 {
        messages
    } else {
        let mut r = messages;
        let ghost before = r@;
        r.insert(0, ChatMessage { role: MessageRole::System, content: workflow_context(signals) });
        assert(r@.subrange(1, r@.len() as int) =~= before);
        r
    }
}

/// What the stream of a turn has given so far.
pub struct TurnAccumulator {
    pub text: String,
    pub model: Option<String>,
    pub provider: Option<String>,
}

/// What to do after one streamed item of a turn.
pub enum TurnStep {
    /// Keep reading.
    Continue,
    /// The final chunk came with no text: stop without storing anything.
    Finish,
    /// The final chunk came: store the assistant message, then stop.
    Persist { content: String, model: Option<String>, provider: Option<String> },
}

pub open spec fn keep_some(old: Option<String>, new: Option<String>) -> Option<String> {
    if new is Some {
        new
    } else {
        old
    }
}

impl TurnAccumulator {
    pub fn new() -> (r: Self)
        ensures
            r.text@ == Seq::<char>::empty(),
            r.model is None,
            r.provider is None,
    {
        TurnAccumulator { text: String::new(), model: None, provider: None }
    }

    /// Takes one item of the provider stream. A chunk adds its content and replaces the
    /// model and provider when it names them; an error changes nothing and does not stop.
    /// On the final chunk the gathered text is stored when it is not empty.
    pub fn step(&mut self, item: &Result<StreamChunk, ProviderError>) -> (r: TurnStep)
        ensures
            match item {
                Ok(c) => {
                    &&& final(self).text@ == old(self).text@ + c.content@
                    &&& final(self).model == keep_some(old(self).model, c.model)
                    &&& final(self).provider == keep_some(old(self).provider, c.provider)
                    &&& if !c.done {
                        r is Continue
                    } else if final(self).text@.len() == 0 {
                        r is Finish
                    } else {
                        r matches TurnStep::Persist { content, model, provider } && content@
                            == final(self).text@ && model == final(self).model && provider
                            == final(self).provider
                    }
                },
                Err(_) => final(self).text@ == old(self).text@ && final(self).model == old(
                    self,
                ).model && final(self).provider == old(self).provider && r is Continue,
            },
    {
        match item {
            Ok(c) => {
                self.text.append(c.content.as_str());
                match &c.model {
                    Some(m) => {
                        self.model = Some(m.clone());
                    },
                    None => {},
                }
                match &c.provider {
                    Some(p) => {
                        self.provider = Some(p.clone());
                    },
                    None => {},
                }
                if !c.done {
                    TurnStep::Continue
                } else if self.text.as_str().unicode_len() == 0 {
                    TurnStep::Finish
                } else {
                    TurnStep::Persist {
                        content: self.text.clone(),
                        model: self.model.clone(),
                        provider: self.provider.clone(),
                    }
                }
            },
            Err(_) => TurnStep::Continue,
        }
    }
}

} // verus!
