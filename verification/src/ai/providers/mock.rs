//! The mock provider used in test mode: a fixed answer, streamed word by word.
use vstd::prelude::*;

use crate::ai::task::{ChatMessage, StreamChunk, TokenUsage};
use crate::error::ProviderError;
use crate::text::owned;

verus! {

pub struct MockProvider {
    pub name: &'static str,
    pub response_words: Vec<&'static str>,
}

/// The words of the canned answer.
pub open spec fn mock_words() -> Seq<Seq<char>> {
    seq![
        "Hello!"@,
        " I'm"@,
        " your"@,
        " AI"@,
        " mentor."@,
        " How"@,
        " can"@,
        " I"@,
        " help"@,
        " you"@,
        " today?"@,
    ]
}

pub open spec fn word_views(v: Seq<&'static str>) -> Seq<Seq<char>> {
    v.map_values(|w: &'static str| w@)
}

impl Default for MockProvider {
    /// The provider named "mock" with the canned answer.
    fn default() -> (r: Self)
        ensures
            r.name@ == "mock"@,
            word_views(r.response_words@) == mock_words(),
    {
        let mut words: Vec<&'static str> = Vec::new();
        words.push("Hello!");
        words.push(" I'm");
        words.push(" your");
        words.push(" AI");
        words.push(" mentor.");
        words.push(" How");
        words.push(" can");
        words.push(" I");
        words.push(" help");
        words.push(" you");
        words.push(" today?");
        assert(word_views(words@) =~= mock_words());
        MockProvider { name: "mock", response_words: words }
    }
}

/// The `i`-th chunk of the stream for `n` words: the word, marked final (with usage 10/11)
/// when it is the last.
pub open spec fn mock_chunk_ok(c: StreamChunk, word: Seq<char>, i: int, n: int) -> bool {
    &&& c.content@ == word
    &&& c.done == (i == n - 1)
    &&& c.model matches Some(m) && m@ == "mock-model"@
    &&& c.provider matches Some(p) && p@ == "mock"@
    &&& if i == n - 1 {
        c.usage matches Some(u) && u.prompt_tokens == 10 && u.completion_tokens == 11
    } else {
        c.usage is None
    }
}

impl MockProvider {
    pub fn name(&self) -> (r: &str)
        ensures
            r@ == self.name@,
    {
        self.name
    }

    /// The mock provider is always available.
    pub fn is_available(&self) -> (r: bool)
        ensures
            r,
    {
        true
    }

    /// One chunk per response word, whatever the messages; only the last chunk is final.
    pub fn chat_stream(&self, messages: &Vec<ChatMessage>) -> (r: Result<Vec<StreamChunk>, ProviderError>)
        ensures
            r matches Ok(chunks) && chunks@.len() == self.response_words@.len() && forall|i: int|
                0 <= i < chunks@.len() ==> mock_chunk_ok(
                    #[trigger] chunks@[i],
                    self.response_words@[i]@,
                    i,
                    chunks@.len() as int,
                ),
    {
        let n = self.response_words.len();
        let mut chunks: Vec<StreamChunk> = Vec::new();
        let mut i: usize = 0;
        while i < n
            invariant
                n == self.response_words@.len(),
                i <= n,
                chunks@.len() == i,
                forall|k: int|
                    0 <= k < i ==> mock_chunk_ok(
                        #[trigger] chunks@[k],
                        self.response_words@[k]@,
                        k,
                        n as int,
                    ),
            decreases n - i,
        {
            let done = i == n - 1;
            let usage = if done {
                Some(TokenUsage { prompt_tokens: 10, completion_tokens: 11 })
            } else {
                None
            };
            chunks.push(
                StreamChunk {
                    content: owned(self.response_words[i]),
                    done,
                    model: Some(owned("mock-model")),
                    provider: Some(owned("mock")),
                    usage,
                },
            );
            i = i + 1;
        }
        Ok(chunks)
    }
}

} // verus!
