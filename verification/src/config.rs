//! Daemon configuration: its defaults, the test configuration, and where the database lives.
use vstd::prelude::*;

use crate::text::{chars_of, owned};

verus! {

#[derive(Debug, Clone)]
pub struct Config {
    pub daemon: DaemonConfig,
    pub ai: AiConfig,
    pub storage: StorageConfig,
}

#[derive(Debug, Clone)]
pub struct DaemonConfig {
    /// HTTP port for the IPC server. 0 = OS-assigned (useful in tests).
    pub http_port: u16,
    pub host: String,
}

#[derive(Debug, Clone)]
pub struct AiConfig {
    pub default_routing: RoutingPreference,
    pub ollama_base_url: String,
    pub anthropic_api_key: Option<String>,
    pub anthropic_model: Option<String>,
    pub default_local_model: String,
    pub default_embed_model: String,
}

#[derive(Debug, Clone, Copy, PartialEq, Eq, Structural)]
pub enum RoutingPreference {
    Local,
    Cloud,
    Auto,
}

impl Default for RoutingPreference {
    fn default() -> (r: Self)
        ensures
            r == RoutingPreference::Local,
    {
        RoutingPreference::Local
    }
}

/// Where the daemon keeps its data. The directory is held as text.
#[derive(Debug, Clone)]
pub struct StorageConfig {
    pub data_dir: String,
}

/// The values the environment supplies (each `None` when the variable is not set).
pub struct EnvSettings {
    pub daemon_port: Option<String>,
    pub ollama_base_url: Option<String>,
    pub anthropic_api_key: Option<String>,
    pub anthropic_model: Option<String>,
    pub default_local_model: Option<String>,
}

/// Decimal digits only, at least one: their value.
pub open spec fn digits_value(s: Seq<char>) -> Option<nat>
    decreases s.len(),
{
    if s.len() == 0 {
        None
    } else if !('0' <= s.last() <= '9') {
        None
    } else if s.len() == 1 {
        Some((s.last() as nat - '0' as nat) as nat)
    } else {
        match digits_value(s.drop_last()) {
            Some(v) => Some(v * 10 + (s.last() as nat - '0' as nat) as nat),
            None => None,
        }
    }
}

/// What `str::parse::<u16>` accepts: an optional `+`, then decimal digits whose value fits.
pub open spec fn parsed_u16(s: Seq<char>) -> Option<u16> {
    let body = if s.len() > 0 && s[0] == '+' {
        s.skip(1)
    } else {
        s
    };
    match digits_value(body) {
        Some(v) => if v <= 65535 {
            Some(v as u16)
        } else {
            None
        },
        None => None,
    }
}

/// Parses a port number as `str::parse::<u16>` does.
pub fn parse_u16(s: &str) -> (r: Option<u16>)
    ensures
        r == parsed_u16(s@),
{
    let v = chars_of(s);
    let start: usize = if v.len() > 0 && v[0] == '+' {
        1
    } else {
        0
    };
    let ghost body = v@.skip(start as int);
    assert(v@.skip(0) =~= v@);
    assert(body == (if s@.len() > 0 && s@[0] == '+' {
        s@.skip(1)
    } else {
        s@
    }));
    if start >= v.len() {
        assert(body.len() == 0);
        return None;
    }
    let mut value: u32 = 0;
    let mut i: usize = start;
    while i < v.len()
        invariant
            v@ == s@,
            start < v@.len(),
            start <= i <= v@.len(),
            body == v@.skip(start as int),
            body == (if s@.len() > 0 && s@[0] == '+' {
                s@.skip(1)
            } else {
                s@
            }),
            i > start ==> digits_value(body.take(i - start)) == Some(value as nat),
            value <= 65535,
        decreases v.len() - i,
    {
        let c = v[i];
        let ghost k = (i - start) as int;
        assert(body.take(k + 1).drop_last() =~= body.take(k));
        assert(body.take(k + 1).last() == c);
        if c < '0' || c > '9' {
            proof {
                lemma_digits_prefix_fails(body, k);
            }
            return None;
        }
        let d: u32 = (c as u32) - 48;
        let next: u32 = if i > start {
            value * 10 + d
        } else {
            d
        };
        assert(digits_value(body.take(k + 1)) == Some(next as nat));
        if next > 65535 {
            proof {
                lemma_digits_grow(body, k + 1);
            }
            return None;
        }
        value = next;
        i = i + 1;
    }
    assert(body.take((v@.len() - start) as int) =~= body);
    Some(value as u16)
}

/// A non-digit inside the text makes it unparsable.
proof fn lemma_digits_prefix_fails(s: Seq<char>, k: int)
    requires
        0 <= k < s.len(),
        !('0' <= s[k] <= '9'),
    ensures
        digits_value(s) is None,
    decreases s.len(),
{
    if k < s.len() - 1 {
        lemma_digits_prefix_fails(s.drop_last(), k);
    }
}

/// The value of digits is at least the value of any prefix of them.
proof fn lemma_digits_grow(s: Seq<char>, k: int)
    requires
        0 < k <= s.len(),
        digits_value(s.take(k)) matches Some(v) && v > 65535,
    ensures
        !(digits_value(s) matches Some(w) && w <= 65535),
    decreases s.len(),
{
    if k < s.len() {
        assert(s.drop_last().take(k) =~= s.take(k));
        lemma_digits_grow(s.drop_last(), k);
    } else {
        assert(s.take(k) =~= s);
    }
}

/// A path separator or a drive mark.
pub open spec fn is_path_mark(c: char) -> bool {
    c == '/' || c == '\\' || c == ':'
}

/// A path separator character.
pub open spec fn is_separator(c: char) -> bool {
    c == '/' || c == '\\'
}

/// How `Path::join` puts a plain file name after a directory: `dir`, then at most one
/// separator character, then `file`; when `dir` is not empty and does not already end with
/// a separator or a drive mark, exactly one separator. Which separator depends on the
/// platform and is not stated.
pub open spec fn joined_in(dir: Seq<char>, file: Seq<char>, r: Seq<char>) -> bool {
    exists|sep: Seq<char>|
        #![trigger dir + sep + file]
        r == dir + sep + file && sep.len() <= 1 && (sep.len() == 1 ==> is_separator(sep[0])) && (
        dir.len() > 0 && !is_path_mark(dir.last()) ==> sep.len() == 1)
}

/// Calls `Path::new(dir).join(file)` and renders the path as text. For a plain file name
/// (not `.` or `..`, no separator or drive mark in it) the result is `dir`, then at most one
/// separator character, then `file`, with exactly one separator when `dir` is not empty and
/// does not end with a separator or a drive mark. Which separator it is depends on the
/// platform and is not stated.
#[verifier::external_body]
fn path_join(dir: &str, file: &str) -> (r: String)
    requires
        file@.len() > 0,
        file@ != "."@,
        file@ != ".."@,
        forall|i: int| 0 <= i < file@.len() ==> !is_path_mark(#[trigger] file@[i]),
    ensures
        dir@.len() + file@.len() <= r@.len() <= dir@.len() + file@.len() + 1,
        r@.take(dir@.len() as int) == dir@,
        r@.skip(r@.len() - file@.len()) == file@,
        r@.len() == dir@.len() + file@.len() + 1 ==> is_separator(r@[dir@.len() as int]),
        dir@.len() > 0 && !is_path_mark(dir@.last()) ==> r@.len() == dir@.len() + file@.len() + 1,
{
    std::path::Path::new(dir).join(file).to_string_lossy().into_owned()
}

impl Config {
    /// The database file: `cognition.db` in the data directory, joined as `Path::join` does.
    pub fn db_path(&self) -> (r: String)
        ensures
            joined_in(self.storage.data_dir@, "cognition.db"@, r@),
    {
        proof {
            reveal_strlit("cognition.db");
            reveal_strlit(".");
            reveal_strlit("..");
        }
        let r = path_join(self.storage.data_dir.as_str(), "cognition.db");
        proof {
            let d = self.storage.data_dir@;
            let f = "cognition.db"@;
            let sep = r@.subrange(d.len() as int, r@.len() - f.len());
            assert(r@ =~= d + sep + f);
            if sep.len() == 1 {
                assert(sep[0] == r@[d.len() as int]);
            }
        }
        r
    }

    /// The configuration of test mode: an OS-assigned port on loopback, the mock model,
    /// and the given data directory.
    pub fn test_default(data_dir: String) -> (r: Config)
        ensures
            r.daemon.http_port == 0,
            r.daemon.host@ == "127.0.0.1"@,
            r.ai.default_routing == RoutingPreference::Local,
            r.ai.ollama_base_url@ == "http://localhost:11434"@,
            r.ai.anthropic_api_key is None,
            r.ai.anthropic_model is None,
            r.ai.default_local_model@ == "mock-model"@,
            r.ai.default_embed_model@ == "mock-embed"@,
            r.storage.data_dir == data_dir,
    {
        Config {
            daemon: DaemonConfig { http_port: 0, host: owned("127.0.0.1") },
            ai: AiConfig {
                default_routing: RoutingPreference::Local,
                ollama_base_url: owned("http://localhost:11434"),
                anthropic_api_key: None,
                anthropic_model: None,
                default_local_model: owned("mock-model"),
                default_embed_model: owned("mock-embed"),
            },
            storage: StorageConfig { data_dir },
        }
    }

    /// The configuration from the environment: the port from `DAEMON_PORT` when it parses
    /// (45678 otherwise), loopback host, Ollama at `OLLAMA_BASE_URL` (localhost:11434 by
    /// default), the Anthropic key and model when set, the local model from `DEFAULT_LOCAL_MODEL`
    /// ("llama3.2" by default), and the given data directory.
    pub fn from_settings(env: EnvSettings, data_dir: String) -> (r: Config)
        ensures
            r.daemon.http_port == match env.daemon_port {
                Some(p) => match parsed_u16(p@) {
                    Some(n) => n,
                    None => 45678,
                },
                None => 45678,
            },
            r.daemon.host@ == "127.0.0.1"@,
            r.ai.default_routing == RoutingPreference::Local,
            r.ai.ollama_base_url@ == match env.ollama_base_url {
                Some(u) => u@,
                None => "http://localhost:11434"@,
            },
            r.ai.anthropic_api_key == env.anthropic_api_key,
            r.ai.anthropic_model == env.anthropic_model,
            r.ai.default_local_model@ == match env.default_local_model {
                Some(m) => m@,
                None => "llama3.2"@,
            },
            r.ai.default_embed_model@ == "nomic-embed-text"@,
            r.storage.data_dir == data_dir,
    {
        let port: u16 = match &env.daemon_port {
            Some(p) => match parse_u16(p.as_str()) {
                Some(n) => n,
                None => 45678,
            },
            None => 45678,
        };
        let ollama_base_url = match env.ollama_base_url {
            Some(u) => u,
            None => owned("http://localhost:11434"),
        };
        let default_local_model = match env.default_local_model {
            Some(m) => m,
            None => owned("llama3.2"),
        };
        Config {
            daemon: DaemonConfig { http_port: port, host: owned("127.0.0.1") },
            ai: AiConfig {
                default_routing: RoutingPreference::Local,
                ollama_base_url,
                anthropic_api_key: env.anthropic_api_key,
                anthropic_model: env.anthropic_model,
                default_local_model,
                default_embed_model: owned("nomic-embed-text"),
            },
            storage: StorageConfig { data_dir },
        }
    }
}

} // verus!
