# cognition_daemon

A local-first daemon for a student execution OS: projects, tasks, mentor
conversations with an AI provider (local Ollama first, Anthropic in the cloud),
capability scores computed from editor workflow signals, generated artifacts,
an audit log, and passphrase-encrypted export and import of all user data.

## Layout

- `src/` — the verified library (Verus). It holds the decisions of the daemon
  as functions with contracts: provider routing and model choice, the request
  and stream formats of the providers, the capability scores and narratives,
  the artifact texts, the mentor turn bookkeeping, the HTTP replies, the
  configuration, the audit records, and the encryption of exports (Argon2id key,
  AES-256-GCM, base64), with the law that an encrypted export opens, under the
  same passphrase, to what was exported.
- `tests/` — tests of the library on concrete values.
- `app/` — the daemon around it: SQLite storage, HTTP server (axum), the
  provider clients (reqwest), logging, and `main`.

## Running

`DAEMON_PORT` (default 45678), `OLLAMA_BASE_URL` (default
`http://localhost:11434`), `DEFAULT_LOCAL_MODEL` (default `llama3.2`),
`ANTHROPIC_API_KEY` and `ANTHROPIC_MODEL` (the cloud provider is registered when
the key is set; the model names what it is asked for). `DAEMON_TEST_MODE` runs
with the mock provider and a temporary data directory.
