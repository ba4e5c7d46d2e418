# ai_gateway

A self-hosted AI agent gateway: a CLI and an HTTP/WebSocket server that let a
local model call tools (shell, files, PDF books, web search, code help, memory
recall, homelab APIs) under a Rego policy, with encrypted conversation storage,
a task queue, JWT authentication and rate limiting.

- `src/` is the library, verified with Verus: the agent loop and the chat flow
  as state machines (a chat runs the agent on the queued task and answers
  with its progress notes), every tool's parameter parsing and reporting, the
  reading of search-engine answers from their bodies, the ordering of the
  files a book folder holds, the tool
  registry, policy input documents, bearer-token authentication (the token's
  claims read and checked), PDF text extraction, rate-limit rules, storage
  queries and history filtering, and age encryption of stored text. A text
  encrypted with a passphrase and decrypted again is proved to come back
  unchanged, or to fail inside age itself (whether age opens the file rests
  on this machine's scrypt speed, so success is not promised). Calls into
  `age`, `regorus`, `jsonwebtoken`, `lopdf`, `serde_json`, `urlencoding` and
  a few standard-library functions go through trusted wrappers whose
  contracts are documented where they are declared.
- `app/` is the program around it: the Axum server, the CLI, HTTP clients,
  databases, Redis, process spawning and tracing. It performs the commands the
  library's state machines issue and hands back what came of them.
- `tests/` exercise the library on concrete values.
