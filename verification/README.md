# engine_core

The core of a workflow engine, written in Verus: what it decides is stated in
contracts and proved, what it does to the world is left to the code around it.

- `src/policy` resolves run policies from four layers (built-in value, harness
  file, named profile, event), grades gated actions, shapes model calls, and
  harvests and aggregates what runs came to.
- `src/operator` renders and validates what reaches an operator, orders the
  queue, collapses storms into digests, and keeps the append-only ledger of
  decisions.
- `src/nodes/terminal` holds the nodes that drive terminal sessions. A node that
  needs the terminal, a file or the clock is a conversation: it asks for one
  thing at a time and goes on from the answer, so that every answer it could be
  given is covered by the proofs.
- `src/parallel.rs` merges the contexts of parallel branches; `src/progress.rs`
  carries progress records.
- `src/json.rs`, `src/jsonl.rs`, `src/string_map.rs`, `src/text.rs` and
  `src/time.rs` are the ground the rest stands on.

Functions named `law_…` state what holds of several operations together.

`app/` makes the calls: files, the asynchronous runtime, the terminal, and the
encodings on the wire. `tests/` runs the library on concrete values.

A few functions of other crates are called through declarations whose contracts
are believed: `serde_json::from_str` and the `Display` of `serde_json::Value`,
`sha2::Sha256`, `regex::Regex`, `chrono::DateTime::parse_from_rfc3339`, and four
of the standard library. Each says in its doc comment what is claimed.
