# prism_core

The verified core of the prism coordination runtime.

- `src/` is the library, written in Verus: every function carries a contract
  that Verus proves. It holds the coordination authority's decisions (which
  writes conflict, what a read answers, how runtime descriptors are
  published and cleared, how event executions move from claim to finish,
  what an authoritative mutation returns and reports), the shared execution
  substrate stored through event-execution records, startup checkpoints and
  the materialization metadata, the curator's job queue and triggers, the
  checkpoint materializer's bookkeeping, workspace layout (package names
  from manifest text, identifier normalization, which package a path
  belongs to) and refresh decisions. `src/laws.rs` states the properties
  that relate several operations. Manifest TOML is parsed through the
  `toml` crate behind one trusted wrapper in `src/layout.rs`.
- `app/` is plain Rust around the library: walking a workspace and reading
  manifests, reading the SQLite mutation log, the JSON forms of records,
  environment flags, and the worker threads of the checkpoint materializer
  and the curator, which drive the library's step functions.
- `tests/` exercises the library on concrete values.

## What is not here

The prism runtime also builds on the workspace crates
`prism_store`, `prism_ir`, `prism_parser`, `prism_query`, `prism_history`,
`prism_memory`, `prism_projections`, `prism_curator` and `prism_agent`, and
on the coordination modules for shared git refs, published plans, git
execution state and the workspace configuration. None of these is part of
this project, so:

- the workspace indexer, graph edge resolution and session building, which
  run on the graph, parser and query types, are absent; their decisions
  (parse depth, refresh scope, refresh work, which changes need edges
  resolved again) are in `src/refresh.rs`;
- the store traits and the SQLite and git stores' I/O are absent; the
  library holds what they decide, with the store's replies as arguments;
- publishing the local runtime descriptor and live sync need the shared-ref
  module: the library builds the publish request and judges the reply;
- the curator's context building and backend, the read-model seed builders
  and the concept, contract and history event files are absent;
- a coordination task is modelled by the fields that carry session
  continuity; its remaining fields, git execution state among them, use
  types of the missing crates.
