# transnet

A translation and vocabulary-learning backend whose domain rules are verified with Verus.

- `src/` is the verified library: canonical lexical content and its evidence rules, content
  releases, retrieval and fusion of lexical and vector candidates, the public lookup cache,
  the typed lexical graph and its projections, learner state, practice and mastery counters,
  graph feedback, the unified translation turn (validation, normalization, projection),
  observability events, provider routing and the provider circuit/retry state machine.
  Public functions carry contracts; laws that relate several calls are public proof
  functions (for example `domain::fusion_order::lemma_fusion_ignores_match_order`).
- `tests/` exercises the library on concrete values.
- `app/` is the process around it: configuration, logging, the HTTP routes, the provider HTTP
  clients, the asynchronous storage and model interfaces, the executor that drives the
  resilience state machine with real time and a bulkhead, and the floating-point graph-layout
  positions.

Outside crates are reached from `src/` only through small trusted wrappers whose contracts name
what the crate computes: Unicode normalization (`unicode-normalization`), SHA-256 (`sha2`),
ULID text (`ulid`), HTTP dates (`httpdate`) and the byte length of a JSON string
(`serde_json`).
