# crate_sorter

The verified core of a DJ "crate sorter": it turns a likes library into crates of genre ×
energy role, with a confidence score per filing, a manual triage queue for the doubtful tail,
and an audit trail that answers "why is this track in this crate?".

## Layout

- `src/domain/` — value objects and entities: confidences (in thousandths), energy and its
  role bands, Camelot keys, the track lifecycle, crates, classification decisions, audit
  events and their sorted detail maps, settings. `identity.rs` is the bridge to `uuid`.
- `src/application/use_cases/` — every decision the pipeline takes, as functions of plain
  values: genre choice and ranking of AI candidates, the confidence uplift, routing to triage,
  deduplication, threshold previews, the download gate, run summaries and audit details.
- `src/application/ports/` — what crosses each port: inputs, results and failure kinds, and
  the ports that need no awaiting (clock, audio analyzer, likes source).
- `src/application/testkit/` — the in-memory stores (tracks, crates, decisions, audit log,
  settings) with their persistence contracts, and deterministic doubles.
- `src/text.rs` — character-level helpers: equality and order of strings, decimal rendering.
- `app/` — the asynchronous port traits, error types with their causes, shared fakes, and the
  use cases that drive the library's decisions through the ports.
- `tests/` — scenarios and laws exercised on concrete values.
