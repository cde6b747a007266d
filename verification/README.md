# eal_interfaces

Verified contracts of the Embedded Alerts platform: the records and requests
that cross its control plane, semantic ingestion and delivery boundaries, and
the checks that decide which of them are accepted.

Every validator states, as a spec function, exactly which reason it reports
for which input (the first failing check, with its full message), and the
proof functions beside them state what an accepted value guarantees.

## Layout

- `src/text.rs` — the character model: Unicode white space, trimming,
  prefixes, ASCII case folding, decimal rendering, UTF-8 byte length.
- `src/float_bits.rs` — `f32` values held by their bit patterns, with
  finiteness and ordering stated over the patterns.
- `src/validation.rs` — the control-plane `ValidationError` and the shared
  field checks (required text, byte limits, URL shape, exact hosts).
- `src/alert_rules.rs`, `src/source_policy.rs`, `src/embedding.rs`,
  `src/matching.rs` — control-plane records and requests.
- `src/semantic.rs` — semantic ingestion, embedding-space, matching and
  delivery contracts.
- `src/semantic_contracts.rs` — text views, weighted embedding inputs and the
  combined embedding text.
- `src/outside.rs` — the outside types carried through (`uuid::Uuid`,
  `serde_json::Value`).
- `app/` — the JSON wire forms (serde, `f32`/`f64`, `chrono` instants),
  `Display`/`Error` impls and conversions to and from the library types.

Floating-point numbers appear in the library as their IEEE-754 bit patterns
(`f32::to_bits`, `f64::to_bits`) and instants as `UtcTimestamp`; `app/`
converts. The one floating-point computation, whether a rule's two weights sum
to 1, is made in `app/` and handed to `AlertRuleRevisionSpec::validate`.
