# greentic_state

Verified core of the Greentic state providers (in-memory and Redis) and of the
shared messaging-provider toolkit they are built on.

- `planner`, `ac_extract`, `renderer`, `plan`: the deterministic render
  planner — Adaptive Card extraction, tier selection, sanitizing and
  truncation of summaries, and the pass-through and downsampling renderers.
- `helpers`, `pipeline`: descriptor, QA and schema builders, answer readers,
  standard responses, render-plan and send-payload pipelines, the CBOR/JSON
  invoke bridge and the configuration loader.
- `qa_helpers`, `qa_invoke_bridge`: apply-answers results and the JSON bridge
  for QA operations.
- `http_compat`: the operator's HTTP request/response shapes.
- `lifecycle_keys`, `provider`: storage keys and shared provider types.
- `state_memory`, `state_redis`: the two state providers — description, QA
  specs, configuration reading, answer merging and validation.
- `json`, `codec`, `text`, `component`, `config_fields`: the JSON model, the
  JSON/CBOR/Base64/SHA-256 codecs of the outside crates behind trusted
  wrappers, text utilities, and the component descriptor model.

`app/` holds the serde and `thiserror` copies of the library's types, the
decoding of encode requests into channel envelopes, and conversions to the
`greentic-types` HTTP shapes.
