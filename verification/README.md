# plexus_transport

Transport-layer decisions of a JSON-RPC server, verified with Verus.

- `src/websocket.rs` — the WebSocket upgrade checks: the static api-key
  admission check, the session-validator identity check (cookie first, then
  bearer token, optional strict mode) as a state machine, and the 401
  responses.
- `src/config.rs` — transport configuration (IPv4 or IPv6 listen
  addresses, opaque SQLite paths); api-key header names are
  normalized through the `http` crate.
- `src/server.rs` — the server builder, the build-time refusal of
  auth-gated methods without auth middleware (the schema is read only
  when that check applies), and the plan of what `serve`
  starts (including whether and where the backend announces itself).
- `src/registry.rs` — boot-time self-registration: environment settings,
  the bounded fail-open retry, and the decisions on each item of the
  registry's `_info` and `registry.*` call streams.
- `src/text.rs` — string helpers (trimming, ASCII case folding, decimal).

`app/` holds the runtime around the library: the async WebSocket server
with its tower middleware, the registry client over `jsonrpsee`, and the
server orchestration over `plexus_core` activations.
