# backend_core

The verified core of two backend services:

- **monitoring**: monitoring events published by other services (over HTTP in
  batches, or through RabbitMQ) are validated and stored; traces, idempotency
  keys, event lists and metrics are read back over HTTP.
- **settings**: per-user, per-application preferences (theme, locale, hidden
  accounts) behind a bearer-token API.

Layout:

- `src/` is the library, written in Verus: every function carries a contract
  and is proved against it. `text.rs` and `timestamp.rs` are shared helpers;
  `monitoring/` and `settings/` hold each service's rules, queries, answers and
  decisions, with the laws that relate them.
- `tests/` runs the library on concrete values.
- `app/` is the ordinary Rust around it: HTTP servers (axum), PostgreSQL stores
  (sqlx), the RabbitMQ consumer (lapin), JWT decoding (jsonwebtoken), the JSON
  shapes (serde) and start-up. It calls the library for every check and
  decision and performs the I/O the library asks for.
