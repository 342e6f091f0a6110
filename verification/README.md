# graphann

Client SDK for the GraphANN vector database, with its decision-making
core verified by Verus.

## Layout

- `src/` — the verified library. Every route of the HTTP API (method,
  path, query and body kind), the client configuration and its builder,
  request-body preparation (JSON, optional gzip from 64 KiB on), the
  mapping of error responses onto typed errors, the `Retry-After` parser
  and the exponential back-off with deterministic jitter, the retry
  policy, cursor pagination, the LRU + TTL response cache, single-flight
  bookkeeping, the steps of a search through both, and the
  request/response types. Contracts are stated over `Seq`, `nat` and spec
  functions; the laws that span several operations (back-off window and
  growth, retry budget, read-after-write of the cache across later
  operations, the bounds every cache operation keeps, one round trip for
  overlapping identical searches, the pagination chain) are public proof
  functions.
- `src/outside.rs`, and the `#[verifier::external_body]` wrappers in
  `address.rs`, `cache.rs`, `error.rs`, `request.rs` and `text.rs` — the
  trusted boundary to `url`, `lru`, `flate2` and `std`, each with a doc
  comment saying what its contract claims.
- `tests/` — tests of the library on concrete values.
- `app/` — the asynchronous client: `reqwest` transport, `tokio` retry
  sleeps, locks around the cache and flight table, the `futures::Stream`
  of pages, the blocking wrapper, and the serde and `thiserror` copies of
  the library's types.
