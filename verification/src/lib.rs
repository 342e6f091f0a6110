//! Verified core of the GraphANN client SDK.
//!
//! GraphANN is a storage-efficient vector database. This crate holds what
//! the HTTP client decides and computes: the route of every API operation,
//! request bodies and headers, error classification, the retry and back-off
//! schedule, cursor pagination, the response cache and single-flight
//! bookkeeping, and the request and response types. Sending and receiving
//! is left to the transport layer built on top of it.
use vstd::prelude::*;

pub mod address;
pub mod cache;
pub mod config;
pub mod error;
pub mod metrics;
pub mod outside;
pub mod pagination;
pub mod query;
pub mod request;
pub mod retry;
pub mod routes;
pub mod search;
pub mod singleflight;
pub mod text;
pub mod time;
pub mod types;

pub use crate::config::{CacheConfig, ClientBuilder, ClientConfig};
pub use crate::error::{ApiError, ClientError, ErrorCode};
pub use crate::metrics::MetricsHook;
pub use crate::pagination::{Page, PageCursor};
pub use crate::retry::{backoff_with_jitter, parse_retry_after};
pub use crate::time::TimeSpan;

verus! {

/// Returns `true` when `b` is `false`; mirrors the serializer's skip rule.
pub fn is_false(b: &bool) -> (r: bool)
    ensures
        r == !*b,
{
    !*b
}

} // verus!
