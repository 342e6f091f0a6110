//! Pluggable observability hook.
use vstd::prelude::*;

use std::time::Duration;

verus! {

/// Receives every observability point the client emits. Each method does
/// nothing unless an implementation overrides it.
pub trait MetricsHook: Send + Sync + 'static {
    /// Called once per HTTP request the client initiates (after retries).
    fn on_request(&self, method: &str, path: &str, status: Option<u16>, elapsed: Duration) {
    }

    /// Called when the client retries a request because of a transient error.
    fn on_retry(&self, attempt: u32, reason: &str) {
    }

    /// Called when a single-flight call joins a request already in flight.
    fn on_coalesced(&self, key: &str) {
    }

    /// Called on each cache hit / miss.
    fn on_cache(&self, hit: bool) {
    }
}

} // verus!
