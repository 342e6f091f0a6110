//! Request and response bodies exchanged with the GraphANN HTTP API.
//!
//! Field names match the JSON keys the server produces and reads.
use std::collections::HashMap;

use vstd::prelude::*;

verus! {

/// Generic JSON value, used wherever the server returns caller-defined metadata.
pub type JsonValue = serde_json::Value;

/// Wire-level health status returned by `GET /health`.
#[derive(Debug, Clone)]
pub struct Health {
    /// `"healthy"` when the server is up.
    pub status: String,
}

/// Wire-level readiness response returned by `GET /ready`.
#[derive(Debug, Clone)]
pub struct Ready {
    /// `"ready"` or `"not ready"`.
    pub status: String,
    /// Reason text when `status != "ready"`.
    pub reason: Option<String>,
}

/// Build/version banner. The HTTP server does NOT yet expose `/version`;
/// this struct exists so downstream code can plumb the SDK's compiled
/// version into observability stacks.
#[derive(Debug, Clone)]
pub struct VersionInfo {
    /// SDK version (compile-time).
    pub sdk_version: String,
    /// Server-reported version string when discoverable.
    pub server_version: Option<String>,
}

/// A tenant — the top-level isolation boundary.
#[derive(Debug, Clone)]
pub struct Tenant {
    /// Stable tenant identifier (`t_<uuid>`).
    pub id: String,
    /// Human-friendly name.
    pub name: String,
    /// RFC3339 creation timestamp.
    pub created_at: Option<String>,
    /// RFC3339 update timestamp.
    pub updated_at: Option<String>,
    /// Best-effort count of indexes belonging to this tenant.
    pub index_count: Option<u64>,
    /// Provider metadata as exposed by the server (LLM settings etc.,
    /// API keys masked).
    pub metadata: Option<HashMap<String, String>>,
}

/// `POST /v1/tenants` request body.
#[derive(Debug, Clone, Default)]
pub struct CreateTenantRequest {
    /// Optional deterministic id. When set the server does an idempotent
    /// create-or-fetch.
    pub id: Option<String>,
    /// Human-friendly name.
    pub name: String,
}

/// `GET /v1/tenants` response envelope.
#[derive(Debug, Clone, Default)]
pub struct ListTenantsResponse {
    /// Tenants on this page.
    pub tenants: Vec<Tenant>,
    /// Total tenants matched.
    pub total: u64,
}

/// Index lifecycle status as reported by the server.
#[derive(Debug, Clone)]
pub struct Index {
    /// Stable index id (`i_<uuid>`).
    pub id: String,
    /// Owning tenant id.
    pub tenant_id: String,
    /// Display name.
    pub name: String,
    /// Optional description.
    pub description: Option<String>,
    /// Lifecycle status: `empty`, `building`, `ready`, `error`.
    pub status: String,
    /// Number of documents currently indexed.
    pub num_docs: u64,
    /// Number of chunks currently indexed.
    pub num_chunks: u64,
    /// Embedding dimension; zero until the first document is embedded.
    pub dimension: u32,
    /// RFC3339 creation timestamp.
    pub created_at: Option<String>,
    /// RFC3339 update timestamp.
    pub updated_at: Option<String>,
    /// Filesystem path under the data dir. Populated on org/user/shared
    /// listings; omitted for tenant-scoped routes.
    pub path: Option<String>,
    /// User id of the creator. Populated on org-scoped listings.
    pub created_by: Option<String>,
    /// Free-form metadata bag. Populated on org-scoped listings.
    pub metadata: Option<HashMap<String, String>>,
    /// Compression strategy used by the index (e.g. `"pq"`, `"scalar"`).
    pub compression: Option<String>,
    /// Whether the index uses approximate (HNSW) search.
    pub approximate: Option<bool>,
}

/// Status response from `GET /v1/tenants/.../indexes/.../status`.
#[derive(Debug, Clone)]
pub struct IndexStatus {
    /// Index id.
    pub index_id: String,
    /// `empty`, `building`, `ready`, or `error`.
    pub status: String,
    /// Populated when `status == "error"`.
    pub error: Option<String>,
}

/// `POST /v1/tenants/.../indexes` body.
#[derive(Debug, Clone, Default)]
pub struct CreateIndexRequest {
    /// Optional deterministic id (idempotent).
    pub id: Option<String>,
    /// Display name.
    pub name: String,
    /// Optional description.
    pub description: Option<String>,
    /// Compression strategy (`"none"`, `"scalar"`, `"binary"`, `"pq"`,
    /// `"recompute"`, or `""` for server default).
    pub compression: Option<String>,
    /// When `true`, build an approximate (HNSW) graph; `false` uses brute force.
    pub approximate: Option<bool>,
}

/// `PATCH /v1/tenants/.../indexes/.../` body. Only the supplied keys are
/// updated server-side (partial merge).
#[derive(Debug, Clone, Default)]
pub struct UpdateIndexRequest {
    /// New display name.
    pub name: Option<String>,
    /// New description.
    pub description: Option<String>,
    /// Compression strategy to apply.
    pub compression: Option<String>,
    /// Toggle approximate (HNSW) search on/off.
    pub approximate: Option<bool>,
}

/// Live (in-memory) index statistics.
#[derive(Debug, Clone)]
pub struct LiveIndexStats {
    /// Index id.
    pub index_id: String,
    /// `true` if currently loaded into memory.
    pub is_live: bool,
    /// Chunks in the compacted base layer.
    pub base_chunks: u64,
    /// Chunks in the delta layer (post last compaction).
    pub delta_chunks: u64,
    /// Total chunks (base + delta).
    pub total_chunks: u64,
    /// Tombstoned chunks (excluded from search).
    pub deleted_chunks: u64,
    /// Active chunks (`total - deleted`).
    pub live_chunks: u64,
    /// Document count.
    pub documents: u64,
    /// Embedding dimension, when known.
    pub dimension: u32,
    /// `true` when there are unsaved changes.
    pub is_dirty: bool,
    /// Set on the alternate "not live" response shape.
    pub num_chunks: Option<u64>,
    /// Set on the alternate "not live" response shape.
    pub num_docs: Option<u64>,
}

/// `GET /v1/tenants/.../indexes` envelope.
#[derive(Debug, Clone, Default)]
pub struct ListIndexesResponse {
    /// Indexes on this page.
    pub indexes: Vec<Index>,
    /// Total indexes matched.
    pub total: u64,
}

/// Response from `POST /v1/tenants/.../indexes/.../flush`.
#[derive(Debug, Clone, Default)]
pub struct FlushResponse {
    /// `true` when the flush completed.
    pub flushed: bool,
}

/// Response from `POST /v1/tenants/.../indexes/.../rebuild-graph`.
#[derive(Debug, Clone, Default)]
pub struct RebuildGraphResponse {
    /// `true` when the delta graph was rebuilt.
    pub rebuilt: bool,
    /// Number of chunks re-inserted into the rebuilt graph.
    pub chunks: u64,
    /// Wall-clock rebuild time in milliseconds.
    pub wall_ms: u64,
}

/// `POST .../documents` response.
#[derive(Debug, Clone, Default)]
pub struct AddDocumentsResponse {
    /// Number accepted.
    pub added: u64,
    /// Index id (echoed).
    pub index_id: String,
    /// String (UUID) chunk ids assigned to the new chunks. Server emits
    /// `[]store.ChunkID` (= `[]string`); decoding as `Vec<i64>` fails.
    pub chunk_ids: Vec<String>,
    /// External ids, one per submitted document and positionally
    /// aligned with the request array. Present only when the server
    /// minted at least one id (sharded ingest of id-less documents —
    /// the external id is the shard routing key); when present it
    /// carries ALL ids, minted and client-supplied alike. Persist
    /// these as the durable document ids. `None` on unsharded
    /// deployments and older servers.
    pub external_ids: Option<Vec<String>>,
}

/// `POST .../import` response.
#[derive(Debug, Clone, Default)]
pub struct ImportDocumentsResponse {
    /// Index id (echoed).
    pub index_id: String,
    /// Number of documents accepted onto the queue.
    pub imported: u64,
    /// Numeric document ids assigned.
    pub document_ids: Vec<i64>,
    /// Total queue depth after this call.
    pub pending_total: u64,
    /// e.g. `"processing"`.
    pub status: String,
    /// Optional human message.
    pub message: Option<String>,
}

/// Pending queue snapshot.
#[derive(Debug, Clone, Default)]
pub struct PendingStatus {
    /// Index id.
    pub index_id: String,
    /// Documents waiting to be embedded / indexed.
    pub pending_count: u64,
}

/// Bulk delete by numeric document id.
#[derive(Debug, Clone, Default)]
pub struct BulkDeleteDocumentsRequest {
    /// Document ids to remove.
    pub document_ids: Vec<i64>,
}

/// Response for either bulk delete variant.
#[derive(Debug, Clone, Default)]
pub struct BulkDeleteResponse {
    /// Index id (echoed).
    pub index_id: String,
    /// Number of documents that matched.
    pub documents_deleted: u64,
    /// Number of chunks tombstoned.
    pub chunks_deleted: u64,
    /// Per-doc breakdown when keying by numeric id.
    pub deleted_per_doc: Option<HashMap<String, u64>>,
    /// Per-id breakdown when keying by external id.
    pub deleted_per_id: Option<HashMap<String, u64>>,
}

/// Bulk delete by client-supplied external id.
#[derive(Debug, Clone, Default)]
pub struct BulkDeleteByExternalIdsRequest {
    /// External ids to remove.
    pub external_ids: Vec<String>,
}

/// Cleanup orphans response.
///
/// `min_age` is a Go-style duration string echoing the cutoff the server
/// actually applied (e.g. `"1h0m0s"`, `"24h0m0s"`). `dry_run` echoes the
/// dry-run flag — when `true`, `removed` is what would have been deleted,
/// not what was deleted. Both fields default to empty/false when missing
/// (older servers).
#[derive(Debug, Clone, Default)]
pub struct CleanupOrphansResponse {
    /// Paths removed (or that would have been removed in dry-run mode).
    pub removed: Vec<String>,
    /// Bytes reclaimed (or that would have been reclaimed in dry-run mode).
    pub freed_bytes: u64,
    /// Echo of the minimum-age cutoff the server applied.
    pub min_age: String,
    /// Echo of the dry-run flag.
    pub dry_run: bool,
}

/// Response body for `POST .../indexes/{id}/gc` and `POST /v1/admin/gc`.
/// Both endpoints share the same shape: the index id (empty when admin
/// scope) and the count of expired documents reclaimed.
#[derive(Debug, Clone, Default)]
pub struct GCResponse {
    /// Index id, present on per-index GC, empty for admin GC.
    pub index_id: String,
    /// Number of expired documents removed.
    pub deleted_count: u64,
}

/// One row of the prefix-list response.
#[derive(Debug, Clone, Default)]
pub struct DocumentEntry {
    /// External id.
    pub id: String,
    /// Reconstructed text. Empty when unavailable.
    pub text: String,
    /// Structured metadata (when stored).
    pub metadata: Option<HashMap<String, JsonValue>>,
}

/// Page returned by `list_documents`.
#[derive(Debug, Clone, Default)]
pub struct ListDocumentsPage {
    /// Documents in this page.
    pub documents: Vec<DocumentEntry>,
    /// Cursor for the next page; absent when exhausted.
    pub next_cursor: Option<String>,
}

/// Result of `delete_document` (single doc).
#[derive(Debug, Clone, Default)]
pub struct DeleteDocumentResponse {
    /// Index id (echoed).
    pub index_id: String,
    /// Numeric document id.
    pub document_id: i64,
    /// Chunks tombstoned.
    pub deleted_chunks: u64,
}

/// Body returned by `GET /v1/tenants/.../chunks/{chunkID}`.
///
/// The server returns a flat object so the SDK keeps the same shape
/// (no envelope) even though `WriteSuccess` adds a top-level wrapper
/// in some other endpoints.
#[derive(Debug, Clone, Default)]
pub struct Chunk {
    /// Numeric chunk id.
    pub chunk_id: i64,
    /// Reconstructed text. May be empty if the chunk was tombstoned
    /// since the request started.
    pub text: String,
    /// Owning numeric document id; -1 when metadata could not be loaded.
    pub document_id: i64,
    /// Position of this chunk within its parent document (0-based).
    pub chunk_index: i64,
    /// Byte offset of the chunk inside the original document.
    pub start: i64,
    /// Byte offset of the chunk's end inside the original document.
    pub end: i64,
}

/// Body returned by `DELETE /v1/tenants/.../chunks/{chunkID}` for a
/// single chunk delete. The server tombstones one chunk at a time and
/// echoes the index id back.
#[derive(Debug, Clone, Default)]
pub struct DeleteChunkResponse {
    /// Index id (echoed).
    pub index_id: String,
    /// Total chunks tombstoned by this call (typically 1).
    pub deleted: u64,
}

/// Body sent by `DELETE /v1/tenants/.../chunks/{chunkID}` for a batch
/// chunk delete. The server reads the `chunk_ids` list from the body
/// and ignores the trailing path segment.
#[derive(Debug, Clone, Default)]
pub struct DeleteChunksRequest {
    /// Numeric chunk ids to tombstone. Must be non-empty.
    pub chunk_ids: Vec<i64>,
}

/// Body returned by `DELETE /v1/tenants/.../chunks/{chunkID}` for a
/// batch chunk delete. Mirrors [`DeleteChunkResponse`] but reports the
/// total tombstoned across the supplied `chunk_ids`.
#[derive(Debug, Clone, Default)]
pub struct DeleteChunksResponse {
    /// Index id (echoed).
    pub index_id: String,
    /// Total chunks tombstoned by this call.
    pub deleted: u64,
}

/// How many results a search asks for when the request names no `k`.
pub fn default_k() -> (r: u32)
    ensures
        r == 10,
{
    10
}

/// Search filter — limits the result set to chunks matching every clause.
#[derive(Debug, Clone, Default)]
pub struct SearchFilter {
    /// Limit to chunks attributed to these repositories.
    pub repo_ids: Vec<String>,
    /// Strip chunks with these external ids from the result set.
    pub exclude_external_ids: Vec<String>,
    /// Require each key/value to match the chunk's stored metadata.
    pub metadata_filter: HashMap<String, JsonValue>,
    /// Generic equality pre-filter: every key must match the chunk's
    /// stored metadata exactly. Takes precedence over `metadata_filter`
    /// on the server when both are present.
    pub equals: HashMap<String, String>,
}

impl SearchFilter {
    /// Returns `true` when no filter clauses are set; the serializer then
    /// drops the field entirely instead of sending `{}`.
    pub fn is_empty(&self) -> (r: bool)
        ensures
            r == (self.repo_ids@.len() == 0 && self.exclude_external_ids@.len() == 0
                && self.metadata_filter@.is_empty() && self.equals@.is_empty()),
    {
        self.repo_ids.is_empty() && self.exclude_external_ids.is_empty()
            && self.metadata_filter.is_empty() && self.equals.is_empty()
    }
}

/// Embedding-model switch request body.
#[derive(Debug, Clone, Default)]
pub struct SwitchEmbeddingModelRequest {
    /// Backend ("ollama", "openai", "local_onnx").
    pub embedding_backend: String,
    /// Model identifier.
    pub model: String,
    /// Embedding dimension produced by the model.
    pub dimension: u32,
    /// Optional endpoint override (URL or local path).
    pub endpoint_override: Option<String>,
    /// Optional API key — never logged or echoed back by the server.
    pub api_key: Option<String>,
}

/// Job status string values — typed for compile-time safety.
#[derive(Debug, Clone, Copy, PartialEq, Eq)]
pub enum JobStatus {
    /// Created, not yet picked up.
    Queued,
    /// Currently running.
    Running,
    /// Finished without error.
    Completed,
    /// Finished with an error (see `Job::error`).
    Failed,
}

/// Job kind.
#[derive(Debug, Clone, Copy, PartialEq, Eq)]
pub enum JobKind {
    /// Reembed (hot model switch).
    Reembed,
}

/// Progress snapshot included with each job poll.
#[derive(Debug, Clone, Default)]
pub struct JobProgress {
    /// Chunks processed so far.
    pub chunks_done: u64,
    /// Total chunks expected.
    pub chunks_total: u64,
}

/// Job envelope returned by `get_job` and listing endpoints.
#[derive(Debug, Clone)]
pub struct Job {
    /// Job id (`job_<uuid>`).
    pub job_id: String,
    /// Job kind.
    pub kind: JobKind,
    /// Owning tenant id.
    pub tenant_id: String,
    /// Target index id.
    pub index_id: String,
    /// Lifecycle status.
    pub status: JobStatus,
    /// Progress snapshot.
    pub progress: JobProgress,
    /// Set when status moved to running.
    pub started_at: Option<String>,
    /// Set when status moved to a terminal state.
    pub completed_at: Option<String>,
    /// Error message when status == failed.
    pub error: Option<String>,
    /// RFC3339 creation timestamp.
    pub created_at: String,
}

/// Response from `PATCH .../embedding-model`.
#[derive(Debug, Clone)]
pub struct SwitchEmbeddingModelResponse {
    /// Newly created job id.
    pub job_id: String,
    /// Initial status (always `queued`).
    pub status: JobStatus,
}

/// `GET /v1/jobs` and tenant-scoped variant envelope.
#[derive(Debug, Clone, Default)]
pub struct ListJobsResponse {
    /// Jobs on this page.
    pub jobs: Vec<Job>,
    /// Total returned.
    pub total: u64,
    /// Cursor for the next page (absent when exhausted).
    pub next_cursor: Option<String>,
}

/// Filter for listing jobs.
#[derive(Debug, Clone, Default)]
pub struct ListJobsFilter {
    /// Filter by job status.
    pub status: Option<JobStatus>,
    /// Pagination cursor.
    pub cursor: Option<String>,
    /// Page size.
    pub limit: Option<u32>,
}

/// Per-node entry in `GET /v1/cluster/nodes`.
#[derive(Debug, Clone, Default)]
pub struct ClusterNode {
    /// Node id.
    pub id: String,
    /// Listen address (`host:port`).
    pub addr: String,
    /// Failure-domain zone, when configured.
    pub zone: Option<String>,
    /// `"alive" | "suspect" | "dead"`.
    pub state: String,
    /// RFC3339 timestamp of the last heartbeat seen.
    pub last_seen: String,
}

/// Cluster shard placement entry.
#[derive(Debug, Clone, Default)]
pub struct ClusterShard {
    /// Shard id.
    pub id: String,
    /// Node id of the primary replica.
    pub primary: String,
    /// Replica node ids (may include `primary`).
    pub replicas: Vec<String>,
    /// Optional zone -> node mapping.
    pub zone_placement: Option<HashMap<String, String>>,
}

/// `GET /v1/cluster/nodes` response.
#[derive(Debug, Clone, Default)]
pub struct ClusterNodesResponse {
    /// All known nodes.
    pub nodes: Vec<ClusterNode>,
    /// Current Raft leader id (empty when no leader).
    pub leader: String,
}

/// `GET /v1/cluster/shards` response.
#[derive(Debug, Clone, Default)]
pub struct ClusterShardsResponse {
    /// All shards.
    pub shards: Vec<ClusterShard>,
    /// Replication factor.
    pub rf: u32,
}

/// `GET /v1/cluster/health` response.
#[derive(Debug, Clone, Default)]
pub struct ClusterHealth {
    /// `"ok" | "degraded" | "unhealthy"`.
    pub status: String,
    /// Total members in the gossip group.
    pub cluster_size: u32,
    /// Members reporting `state == "alive"`.
    pub alive_nodes: u32,
    /// Whether Raft has an elected leader.
    pub raft_has_leader: bool,
    /// Number of shards below their replication factor.
    pub under_replicated_shards: u32,
}

/// Body for `PUT /v1/tenants/.../indexes/.../resources/{resourceID}`.
#[derive(Debug, Clone, Default)]
pub struct UpsertResourceRequest {
    /// Resource text — chunked and embedded server-side.
    pub text: String,
    /// Optional metadata attached to every chunk produced from this resource.
    pub metadata: HashMap<String, String>,
}

/// Response from `upsert_resource`.
#[derive(Debug, Clone, Default)]
pub struct UpsertResourceResponse {
    /// The resource id (echoed).
    pub resource_id: String,
    /// Chunks created in this call.
    pub chunks_added: u64,
    /// Prior chunks tombstoned for this resource (on update).
    pub chunks_tombstoned: u64,
    /// `"create"` (first call for this resource) or `"update"`.
    pub operation: String,
}

/// Per-key projection returned by the list endpoint — never carries the
/// plaintext value. Field set matches the server's `APIKeyListItem`
/// (`internal/server/apikey_handlers.go`): `{ id, user_id, name,
/// created_at, last_used_at }`. There is no `prefix`, `expires_at`, or
/// `description` on the wire.
#[derive(Debug, Clone, Default)]
pub struct ApiKey {
    /// Key id.
    pub id: String,
    /// Owning user id.
    pub user_id: Option<String>,
    /// Human-readable label for the key.
    pub name: Option<String>,
    /// Creation timestamp.
    pub created_at: Option<String>,
    /// Last-used timestamp, when the server tracks it.
    pub last_used_at: Option<String>,
}

/// Response from `create_api_key`. Includes the **plaintext key**, returned
/// only on the create response — store it client-side immediately. Shape
/// matches the server's `CreateAPIKeyResponse`: `{ id, name, user_id,
/// plaintext, created_at }`.
#[derive(Debug, Clone, Default)]
pub struct CreateApiKeyResponse {
    /// Key id.
    pub id: String,
    /// Human-readable label for the key.
    pub name: Option<String>,
    /// Owning user id.
    pub user_id: Option<String>,
    /// One-time plaintext value. Returned exactly once at create time;
    /// the server only stores its argon2id hash, so persist it now.
    pub plaintext: Option<String>,
    /// Creation timestamp.
    pub created_at: Option<String>,
}

/// Body for `create_api_key`. Both fields are sent; the server reads both
/// (`internal/server/apikey_handlers.go`). `user_id` may be empty.
#[derive(Debug, Clone, Default)]
pub struct CreateApiKeyRequest {
    /// Owning user id within the tenant. Empty string is accepted.
    pub user_id: String,
    /// Human-readable label for the key.
    pub name: String,
}

/// Listing envelope returned by `list_api_keys`. The wrapper key is
/// `api_keys`, matching the server's `ListAPIKeysResponse`.
#[derive(Debug, Clone, Default)]
pub struct ListApiKeysResponse {
    /// Keys on this page.
    pub api_keys: Vec<ApiKey>,
}

/// `GET /v1/orgs/{orgID}/users/{userID}/indexes` envelope.
#[derive(Debug, Clone, Default)]
pub struct ListUserIndexesResponse {
    /// Personal indexes belonging to the user.
    pub indexes: Vec<Index>,
    /// Total returned.
    pub total: u64,
    /// Org id (echoed).
    pub org_id: String,
    /// User id (echoed).
    pub user_id: String,
}

/// `GET /v1/orgs/{orgID}/shared/indexes` envelope.
#[derive(Debug, Clone, Default)]
pub struct ListSharedIndexesResponse {
    /// Shared indexes belonging to the org.
    pub indexes: Vec<Index>,
    /// Total returned.
    pub total: u64,
    /// Org id (echoed).
    pub org_id: String,
}

/// Sync documents body for `POST /v1/orgs/{orgID}/documents`.
#[derive(Debug, Clone, Default)]
pub struct SyncDocumentsRequest {
    /// Acting user.
    pub user_id: String,
    /// Free-form source type (`github`, `confluence`, ...).
    pub source_type: String,
    /// `true` for shared/dedup, `false` for per-user index.
    pub shared: bool,
    /// Documents to ingest.
    pub documents: Vec<SyncDocument>,
}

/// Document used by `SyncDocumentsRequest`.
#[derive(Debug, Clone, Default)]
pub struct SyncDocument {
    /// Stable upstream id (required for shared, used for dedup).
    pub resource_id: Option<String>,
    /// Document text.
    pub text: String,
    /// Optional metadata map.
    pub metadata: Option<HashMap<String, String>>,
}

/// Response from `sync_documents`.
#[derive(Debug, Clone, Default)]
pub struct SyncDocumentsResponse {
    /// Number of documents synced.
    pub synced: u64,
    /// Echoed org id.
    pub org_id: String,
    /// Echoed user id.
    pub user_id: String,
    /// Echoed source type.
    pub source_type: String,
    /// `"shared"` or `"personal"`.
    pub index_type: String,
}

} // verus!
