//! The HTTP route of every API operation: method, path and body.
//!
//! Index-, document-, job- and key-level routes live under the tenant the
//! client is configured with; calling one without a tenant id is a builder
//! error.
use vstd::prelude::*;
use vstd::utf8::encode_utf8;

use crate::config::ClientConfig;
use crate::error::ClientError;
use crate::query::{filter_pairs, format_duration, go_duration, join_pairs, percent_encode, push_filter, urlencode};
use crate::request::HttpMethod;
use crate::text::{decimal, push_decimal, push_str, string_of};
use crate::time::TimeSpan;
use crate::types::{
    BulkDeleteByExternalIdsRequest, BulkDeleteDocumentsRequest, DeleteChunksRequest, ListJobsFilter,
};

verus! {

/// What a request sends as its body.
#[derive(Debug, Clone, Copy, PartialEq, Eq)]
pub enum Payload {
    /// No body.
    Empty,
    /// The empty JSON object `{}`.
    EmptyObject,
    /// The operation's request value, as JSON.
    Json,
}

/// Method, path (relative to the base URL) and body of one API call.
#[derive(Debug)]
pub struct Route {
    /// HTTP method.
    pub method: HttpMethod,
    /// Path and query, relative to the base URL.
    pub path: String,
    /// What the body holds.
    pub payload: Payload,
}

/// Whether `r` is the route `m path` with body `p`.
pub open spec fn is_route(r: Route, m: HttpMethod, path: Seq<char>, p: Payload) -> bool {
    r.method == m && r.path@ == path && r.payload == p
}

/// `v1/tenants/{tenant}{rest}`.
pub open spec fn tenant_path(tenant: Seq<char>, rest: Seq<char>) -> Seq<char> {
    "v1/tenants/"@ + tenant + rest
}

/// `v1/tenants/{tenant}/indexes/{index}{rest}`.
pub open spec fn index_path(tenant: Seq<char>, index: Seq<char>, rest: Seq<char>) -> Seq<char> {
    "v1/tenants/"@ + tenant + "/indexes/"@ + index + rest
}

/// The route under the configured tenant that `path_of` gives, or a
/// builder error when no tenant is configured.
pub open spec fn tenant_scoped(
    cfg: ClientConfig,
    r: Result<Route, ClientError>,
    m: HttpMethod,
    rest: Seq<char>,
    p: Payload,
) -> bool {
    match cfg.tenant_id {
        Some(t) => r matches Ok(route) && is_route(route, m, tenant_path(t@, rest), p),
        None => r matches Err(ClientError::Builder(m)) && m@ == "no tenant id configured on client"@,
    }
}

/// The route under an index of the configured tenant, or a builder error
/// when no tenant is configured.
pub open spec fn index_scoped(
    cfg: ClientConfig,
    r: Result<Route, ClientError>,
    m: HttpMethod,
    index: Seq<char>,
    rest: Seq<char>,
    p: Payload,
) -> bool {
    match cfg.tenant_id {
        Some(t) => r matches Ok(route) && is_route(route, m, index_path(t@, index, rest), p),
        None => r matches Err(ClientError::Builder(m)) && m@ == "no tenant id configured on client"@,
    }
}

/// The decimal numeral of a signed integer.
pub open spec fn signed_decimal(n: int) -> Seq<char> {
    if n < 0 {
        "-"@ + decimal((-n) as nat)
    } else {
        decimal(n as nat)
    }
}

fn push_signed(out: &mut String, n: i64)
    ensures
        final(out)@ == old(out)@ + signed_decimal(n as int),
{
    if n < 0 {
        push_str(out, "-");
        let m: i128 = -(n as i128);
        push_decimal(out, m as u128);
        proof {
            assert(final(out)@ =~= old(out)@ + signed_decimal(n as int));
        }
    } else {
        push_decimal(out, n as u128);
    }
}

fn route(method: HttpMethod, path: String, payload: Payload) -> (r: Route)
    ensures
        is_route(r, method, path@, payload),
{
    Route { method, path, payload }
}

fn fixed(method: HttpMethod, path: &str, payload: Payload) -> (r: Route)
    ensures
        is_route(r, method, path@, payload),
{
    route(method, string_of(path), payload)
}

fn tenant_route(cfg: &ClientConfig, method: HttpMethod, rest: &str, payload: Payload) -> (r: Result<
    Route,
    ClientError,
>)
    ensures
        tenant_scoped(*cfg, r, method, rest@, payload),
{
    let t = cfg.require_tenant()?;
    Ok(route(method, build_tenant_path(t, rest), payload))
}

fn build_tenant_path(tenant: &str, rest: &str) -> (r: String)
    ensures
        r@ == tenant_path(tenant@, rest@),
{
    let mut p = string_of("v1/tenants/");
    push_str(&mut p, tenant);
    push_str(&mut p, rest);
    p
}

fn build_index_path(tenant: &str, index: &str, rest: &str) -> (r: String)
    ensures
        r@ == index_path(tenant@, index@, rest@),
{
    let mut p = string_of("v1/tenants/");
    push_str(&mut p, tenant);
    push_str(&mut p, "/indexes/");
    push_str(&mut p, index);
    push_str(&mut p, rest);
    p
}

fn index_route(cfg: &ClientConfig, method: HttpMethod, index_id: &str, rest: &str, payload: Payload) -> (r:
    Result<Route, ClientError>)
    ensures
        index_scoped(*cfg, r, method, index_id@, rest@, payload),
{
    let t = cfg.require_tenant()?;
    Ok(route(method, build_index_path(t, index_id, rest), payload))
}

// ---------------------------------------------------------------------
// Health and cluster
// ---------------------------------------------------------------------

/// `GET /health`.
pub fn health() -> (r: Route)
    ensures
        is_route(r, HttpMethod::Get, "health"@, Payload::Empty),
{
    fixed(HttpMethod::Get, "health", Payload::Empty)
}

/// `GET /ready`.
pub fn ready() -> (r: Route)
    ensures
        is_route(r, HttpMethod::Get, "ready"@, Payload::Empty),
{
    fixed(HttpMethod::Get, "ready", Payload::Empty)
}

/// `GET /version`, the probe for a server version.
pub fn version() -> (r: Route)
    ensures
        is_route(r, HttpMethod::Get, "version"@, Payload::Empty),
{
    fixed(HttpMethod::Get, "version", Payload::Empty)
}

/// `GET /v1/cluster/nodes` (admin-only).
pub fn get_cluster_nodes() -> (r: Route)
    ensures
        is_route(r, HttpMethod::Get, "v1/cluster/nodes"@, Payload::Empty),
{
    fixed(HttpMethod::Get, "v1/cluster/nodes", Payload::Empty)
}

/// `GET /v1/cluster/shards` (admin-only).
pub fn get_cluster_shards() -> (r: Route)
    ensures
        is_route(r, HttpMethod::Get, "v1/cluster/shards"@, Payload::Empty),
{
    fixed(HttpMethod::Get, "v1/cluster/shards", Payload::Empty)
}

/// `GET /v1/cluster/health` (unauthenticated liveness probe).
pub fn get_cluster_health() -> (r: Route)
    ensures
        is_route(r, HttpMethod::Get, "v1/cluster/health"@, Payload::Empty),
{
    fixed(HttpMethod::Get, "v1/cluster/health", Payload::Empty)
}

// ---------------------------------------------------------------------
// Tenants
// ---------------------------------------------------------------------

/// `GET /v1/tenants`: every tenant the caller can see.
pub fn list_tenants() -> (r: Route)
    ensures
        is_route(r, HttpMethod::Get, "v1/tenants"@, Payload::Empty),
{
    fixed(HttpMethod::Get, "v1/tenants", Payload::Empty)
}

/// `POST /v1/tenants` with the request body.
pub fn create_tenant() -> (r: Route)
    ensures
        is_route(r, HttpMethod::Post, "v1/tenants"@, Payload::Json),
{
    fixed(HttpMethod::Post, "v1/tenants", Payload::Json)
}

/// `GET /v1/tenants/{tenant_id}`.
pub fn get_tenant(tenant_id: &str) -> (r: Route)
    ensures
        is_route(r, HttpMethod::Get, tenant_path(tenant_id@, Seq::empty()), Payload::Empty),
{
    let r = route(HttpMethod::Get, build_tenant_path(tenant_id, ""), Payload::Empty);
    proof {
        assert(tenant_path(tenant_id@, ""@) =~= tenant_path(tenant_id@, Seq::empty())) by {
            reveal_strlit("");
        }
    }
    r
}

/// `DELETE /v1/tenants/{tenant_id}`: removes the tenant and its indexes.
pub fn delete_tenant(tenant_id: &str) -> (r: Route)
    ensures
        is_route(r, HttpMethod::Delete, tenant_path(tenant_id@, Seq::empty()), Payload::Empty),
{
    let r = route(HttpMethod::Delete, build_tenant_path(tenant_id, ""), Payload::Empty);
    proof {
        assert(tenant_path(tenant_id@, ""@) =~= tenant_path(tenant_id@, Seq::empty())) by {
            reveal_strlit("");
        }
    }
    r
}

// ---------------------------------------------------------------------
// Indexes
// ---------------------------------------------------------------------

/// `GET /v1/tenants/{tenant_id}/indexes` for an explicit tenant.
pub fn list_indexes_in_tenant(tenant_id: &str) -> (r: Route)
    ensures
        is_route(r, HttpMethod::Get, tenant_path(tenant_id@, "/indexes"@), Payload::Empty),
{
    route(HttpMethod::Get, build_tenant_path(tenant_id, "/indexes"), Payload::Empty)
}

/// `GET /v1/tenants/{tenant}/indexes` for the configured tenant.
pub fn list_indexes(cfg: &ClientConfig) -> (r: Result<Route, ClientError>)
    ensures
        tenant_scoped(*cfg, r, HttpMethod::Get, "/indexes"@, Payload::Empty),
{
    let t = cfg.require_tenant()?;
    Ok(list_indexes_in_tenant(t))
}

/// `POST /v1/tenants/{tenant}/indexes` with the request body.
pub fn create_index(cfg: &ClientConfig) -> (r: Result<Route, ClientError>)
    ensures
        tenant_scoped(*cfg, r, HttpMethod::Post, "/indexes"@, Payload::Json),
{
    tenant_route(cfg, HttpMethod::Post, "/indexes", Payload::Json)
}

/// `GET /v1/tenants/{tenant}/indexes/{index_id}`.
pub fn get_index(cfg: &ClientConfig, index_id: &str) -> (r: Result<Route, ClientError>)
    ensures
        index_scoped(*cfg, r, HttpMethod::Get, index_id@, ""@, Payload::Empty),
{
    index_route(cfg, HttpMethod::Get, index_id, "", Payload::Empty)
}

/// `DELETE /v1/tenants/{tenant}/indexes/{index_id}`.
pub fn delete_index(cfg: &ClientConfig, index_id: &str) -> (r: Result<Route, ClientError>)
    ensures
        index_scoped(*cfg, r, HttpMethod::Delete, index_id@, ""@, Payload::Empty),
{
    index_route(cfg, HttpMethod::Delete, index_id, "", Payload::Empty)
}

/// `PATCH /v1/tenants/{tenant}/indexes/{index_id}` with the update body
/// (partial merge).
pub fn update_index(cfg: &ClientConfig, index_id: &str) -> (r: Result<Route, ClientError>)
    ensures
        index_scoped(*cfg, r, HttpMethod::Patch, index_id@, ""@, Payload::Json),
{
    index_route(cfg, HttpMethod::Patch, index_id, "", Payload::Json)
}

/// `GET /v1/tenants/{tenant}/indexes/{index_id}/status`.
pub fn get_index_status(cfg: &ClientConfig, index_id: &str) -> (r: Result<Route, ClientError>)
    ensures
        index_scoped(*cfg, r, HttpMethod::Get, index_id@, "/status"@, Payload::Empty),
{
    index_route(cfg, HttpMethod::Get, index_id, "/status", Payload::Empty)
}

/// `GET /v1/tenants/{tenant}/indexes/{index_id}/live-stats`.
pub fn get_live_stats(cfg: &ClientConfig, index_id: &str) -> (r: Result<Route, ClientError>)
    ensures
        index_scoped(*cfg, r, HttpMethod::Get, index_id@, "/live-stats"@, Payload::Empty),
{
    index_route(cfg, HttpMethod::Get, index_id, "/live-stats", Payload::Empty)
}

/// `POST /v1/tenants/{tenant}/indexes/{index_id}/clear` with `{}`.
pub fn clear_index(cfg: &ClientConfig, index_id: &str) -> (r: Result<Route, ClientError>)
    ensures
        index_scoped(*cfg, r, HttpMethod::Post, index_id@, "/clear"@, Payload::EmptyObject),
{
    index_route(cfg, HttpMethod::Post, index_id, "/clear", Payload::EmptyObject)
}

/// `POST /v1/tenants/{tenant}/indexes/{index_id}/build` with `{}` (deprecated).
pub fn build_index(cfg: &ClientConfig, index_id: &str) -> (r: Result<Route, ClientError>)
    ensures
        index_scoped(*cfg, r, HttpMethod::Post, index_id@, "/build"@, Payload::EmptyObject),
{
    index_route(cfg, HttpMethod::Post, index_id, "/build", Payload::EmptyObject)
}

/// `POST /v1/tenants/{tenant}/indexes/{index_id}/compact` with `{}`; a
/// compaction already running answers 409 (a conflict).
pub fn compact_index(cfg: &ClientConfig, index_id: &str) -> (r: Result<Route, ClientError>)
    ensures
        index_scoped(*cfg, r, HttpMethod::Post, index_id@, "/compact"@, Payload::EmptyObject),
{
    index_route(cfg, HttpMethod::Post, index_id, "/compact", Payload::EmptyObject)
}

/// `POST /v1/tenants/{tenant}/indexes/{index_id}/flush` with `{}`:
/// persists the in-memory delta and builds any deferred graph.
pub fn flush_index(cfg: &ClientConfig, index_id: &str) -> (r: Result<Route, ClientError>)
    ensures
        index_scoped(*cfg, r, HttpMethod::Post, index_id@, "/flush"@, Payload::EmptyObject),
{
    index_route(cfg, HttpMethod::Post, index_id, "/flush", Payload::EmptyObject)
}

/// `POST /v1/tenants/{tenant}/indexes/{index_id}/rebuild-graph` with `{}`:
/// in-place rebuild of the delta graph.
pub fn rebuild_graph(cfg: &ClientConfig, index_id: &str) -> (r: Result<Route, ClientError>)
    ensures
        index_scoped(*cfg, r, HttpMethod::Post, index_id@, "/rebuild-graph"@, Payload::EmptyObject),
{
    index_route(cfg, HttpMethod::Post, index_id, "/rebuild-graph", Payload::EmptyObject)
}

// ---------------------------------------------------------------------
// Documents and chunks
// ---------------------------------------------------------------------

/// `POST /v1/tenants/{tenant}/indexes/{index_id}/documents` with the documents.
pub fn add_documents(cfg: &ClientConfig, index_id: &str) -> (r: Result<Route, ClientError>)
    ensures
        index_scoped(*cfg, r, HttpMethod::Post, index_id@, "/documents"@, Payload::Json),
{
    index_route(cfg, HttpMethod::Post, index_id, "/documents", Payload::Json)
}

/// `POST /v1/tenants/{tenant}/indexes/{index_id}/import` with the documents;
/// processing happens server-side in the background.
pub fn import_documents(cfg: &ClientConfig, index_id: &str) -> (r: Result<Route, ClientError>)
    ensures
        index_scoped(*cfg, r, HttpMethod::Post, index_id@, "/import"@, Payload::Json),
{
    index_route(cfg, HttpMethod::Post, index_id, "/import", Payload::Json)
}

/// `GET /v1/tenants/{tenant}/indexes/{index_id}/pending`.
pub fn get_pending_status(cfg: &ClientConfig, index_id: &str) -> (r: Result<Route, ClientError>)
    ensures
        index_scoped(*cfg, r, HttpMethod::Get, index_id@, "/pending"@, Payload::Empty),
{
    index_route(cfg, HttpMethod::Get, index_id, "/pending", Payload::Empty)
}

/// `POST /v1/tenants/{tenant}/indexes/{index_id}/process` with `{}`.
pub fn process_pending(cfg: &ClientConfig, index_id: &str) -> (r: Result<Route, ClientError>)
    ensures
        index_scoped(*cfg, r, HttpMethod::Post, index_id@, "/process"@, Payload::EmptyObject),
{
    index_route(cfg, HttpMethod::Post, index_id, "/process", Payload::EmptyObject)
}

/// `DELETE /v1/tenants/{tenant}/indexes/{index_id}/pending`.
pub fn clear_pending(cfg: &ClientConfig, index_id: &str) -> (r: Result<Route, ClientError>)
    ensures
        index_scoped(*cfg, r, HttpMethod::Delete, index_id@, "/pending"@, Payload::Empty),
{
    index_route(cfg, HttpMethod::Delete, index_id, "/pending", Payload::Empty)
}

fn index_item_route(
    cfg: &ClientConfig,
    method: HttpMethod,
    index_id: &str,
    kind: &str,
    id: i64,
) -> (r: Result<Route, ClientError>)
    ensures
        index_scoped(*cfg, r, method, index_id@, kind@ + signed_decimal(id as int), Payload::Empty),
{
    let t = cfg.require_tenant()?;
    let mut p = build_index_path(t, index_id, kind);
    push_signed(&mut p, id);
    proof {
        assert(p@ =~= index_path(t@, index_id@, kind@ + signed_decimal(id as int)));
    }
    Ok(route(method, p, Payload::Empty))
}

/// `GET /v1/tenants/{tenant}/indexes/{index_id}/documents/{doc_id}`.
pub fn get_document(cfg: &ClientConfig, index_id: &str, doc_id: i64) -> (r: Result<Route, ClientError>)
    ensures
        index_scoped(
            *cfg,
            r,
            HttpMethod::Get,
            index_id@,
            "/documents/"@ + signed_decimal(doc_id as int),
            Payload::Empty,
        ),
{
    index_item_route(cfg, HttpMethod::Get, index_id, "/documents/", doc_id)
}

/// `DELETE /v1/tenants/{tenant}/indexes/{index_id}/documents/{doc_id}`.
pub fn delete_document(cfg: &ClientConfig, index_id: &str, doc_id: i64) -> (r: Result<
    Route,
    ClientError,
>)
    ensures
        index_scoped(
            *cfg,
            r,
            HttpMethod::Delete,
            index_id@,
            "/documents/"@ + signed_decimal(doc_id as int),
            Payload::Empty,
        ),
{
    index_item_route(cfg, HttpMethod::Delete, index_id, "/documents/", doc_id)
}

/// `GET /v1/tenants/{tenant}/indexes/{index_id}/chunks/{chunk_id}`: one
/// chunk by its numeric id.
pub fn get_chunk(cfg: &ClientConfig, index_id: &str, chunk_id: i64) -> (r: Result<Route, ClientError>)
    ensures
        index_scoped(
            *cfg,
            r,
            HttpMethod::Get,
            index_id@,
            "/chunks/"@ + signed_decimal(chunk_id as int),
            Payload::Empty,
        ),
{
    index_item_route(cfg, HttpMethod::Get, index_id, "/chunks/", chunk_id)
}

/// `DELETE /v1/tenants/{tenant}/indexes/{index_id}/documents` with
/// `{"document_ids": ids}`: bulk delete by numeric document id.
pub fn bulk_delete_documents(cfg: &ClientConfig, index_id: &str, ids: Vec<i64>) -> (r: Result<
    (Route, BulkDeleteDocumentsRequest),
    ClientError,
>)
    ensures
        index_scoped(
            *cfg,
            match r {
                Ok(p) => Ok(p.0),
                Err(e) => Err(e),
            },
            HttpMethod::Delete,
            index_id@,
            "/documents"@,
            Payload::Json,
        ),
        r matches Ok(p) ==> p.1.document_ids@ == ids@,
{
    let route = index_route(cfg, HttpMethod::Delete, index_id, "/documents", Payload::Json)?;
    Ok((route, BulkDeleteDocumentsRequest { document_ids: ids }))
}

/// `DELETE /v1/tenants/{tenant}/indexes/{index_id}/documents/by-external-id`
/// with `{"external_ids": ids}`.
pub fn bulk_delete_by_external_ids(cfg: &ClientConfig, index_id: &str, ids: Vec<String>) -> (r:
    Result<(Route, BulkDeleteByExternalIdsRequest), ClientError>)
    ensures
        index_scoped(
            *cfg,
            match r {
                Ok(p) => Ok(p.0),
                Err(e) => Err(e),
            },
            HttpMethod::Delete,
            index_id@,
            "/documents/by-external-id"@,
            Payload::Json,
        ),
        r matches Ok(p) ==> p.1.external_ids@ == ids@,
{
    let route = index_route(
        cfg,
        HttpMethod::Delete,
        index_id,
        "/documents/by-external-id",
        Payload::Json,
    )?;
    Ok((route, BulkDeleteByExternalIdsRequest { external_ids: ids }))
}

/// `DELETE /v1/tenants/{tenant}/indexes/{index_id}/chunks/0` with
/// `{"chunk_ids": chunk_ids}`: tombstones a batch of chunks in one call.
/// The server reads the ids from the body; the `0` in the path is a
/// placeholder.
pub fn delete_chunks(cfg: &ClientConfig, index_id: &str, chunk_ids: Vec<i64>) -> (r: Result<
    (Route, DeleteChunksRequest),
    ClientError,
>)
    ensures
        index_scoped(
            *cfg,
            match r {
                Ok(p) => Ok(p.0),
                Err(e) => Err(e),
            },
            HttpMethod::Delete,
            index_id@,
            "/chunks/0"@,
            Payload::Json,
        ),
        r matches Ok(p) ==> p.1.chunk_ids@ == chunk_ids@,
{
    let route = index_route(cfg, HttpMethod::Delete, index_id, "/chunks/0", Payload::Json)?;
    Ok((route, DeleteChunksRequest { chunk_ids }))
}

/// `PUT /v1/tenants/{tenant}/indexes/{index_id}/resources/{resource_id}`
/// with the resource: atomic create-or-replace.
pub fn upsert_resource(cfg: &ClientConfig, index_id: &str, resource_id: &str) -> (r: Result<
    Route,
    ClientError,
>)
    ensures
        index_scoped(
            *cfg,
            r,
            HttpMethod::Put,
            index_id@,
            "/resources/"@ + resource_id@,
            Payload::Json,
        ),
{
    let t = cfg.require_tenant()?;
    let mut p = build_index_path(t, index_id, "/resources/");
    push_str(&mut p, resource_id);
    proof {
        assert(p@ =~= index_path(t@, index_id@, "/resources/"@ + resource_id@));
    }
    Ok(route(HttpMethod::Put, p, Payload::Json))
}

/// The query of a document listing: `prefix` when non-empty, then
/// `cursor` when given, both percent-encoded.
pub open spec fn listing_query(prefix: Seq<char>, cursor: Option<Seq<char>>) -> Seq<char> {
    let p = if prefix.len() > 0 {
        "?prefix="@ + percent_encode(encode_utf8(prefix))
    } else {
        Seq::empty()
    };
    let sep = if prefix.len() > 0 {
        "&"@
    } else {
        "?"@
    };
    match cursor {
        Some(c) => p + sep + "cursor="@ + percent_encode(encode_utf8(c)),
        None => p,
    }
}

/// `GET /v1/tenants/{tenant}/indexes/{index_id}/documents`, one page of the
/// listing: filtered by external-id `prefix` when it is non-empty and
/// continuing from `cursor` when given.
pub fn list_documents_page(cfg: &ClientConfig, index_id: &str, prefix: &str, cursor: Option<&str>) -> (r:
    Result<Route, ClientError>)
    ensures
        index_scoped(
            *cfg,
            r,
            HttpMethod::Get,
            index_id@,
            "/documents"@ + listing_query(
                prefix@,
                match cursor {
                    Some(c) => Some(c@),
                    None => None,
                },
            ),
            Payload::Empty,
        ),
{
    let t = cfg.require_tenant()?;
    let mut p = build_index_path(t, index_id, "/documents");
    let ghost base = p@;
    let nonempty = !prefix.is_empty();
    if nonempty {
        push_str(&mut p, "?prefix=");
        let enc = urlencode(prefix);
        push_str(&mut p, enc.as_str());
    }
    if let Some(c) = cursor {
        if nonempty {
            push_str(&mut p, "&");
        } else {
            push_str(&mut p, "?");
        }
        push_str(&mut p, "cursor=");
        let enc = urlencode(c);
        push_str(&mut p, enc.as_str());
    }
    proof {
        let q = listing_query(
            prefix@,
            match cursor {
                Some(c) => Some(c@),
                None => None,
            },
        );
        assert(p@ =~= base + q);
        assert(index_path(t@, index_id@, "/documents"@ + q) =~= base + q);
    }
    Ok(route(HttpMethod::Get, p, Payload::Empty))
}

/// The query of an orphan sweep: `min_age` as a Go duration when the span
/// is non-zero, then `dry_run=true` when asked.
pub open spec fn cleanup_query(min_age: nat, dry_run: bool) -> Seq<char> {
    let a = if min_age != 0 {
        "?min_age="@ + go_duration(min_age)
    } else {
        Seq::empty()
    };
    let sep = if min_age != 0 {
        "&"@
    } else {
        "?"@
    };
    if dry_run {
        a + sep + "dry_run=true"@
    } else {
        a
    }
}

/// `POST /v1/admin/cleanup-orphans` with `{}` (admin-only): sweeps stale
/// compaction artifacts and pre-reembed snapshots. A zero `min_age` leaves
/// the server default (1 h) in force; `dry_run` only lists what would go.
pub fn cleanup_orphans(min_age: TimeSpan, dry_run: bool) -> (r: Route)
    ensures
        is_route(
            r,
            HttpMethod::Post,
            "v1/admin/cleanup-orphans"@ + cleanup_query(min_age@, dry_run),
            Payload::EmptyObject,
        ),
{
    let mut p = string_of("v1/admin/cleanup-orphans");
    let ghost base = p@;
    let zero = min_age.is_zero();
    if !zero {
        push_str(&mut p, "?min_age=");
        let d = format_duration(min_age);
        push_str(&mut p, d.as_str());
    }
    if dry_run {
        if zero {
            push_str(&mut p, "?");
        } else {
            push_str(&mut p, "&");
        }
        push_str(&mut p, "dry_run=true");
    }
    proof {
        assert(p@ =~= base + cleanup_query(min_age@, dry_run));
    }
    route(HttpMethod::Post, p, Payload::EmptyObject)
}

/// `POST /v1/tenants/{tenant}/indexes/{index_id}/gc` with `{}`: sweeps the
/// index's expired documents.
pub fn run_index_gc(cfg: &ClientConfig, index_id: &str) -> (r: Result<Route, ClientError>)
    ensures
        index_scoped(*cfg, r, HttpMethod::Post, index_id@, "/gc"@, Payload::EmptyObject),
{
    index_route(cfg, HttpMethod::Post, index_id, "/gc", Payload::EmptyObject)
}

/// `POST /v1/admin/gc` with `{}` (admin-only): sweeps expired documents
/// across every loaded index.
pub fn run_admin_gc() -> (r: Route)
    ensures
        is_route(r, HttpMethod::Post, "v1/admin/gc"@, Payload::EmptyObject),
{
    fixed(HttpMethod::Post, "v1/admin/gc", Payload::EmptyObject)
}

// ---------------------------------------------------------------------
// Search
// ---------------------------------------------------------------------

/// `POST /v1/tenants/{tenant}/indexes/{index_id}/search` with the query.
pub fn search(cfg: &ClientConfig, index_id: &str) -> (r: Result<Route, ClientError>)
    ensures
        index_scoped(*cfg, r, HttpMethod::Post, index_id@, "/search"@, Payload::Json),
{
    index_route(cfg, HttpMethod::Post, index_id, "/search", Payload::Json)
}

/// `v1/orgs/{org}{rest}`.
pub open spec fn org_path(org: Seq<char>, rest: Seq<char>) -> Seq<char> {
    "v1/orgs/"@ + org + rest
}

fn build_org_path(org: &str, rest: &str) -> (r: String)
    ensures
        r@ == org_path(org@, rest@),
{
    let mut p = string_of("v1/orgs/");
    push_str(&mut p, org);
    push_str(&mut p, rest);
    p
}

fn build_org_user_path(org: &str, user: &str, rest: &str) -> (r: String)
    ensures
        r@ == org_path(org@, "/users/"@ + user@ + rest@),
{
    let mut p = build_org_path(org, "/users/");
    push_str(&mut p, user);
    push_str(&mut p, rest);
    proof {
        assert(p@ =~= org_path(org@, "/users/"@ + user@ + rest@));
    }
    p
}

/// `POST /v1/orgs/{org_id}/users/{user_id}/search` with the query:
/// multi-source search across an org's indexes.
pub fn multi_search(org_id: &str, user_id: &str) -> (r: Route)
    ensures
        is_route(
            r,
            HttpMethod::Post,
            org_path(org_id@, "/users/"@ + user_id@ + "/search"@),
            Payload::Json,
        ),
{
    route(HttpMethod::Post, build_org_user_path(org_id, user_id, "/search"), Payload::Json)
}

// ---------------------------------------------------------------------
// Jobs
// ---------------------------------------------------------------------

/// `PATCH /v1/tenants/{tenant}/indexes/{index_id}/embedding-model` with
/// the new model: starts a hot model switch.
pub fn switch_embedding_model(cfg: &ClientConfig, index_id: &str) -> (r: Result<Route, ClientError>)
    ensures
        index_scoped(*cfg, r, HttpMethod::Patch, index_id@, "/embedding-model"@, Payload::Json),
{
    index_route(cfg, HttpMethod::Patch, index_id, "/embedding-model", Payload::Json)
}

/// `GET /v1/jobs/{job_id}`: polls one job.
pub fn get_job(job_id: &str) -> (r: Route)
    ensures
        is_route(r, HttpMethod::Get, "v1/jobs/"@ + job_id@, Payload::Empty),
{
    let mut p = string_of("v1/jobs/");
    push_str(&mut p, job_id);
    route(HttpMethod::Get, p, Payload::Empty)
}

/// `path`, followed by `?` and the filter's query when it has one.
pub open spec fn with_filter(path: Seq<char>, f: ListJobsFilter) -> Seq<char> {
    let q = join_pairs(filter_pairs(f));
    if q.len() == 0 {
        path
    } else {
        path + "?"@ + q
    }
}

fn filtered(path: String, filter: &ListJobsFilter) -> (r: String)
    ensures
        r@ == with_filter(path@, *filter),
{
    let mut query = String::new();
    push_filter(&mut query, filter);
    proof {
        assert(query@ =~= join_pairs(filter_pairs(*filter)));
    }
    if query.as_str().is_empty() {
        path
    } else {
        let mut p = path;
        push_str(&mut p, "?");
        push_str(&mut p, query.as_str());
        p
    }
}

/// `GET /v1/jobs`, with the filter as query (admin-only): jobs across every
/// tenant.
pub fn list_jobs(filter: &ListJobsFilter) -> (r: Route)
    ensures
        is_route(r, HttpMethod::Get, with_filter("v1/jobs"@, *filter), Payload::Empty),
{
    route(HttpMethod::Get, filtered(string_of("v1/jobs"), filter), Payload::Empty)
}

/// `GET /v1/tenants/{tenant_id}/jobs`, with the filter as query.
pub fn list_tenant_jobs(tenant_id: &str, filter: &ListJobsFilter) -> (r: Route)
    ensures
        is_route(
            r,
            HttpMethod::Get,
            with_filter(tenant_path(tenant_id@, "/jobs"@), *filter),
            Payload::Empty,
        ),
{
    route(HttpMethod::Get, filtered(build_tenant_path(tenant_id, "/jobs"), filter), Payload::Empty)
}

// ---------------------------------------------------------------------
// LLM settings (per org)
// ---------------------------------------------------------------------

/// `GET /v1/orgs/{org_id}/llm-settings`.
pub fn get_llm_settings(org_id: &str) -> (r: Route)
    ensures
        is_route(r, HttpMethod::Get, org_path(org_id@, "/llm-settings"@), Payload::Empty),
{
    route(HttpMethod::Get, build_org_path(org_id, "/llm-settings"), Payload::Empty)
}

/// `PATCH /v1/orgs/{org_id}/llm-settings` with the settings (partial merge).
pub fn update_llm_settings(org_id: &str) -> (r: Route)
    ensures
        is_route(r, HttpMethod::Patch, org_path(org_id@, "/llm-settings"@), Payload::Json),
{
    route(HttpMethod::Patch, build_org_path(org_id, "/llm-settings"), Payload::Json)
}

/// `DELETE /v1/orgs/{org_id}/llm-settings`: resets the settings to defaults.
pub fn delete_llm_settings(org_id: &str) -> (r: Route)
    ensures
        is_route(r, HttpMethod::Delete, org_path(org_id@, "/llm-settings"@), Payload::Empty),
{
    route(HttpMethod::Delete, build_org_path(org_id, "/llm-settings"), Payload::Empty)
}

// ---------------------------------------------------------------------
// API keys
// ---------------------------------------------------------------------

/// `POST /v1/tenants/{tenant}/api-keys` with the request: provisions a key.
pub fn create_api_key(cfg: &ClientConfig) -> (r: Result<Route, ClientError>)
    ensures
        tenant_scoped(*cfg, r, HttpMethod::Post, "/api-keys"@, Payload::Json),
{
    tenant_route(cfg, HttpMethod::Post, "/api-keys", Payload::Json)
}

/// `GET /v1/tenants/{tenant}/api-keys`.
pub fn list_api_keys(cfg: &ClientConfig) -> (r: Result<Route, ClientError>)
    ensures
        tenant_scoped(*cfg, r, HttpMethod::Get, "/api-keys"@, Payload::Empty),
{
    tenant_route(cfg, HttpMethod::Get, "/api-keys", Payload::Empty)
}

/// `DELETE /v1/tenants/{tenant}/api-keys/{key_id}`.
pub fn revoke_api_key(cfg: &ClientConfig, key_id: &str) -> (r: Result<Route, ClientError>)
    ensures
        tenant_scoped(*cfg, r, HttpMethod::Delete, "/api-keys/"@ + key_id@, Payload::Empty),
{
    let t = cfg.require_tenant()?;
    let mut p = build_tenant_path(t, "/api-keys/");
    push_str(&mut p, key_id);
    proof {
        assert(p@ =~= tenant_path(t@, "/api-keys/"@ + key_id@));
    }
    Ok(route(HttpMethod::Delete, p, Payload::Empty))
}

// ---------------------------------------------------------------------
// Org-scoped routes
// ---------------------------------------------------------------------

/// `POST /v1/orgs/{org_id}/documents` with the documents: unified ingestion
/// into the org's shared index or the user's personal one.
pub fn sync_documents(org_id: &str) -> (r: Route)
    ensures
        is_route(r, HttpMethod::Post, org_path(org_id@, "/documents"@), Payload::Json),
{
    route(HttpMethod::Post, build_org_path(org_id, "/documents"), Payload::Json)
}

/// `GET /v1/orgs/{org_id}/users/{user_id}/indexes`: a user's personal indexes.
pub fn list_user_indexes(org_id: &str, user_id: &str) -> (r: Route)
    ensures
        is_route(
            r,
            HttpMethod::Get,
            org_path(org_id@, "/users/"@ + user_id@ + "/indexes"@),
            Payload::Empty,
        ),
{
    route(HttpMethod::Get, build_org_user_path(org_id, user_id, "/indexes"), Payload::Empty)
}

/// `GET /v1/orgs/{org_id}/shared/indexes`: the org's shared indexes.
pub fn list_shared_indexes(org_id: &str) -> (r: Route)
    ensures
        is_route(r, HttpMethod::Get, org_path(org_id@, "/shared/indexes"@), Payload::Empty),
{
    route(HttpMethod::Get, build_org_path(org_id, "/shared/indexes"), Payload::Empty)
}

} // verus!
