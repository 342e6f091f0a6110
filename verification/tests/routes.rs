use graphann::config::{ClientBuilder, ClientConfig};
use graphann::error::ClientError;
use graphann::request::HttpMethod;
use graphann::routes::{self, Payload, Route};
use graphann::time::TimeSpan;
use graphann::types::{JobStatus, ListJobsFilter};

fn config() -> ClientConfig {
    ClientBuilder::new("ua".to_string())
        .api_key("t_test".to_string(), "ak_test".to_string())
        .into_config()
}

fn check(r: Route, method: HttpMethod, path: &str, payload: Payload) {
    assert_eq!(r.method, method);
    assert_eq!(r.path, path);
    assert_eq!(r.payload, payload);
}

#[test]
fn fixed_routes() {
    check(routes::health(), HttpMethod::Get, "health", Payload::Empty);
    check(routes::ready(), HttpMethod::Get, "ready", Payload::Empty);
    check(routes::version(), HttpMethod::Get, "version", Payload::Empty);
    check(routes::get_cluster_nodes(), HttpMethod::Get, "v1/cluster/nodes", Payload::Empty);
    check(routes::get_cluster_shards(), HttpMethod::Get, "v1/cluster/shards", Payload::Empty);
    check(routes::get_cluster_health(), HttpMethod::Get, "v1/cluster/health", Payload::Empty);
    check(routes::list_tenants(), HttpMethod::Get, "v1/tenants", Payload::Empty);
    check(routes::create_tenant(), HttpMethod::Post, "v1/tenants", Payload::Json);
    check(routes::get_tenant("missing"), HttpMethod::Get, "v1/tenants/missing", Payload::Empty);
    check(routes::delete_tenant("t_1"), HttpMethod::Delete, "v1/tenants/t_1", Payload::Empty);
    check(routes::run_admin_gc(), HttpMethod::Post, "v1/admin/gc", Payload::EmptyObject);
    check(routes::get_job("job_demo"), HttpMethod::Get, "v1/jobs/job_demo", Payload::Empty);
}

#[test]
fn index_routes_use_the_configured_tenant() {
    let c = config();
    let p = "v1/tenants/t_test/indexes/i_abc";
    check(routes::create_index(&c).unwrap(), HttpMethod::Post, "v1/tenants/t_test/indexes", Payload::Json);
    check(routes::list_indexes(&c).unwrap(), HttpMethod::Get, "v1/tenants/t_test/indexes", Payload::Empty);
    check(routes::get_index(&c, "i_abc").unwrap(), HttpMethod::Get, p, Payload::Empty);
    check(routes::delete_index(&c, "i_abc").unwrap(), HttpMethod::Delete, p, Payload::Empty);
    check(routes::update_index(&c, "i_abc").unwrap(), HttpMethod::Patch, p, Payload::Json);
    check(routes::get_index_status(&c, "i_abc").unwrap(), HttpMethod::Get, &format!("{p}/status"), Payload::Empty);
    check(routes::get_live_stats(&c, "i_abc").unwrap(), HttpMethod::Get, &format!("{p}/live-stats"), Payload::Empty);
    check(routes::clear_index(&c, "i_abc").unwrap(), HttpMethod::Post, &format!("{p}/clear"), Payload::EmptyObject);
    check(routes::build_index(&c, "i_abc").unwrap(), HttpMethod::Post, &format!("{p}/build"), Payload::EmptyObject);
    check(routes::compact_index(&c, "i_abc").unwrap(), HttpMethod::Post, &format!("{p}/compact"), Payload::EmptyObject);
    check(routes::flush_index(&c, "i_abc").unwrap(), HttpMethod::Post, &format!("{p}/flush"), Payload::EmptyObject);
    check(routes::rebuild_graph(&c, "i_abc").unwrap(), HttpMethod::Post, &format!("{p}/rebuild-graph"), Payload::EmptyObject);
    check(routes::add_documents(&c, "i_abc").unwrap(), HttpMethod::Post, &format!("{p}/documents"), Payload::Json);
    check(routes::import_documents(&c, "i_abc").unwrap(), HttpMethod::Post, &format!("{p}/import"), Payload::Json);
    check(routes::get_pending_status(&c, "i_abc").unwrap(), HttpMethod::Get, &format!("{p}/pending"), Payload::Empty);
    check(routes::process_pending(&c, "i_abc").unwrap(), HttpMethod::Post, &format!("{p}/process"), Payload::EmptyObject);
    check(routes::clear_pending(&c, "i_abc").unwrap(), HttpMethod::Delete, &format!("{p}/pending"), Payload::Empty);
    check(routes::get_document(&c, "i_abc", 7).unwrap(), HttpMethod::Get, &format!("{p}/documents/7"), Payload::Empty);
    check(routes::delete_document(&c, "i_abc", -3).unwrap(), HttpMethod::Delete, &format!("{p}/documents/-3"), Payload::Empty);
    check(routes::get_chunk(&c, "i_abc", 42).unwrap(), HttpMethod::Get, &format!("{p}/chunks/42"), Payload::Empty);
    check(routes::upsert_resource(&c, "i_abc", "doc-1").unwrap(), HttpMethod::Put, &format!("{p}/resources/doc-1"), Payload::Json);
    check(routes::run_index_gc(&c, "i_abc").unwrap(), HttpMethod::Post, &format!("{p}/gc"), Payload::EmptyObject);
    check(routes::search(&c, "i_abc").unwrap(), HttpMethod::Post, &format!("{p}/search"), Payload::Json);
    check(routes::switch_embedding_model(&c, "i_abc").unwrap(), HttpMethod::Patch, &format!("{p}/embedding-model"), Payload::Json);
    check(routes::create_api_key(&c).unwrap(), HttpMethod::Post, "v1/tenants/t_test/api-keys", Payload::Json);
    check(routes::list_api_keys(&c).unwrap(), HttpMethod::Get, "v1/tenants/t_test/api-keys", Payload::Empty);
    check(routes::revoke_api_key(&c, "k1").unwrap(), HttpMethod::Delete, "v1/tenants/t_test/api-keys/k1", Payload::Empty);
}

#[test]
fn document_ids_cover_the_full_range() {
    let c = config();
    let r = routes::get_document(&c, "i", i64::MIN).unwrap();
    assert_eq!(r.path, "v1/tenants/t_test/indexes/i/documents/-9223372036854775808");
    let r = routes::get_chunk(&c, "i", i64::MAX).unwrap();
    assert_eq!(r.path, "v1/tenants/t_test/indexes/i/chunks/9223372036854775807");
}

#[test]
fn tenant_routes_need_a_tenant() {
    let c = ClientBuilder::new("ua".to_string()).into_config();
    assert!(matches!(routes::add_documents(&c, "i_abc"), Err(ClientError::Builder(_))));
    assert!(matches!(routes::list_api_keys(&c), Err(ClientError::Builder(_))));
    assert!(matches!(routes::list_documents_page(&c, "i", "", None), Err(ClientError::Builder(_))));
}

#[test]
fn delete_chunks_round_trip() {
    let c = config();
    let (r, body) = routes::delete_chunks(&c, "i_abc", vec![9, 10, 11]).unwrap();
    check(r, HttpMethod::Delete, "v1/tenants/t_test/indexes/i_abc/chunks/0", Payload::Json);
    assert_eq!(body.chunk_ids, vec![9, 10, 11]);
}

#[test]
fn bulk_deletes_carry_their_ids() {
    let c = config();
    let (r, body) = routes::bulk_delete_documents(&c, "i_abc", vec![1, 2]).unwrap();
    check(r, HttpMethod::Delete, "v1/tenants/t_test/indexes/i_abc/documents", Payload::Json);
    assert_eq!(body.document_ids, vec![1, 2]);
    let (r, body) =
        routes::bulk_delete_by_external_ids(&c, "i_abc", vec!["a".to_string()]).unwrap();
    check(
        r,
        HttpMethod::Delete,
        "v1/tenants/t_test/indexes/i_abc/documents/by-external-id",
        Payload::Json,
    );
    assert_eq!(body.external_ids, vec!["a".to_string()]);
}

#[test]
fn list_documents_pages_encode_prefix_and_cursor() {
    let c = config();
    let base = "v1/tenants/t_test/indexes/i_abc/documents";
    assert_eq!(routes::list_documents_page(&c, "i_abc", "", None).unwrap().path, base);
    assert_eq!(
        routes::list_documents_page(&c, "i_abc", "", Some("c1")).unwrap().path,
        format!("{base}?cursor=c1")
    );
    assert_eq!(
        routes::list_documents_page(&c, "i_abc", "a b", Some("x/y")).unwrap().path,
        format!("{base}?prefix=a%20b&cursor=x%2Fy")
    );
    assert_eq!(
        routes::list_documents_page(&c, "i_abc", "pre", None).unwrap().path,
        format!("{base}?prefix=pre")
    );
}

#[test]
fn cleanup_orphans_default_omits_query_params() {
    let r = routes::cleanup_orphans(TimeSpan::zero(), false);
    check(r, HttpMethod::Post, "v1/admin/cleanup-orphans", Payload::EmptyObject);
}

#[test]
fn cleanup_orphans_passes_min_age_and_dry_run() {
    let r = routes::cleanup_orphans(TimeSpan::from_secs(24 * 3600), true);
    assert_eq!(r.path, "v1/admin/cleanup-orphans?min_age=24h0m0s&dry_run=true");
    let r = routes::cleanup_orphans(TimeSpan::zero(), true);
    assert_eq!(r.path, "v1/admin/cleanup-orphans?dry_run=true");
    let r = routes::cleanup_orphans(TimeSpan::from_secs(300), false);
    assert_eq!(r.path, "v1/admin/cleanup-orphans?min_age=5m0s");
}

#[test]
fn list_jobs_filters_propagate_as_query() {
    let r = routes::list_jobs(&ListJobsFilter { limit: Some(50), ..Default::default() });
    check(r, HttpMethod::Get, "v1/jobs?limit=50", Payload::Empty);
    let r = routes::list_jobs(&ListJobsFilter::default());
    assert_eq!(r.path, "v1/jobs");
    let r = routes::list_tenant_jobs(
        "t_1",
        &ListJobsFilter { status: Some(JobStatus::Queued), ..Default::default() },
    );
    assert_eq!(r.path, "v1/tenants/t_1/jobs?status=queued");
    assert_eq!(routes::list_tenant_jobs("t_1", &ListJobsFilter::default()).path, "v1/tenants/t_1/jobs");
}

#[test]
fn org_routes() {
    check(routes::sync_documents("org_demo"), HttpMethod::Post, "v1/orgs/org_demo/documents", Payload::Json);
    check(
        routes::list_user_indexes("org_demo", "u_alice"),
        HttpMethod::Get,
        "v1/orgs/org_demo/users/u_alice/indexes",
        Payload::Empty,
    );
    check(routes::list_shared_indexes("org_demo"), HttpMethod::Get, "v1/orgs/org_demo/shared/indexes", Payload::Empty);
    check(
        routes::multi_search("org_demo", "u_alice"),
        HttpMethod::Post,
        "v1/orgs/org_demo/users/u_alice/search",
        Payload::Json,
    );
    check(routes::get_llm_settings("org_demo"), HttpMethod::Get, "v1/orgs/org_demo/llm-settings", Payload::Empty);
    check(routes::update_llm_settings("org_demo"), HttpMethod::Patch, "v1/orgs/org_demo/llm-settings", Payload::Json);
    check(routes::delete_llm_settings("org_demo"), HttpMethod::Delete, "v1/orgs/org_demo/llm-settings", Payload::Empty);
    check(routes::list_indexes_in_tenant("t_2"), HttpMethod::Get, "v1/tenants/t_2/indexes", Payload::Empty);
}
