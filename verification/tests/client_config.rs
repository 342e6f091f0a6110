use graphann::config::{default_user_agent, CacheConfig, ClientBuilder, ClientConfig};
use graphann::error::ClientError;
use graphann::request::{prepare_body, HttpMethod, GZIP_THRESHOLD_BYTES};
use graphann::time::TimeSpan;

fn builder() -> ClientBuilder {
    ClientBuilder::new("graphann-rust/test".to_string())
}

#[test]
fn url_join_handles_trailing_slash() {
    let config = builder().base_url("https://api.example.test/v1").unwrap().into_config();
    let url = config.url("health").unwrap();
    assert_eq!(url.as_str(), "https://api.example.test/v1/health");
}

#[test]
fn url_join_strips_leading_slashes_and_keeps_directory_base() {
    let config = builder().base_url("https://api.example.test/v1/").unwrap().into_config();
    assert_eq!(config.url("//v1/tenants").unwrap(), "https://api.example.test/v1/v1/tenants");
    let root = builder().base_url("http://localhost:38888").unwrap().into_config();
    assert_eq!(root.url("/health").unwrap(), "http://localhost:38888/health");
    assert_eq!(
        root.url("v1/jobs?limit=5").unwrap(),
        "http://localhost:38888/v1/jobs?limit=5"
    );
}

#[test]
fn base_url_is_kept_normalised() {
    let c = builder().base_url("HTTP://API.Example.TEST").unwrap().into_config();
    assert_eq!(c.base_url, "http://api.example.test/");
}

#[test]
fn base_url_rejects_relative_urls() {
    assert!(matches!(builder().base_url("not a url"), Err(ClientError::Url(_))));
    assert!(matches!(builder().base_url("/relative"), Err(ClientError::Url(_))));
}

#[test]
fn defaults_match_documentation() {
    let c = builder().into_config();
    assert_eq!(c.base_url, "http://localhost:38888/");
    assert_eq!(c.tenant_id, None);
    assert_eq!(c.api_key, None);
    assert_eq!(c.timeout, TimeSpan::from_secs(30));
    assert_eq!(c.connect_timeout, TimeSpan::from_secs(10));
    assert_eq!(c.max_retries, 3);
    assert_eq!(c.retry_base, TimeSpan::from_millis(200));
    assert_eq!(c.retry_cap, TimeSpan::from_secs(20));
    assert!(!c.https_only);
    assert!(c.cache.is_none());
    assert!(c.singleflight);
    assert!(!c.compress_requests);
    assert_eq!(c.user_agent, "graphann-rust/test");
}

#[test]
fn builder_setters_update_one_setting_each() {
    let c = builder()
        .api_key("t_x".to_string(), "ak_secret".to_string())
        .timeout(TimeSpan::from_secs(5))
        .connect_timeout(TimeSpan::from_secs(1))
        .max_retries(7)
        .retry_base(TimeSpan::from_millis(1))
        .retry_cap(TimeSpan::from_millis(2))
        .https_only(true)
        .compress_requests(true)
        .singleflight(false)
        .cache(CacheConfig::default())
        .user_agent("custom".to_string())
        .into_config();
    assert_eq!(c.tenant_id.as_deref(), Some("t_x"));
    assert_eq!(c.api_key.as_deref(), Some("ak_secret"));
    assert_eq!(c.timeout, TimeSpan::from_secs(5));
    assert_eq!(c.connect_timeout, TimeSpan::from_secs(1));
    assert_eq!(c.max_retries, 7);
    assert_eq!(c.retry_base, TimeSpan::from_millis(1));
    assert_eq!(c.retry_cap, TimeSpan::from_millis(2));
    assert!(c.https_only);
    assert!(c.compress_requests);
    assert!(!c.singleflight);
    let cache = c.cache.unwrap();
    assert_eq!(cache.capacity(), 256);
    assert_eq!(cache.ttl(), TimeSpan::from_secs(60));
    assert_eq!(c.user_agent, "custom");
}

#[test]
fn cache_config_needs_capacity() {
    assert!(CacheConfig::new(0, TimeSpan::from_secs(1)).is_none());
    let c = CacheConfig::new(8, TimeSpan::from_secs(5)).unwrap();
    assert_eq!(c.capacity(), 8);
    assert_eq!(c.ttl(), TimeSpan::from_secs(5));
}

#[test]
fn with_tenant_id_changes_only_the_tenant() {
    let c = builder().api_key("t_a".to_string(), "ak".to_string()).max_retries(9).into_config();
    let d = c.with_tenant_id("t_b".to_string());
    assert_eq!(d.tenant_id.as_deref(), Some("t_b"));
    assert_eq!(d.api_key.as_deref(), Some("ak"));
    assert_eq!(d.max_retries, 9);
    assert_eq!(c.tenant_id.as_deref(), Some("t_a"));
}

#[test]
fn require_tenant_reports_builder_error() {
    let c = builder().into_config();
    match c.require_tenant() {
        Err(ClientError::Builder(m)) => assert_eq!(m, "no tenant id configured on client"),
        other => panic!("unexpected {other:?}"),
    }
    let c = builder().api_key("t_test".to_string(), "ak_test".to_string()).into_config();
    assert_eq!(c.require_tenant().unwrap(), "t_test");
}

#[test]
fn request_headers_carry_credentials_extras_and_encoding() {
    let c = builder()
        .api_key("t_test".to_string(), "ak_test".to_string())
        .header("x-canary".to_string(), b"blue".to_vec())
        .header("x-trace".to_string(), b"1".to_vec())
        .into_config();
    let pair = |n: &str, v: &str| (n.to_string(), v.as_bytes().to_vec());
    assert_eq!(
        c.request_headers(),
        vec![
            pair("X-Tenant-ID", "t_test"),
            pair("X-API-Key", "ak_test"),
            pair("x-canary", "blue"),
            pair("x-trace", "1"),
            pair("Accept-Encoding", "gzip"),
        ]
    );
    assert_eq!(builder().into_config().request_headers(), vec![pair("Accept-Encoding", "gzip")]);
}

#[test]
fn setting_a_header_again_replaces_it_in_place() {
    let c = builder()
        .header("x-a".to_string(), b"1".to_vec())
        .header("x-b".to_string(), b"2".to_vec())
        .header("x-a".to_string(), b"3".to_vec())
        .into_config();
    assert_eq!(
        c.extra_headers,
        vec![("x-a".to_string(), b"3".to_vec()), ("x-b".to_string(), b"2".to_vec())]
    );
    // The extra headers survive a tenant switch.
    let d = c.with_tenant_id("t_other".to_string());
    assert_eq!(d.extra_headers, c.extra_headers);
}

#[test]
fn transport_settings_are_hardened() {
    let c: ClientConfig = builder().https_only(true).into_config();
    let t = c.transport();
    assert_eq!(t.timeout, TimeSpan::from_secs(30));
    assert_eq!(t.connect_timeout, TimeSpan::from_secs(10));
    assert_eq!(t.pool_idle_timeout, Some(TimeSpan::from_secs(90)));
    assert_eq!(t.pool_max_idle_per_host, 32);
    assert!(t.tcp_nodelay);
    assert!(t.https_only);
    assert_eq!(t.user_agent, "graphann-rust/test");
}

#[test]
fn user_agent_format() {
    assert_eq!(
        default_user_agent("0.7.0", "unknown", "linux", "x86_64"),
        "graphann-rust/0.7.0 (rustc/unknown; linux/x86_64)"
    );
}

#[test]
fn default_client_does_not_gzip_large_request_bodies() {
    let c = builder().into_config();
    let raw = vec![b'a'; 80 * 1024];
    let p = prepare_body(HttpMethod::Post, Some(raw.clone()), c.compress_requests).unwrap();
    assert!(p.json_content_type);
    assert!(!p.gzip_encoded);
    assert_eq!(p.bytes, Some(raw));
}

#[test]
fn compress_requests_opt_in_sets_gzip_header() {
    let raw = vec![b'a'; GZIP_THRESHOLD_BYTES];
    let p = prepare_body(HttpMethod::Post, Some(raw.clone()), true).unwrap();
    assert!(p.gzip_encoded);
    assert!(p.json_content_type);
    let bytes = p.bytes.unwrap();
    assert_eq!(&bytes[..2], &[0x1f, 0x8b]);
    assert_ne!(bytes, raw);
}

#[test]
fn compress_requests_opt_in_skips_small_bodies() {
    let raw = vec![b'a'; GZIP_THRESHOLD_BYTES - 1];
    let p = prepare_body(HttpMethod::Post, Some(raw.clone()), true).unwrap();
    assert!(!p.gzip_encoded);
    assert_eq!(p.bytes, Some(raw));
}

#[test]
fn bodiless_mutations_still_declare_json() {
    for m in [HttpMethod::Post, HttpMethod::Put, HttpMethod::Patch, HttpMethod::Delete] {
        let p = prepare_body(m, None, false).unwrap();
        assert!(p.json_content_type);
        assert!(p.bytes.is_none());
    }
    let p = prepare_body(HttpMethod::Get, None, true).unwrap();
    assert!(!p.json_content_type);
}
