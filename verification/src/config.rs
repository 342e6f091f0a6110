//! Client configuration and its builder.
use vstd::prelude::*;
use vstd::string::StrSliceExecFns;
use vstd::utf8::encode_utf8;

use crate::address::{endpoint, endpoint_url, parse_base_url, parsed_url};
use crate::error::ClientError;
use crate::text::{push_str, str_eq, string_of};
use crate::time::TimeSpan;

verus! {

/// Header used for tenant identification.
pub const TENANT_HEADER: &'static str = "X-Tenant-ID";

/// Header used for the API key.
pub const API_KEY_HEADER: &'static str = "X-API-Key";

/// Header to opt clients into receiving gzip in responses.
pub const ACCEPT_ENCODING: &'static str = "Accept-Encoding";

/// The base URL a default client targets.
pub const DEFAULT_BASE_URL: &'static str = "http://localhost:38888/";

/// Optional response cache settings.
#[derive(Debug, Clone, Copy)]
pub struct CacheConfig {
    capacity: usize,
    ttl: TimeSpan,
}

impl CacheConfig {
    #[verifier::type_invariant]
    spec fn holds_entries(self) -> bool {
        self.capacity > 0
    }

    /// Maximum number of entries before LRU eviction.
    pub closed spec fn spec_capacity(self) -> nat {
        self.capacity as nat
    }

    /// Time-to-live of each cached entry, in nanoseconds.
    pub closed spec fn spec_ttl(self) -> nat {
        self.ttl@
    }

    /// A cache of at most `capacity` entries that each live for `ttl`;
    /// `None` when `capacity` is zero.
    pub fn new(capacity: usize, ttl: TimeSpan) -> (r: Option<CacheConfig>)
        ensures
            r is Some <==> capacity > 0,
            r matches Some(c) ==> c.spec_capacity() == capacity && c.spec_ttl() == ttl@,
    {
        if capacity > 0 {
            Some(CacheConfig { capacity, ttl })
        } else {
            None
        }
    }

    /// Maximum number of entries before LRU eviction (never zero).
    pub fn capacity(&self) -> (r: usize)
        ensures
            r == self.spec_capacity(),
            r > 0,
    {
        proof {
            use_type_invariant(self);
        }
        self.capacity
    }

    /// Time-to-live for each cached entry.
    pub fn ttl(&self) -> (r: TimeSpan)
        ensures
            r@ == self.spec_ttl(),
    {
        self.ttl
    }
}

impl Default for CacheConfig {
    /// 256 entries, each kept for 60 seconds.
    fn default() -> (r: CacheConfig)
        ensures
            r.spec_capacity() == 256,
            r.spec_ttl() == 60_000_000_000,
    {
        CacheConfig { capacity: 256, ttl: TimeSpan::from_secs(60) }
    }
}

/// Configuration snapshot a client is built from.
pub struct ClientConfig {
    /// Server base URL, as the serialization of the parsed URL.
    pub base_url: String,
    /// Tenant the client acts for.
    pub tenant_id: Option<String>,
    /// API key sent with every request.
    pub api_key: Option<String>,
    /// Per-request timeout, end to end.
    pub timeout: TimeSpan,
    /// TCP connection timeout.
    pub connect_timeout: TimeSpan,
    /// Maximum number of retry attempts on retryable errors.
    pub max_retries: u32,
    /// Base for exponential back-off.
    pub retry_base: TimeSpan,
    /// Cap for exponential back-off.
    pub retry_cap: TimeSpan,
    /// Refuse to send requests over plain HTTP.
    pub https_only: bool,
    /// Response cache settings, when caching is on.
    pub cache: Option<CacheConfig>,
    /// Coalesce concurrent identical search calls.
    pub singleflight: bool,
    /// Extra headers sent with every request, as names and value bytes.
    pub extra_headers: Vec<(String, Vec<u8>)>,
    /// User-Agent sent with every request.
    pub user_agent: String,
    /// Gzip request bodies above the threshold. The graphann server does
    /// NOT decode gzipped request bodies, so this is off by default.
    pub compress_requests: bool,
}

/// Headers as names and value bytes.
pub open spec fn header_pairs(hs: Seq<(String, Vec<u8>)>) -> Seq<(Seq<char>, Seq<u8>)> {
    hs.map_values(|h: (String, Vec<u8>)| (h.0@, h.1@))
}

/// No header name occurs twice.
pub open spec fn names_unique(hs: Seq<(Seq<char>, Seq<u8>)>) -> bool {
    forall|i: int, j: int| 0 <= i < hs.len() && 0 <= j < hs.len() && i != j ==> hs[i].0 != hs[j].0
}

/// Entry `i` is the first one named `name`.
pub open spec fn first_named(hs: Seq<(Seq<char>, Seq<u8>)>, name: Seq<char>, i: int) -> bool {
    &&& 0 <= i < hs.len()
    &&& hs[i].0 == name
    &&& forall|k: int| 0 <= k < i ==> hs[k].0 != name
}

/// `hs` after setting header `name` to `value`: the entry of that name
/// takes the new value where it stands, or the header is appended.
pub open spec fn header_set(hs: Seq<(Seq<char>, Seq<u8>)>, name: Seq<char>, value: Seq<u8>) -> Seq<
    (Seq<char>, Seq<u8>),
> {
    if exists|i: int| first_named(hs, name, i) {
        hs.update(choose|i: int| first_named(hs, name, i), (name, value))
    } else {
        hs.push((name, value))
    }
}

/// Setting a header keeps names unique, leaves every other entry where
/// and as it was, and makes the header read back as the value set.
pub proof fn lemma_header_set(hs: Seq<(Seq<char>, Seq<u8>)>, name: Seq<char>, value: Seq<u8>)
    requires
        names_unique(hs),
    ensures
        names_unique(header_set(hs, name, value)),
        exists|i: int| first_named(header_set(hs, name, value), name, i)
            && #[trigger] header_set(hs, name, value)[i] == (name, value),
        forall|k: int|
            0 <= k < hs.len() && hs[k].0 != name ==> #[trigger] header_set(hs, name, value)[k]
                == hs[k],
{
    let after = header_set(hs, name, value);
    if exists|i: int| first_named(hs, name, i) {
        let i = choose|i: int| first_named(hs, name, i);
        assert(first_named(after, name, i) && after[i] == (name, value));
    } else {
        let i = hs.len() as int;
        assert forall|k: int| 0 <= k < i implies after[k].0 != name by {
            if after[k].0 == name {
                assert(hs[k].0 == name);
                assert forall|m: int| 0 <= m < k implies hs[m].0 != name by {
                    assert(hs[m].0 != hs[k].0);
                }
                assert(first_named(hs, name, k));
            }
        }
        assert(first_named(after, name, i) && after[i] == (name, value));
        assert forall|a: int, b: int|
            0 <= a < after.len() && 0 <= b < after.len() && a != b implies after[a].0
            != after[b].0 by {
            if a < i && b < i {
                assert(hs[a].0 != hs[b].0);
            }
        }
    }
}

/// The header pairs of `hs` with its names and values copied.
fn append_headers(out: &mut Vec<(String, Vec<u8>)>, hs: &Vec<(String, Vec<u8>)>)
    ensures
        header_pairs(final(out)@) == header_pairs(old(out)@) + header_pairs(hs@),
{
    let ghost start = header_pairs(out@);
    let mut i: usize = 0;
    while i < hs.len()
        invariant
            i <= hs@.len(),
            header_pairs(out@) == start + header_pairs(hs@.take(i as int)),
        decreases hs@.len() - i,
    {
        let name = hs[i].0.clone();
        let value = vstd::slice::slice_to_vec(hs[i].1.as_slice());
        let ghost before = out@;
        let ghost pair = (name@, value@);
        proof {
            assert(pair == (hs@[i as int].0@, hs@[i as int].1@));
        }
        out.push((name, value));
        proof {
            assert(header_pairs(out@) =~= header_pairs(before).push(pair));
            assert(hs@.take(i + 1) =~= hs@.take(i as int).push(hs@[i as int]));
            assert(header_pairs(hs@.take(i + 1)) =~= header_pairs(hs@.take(i as int)).push(pair));
            assert(header_pairs(out@) =~= start + header_pairs(hs@.take(i + 1)));
        }
        i = i + 1;
    }
    proof {
        assert(hs@.take(hs@.len() as int) =~= hs@);
    }
}

/// Where the first header named `name` stands, if any does.
fn position_named(hs: &Vec<(String, Vec<u8>)>, name: &str) -> (r: Option<usize>)
    ensures
        match r {
            Some(i) => first_named(header_pairs(hs@), name@, i as int),
            None => forall|j: int| !first_named(header_pairs(hs@), name@, j),
        },
{
    let ghost ps = header_pairs(hs@);
    let mut i: usize = 0;
    while i < hs.len()
        invariant
            i <= hs@.len(),
            ps == header_pairs(hs@),
            forall|k: int| 0 <= k < i ==> ps[k].0 != name@,
        decreases hs@.len() - i,
    {
        if str_eq(hs[i].0.as_str(), name) {
            return Some(i);
        }
        i = i + 1;
    }
    proof {
        assert forall|j: int| !first_named(ps, name@, j) by {
            if first_named(ps, name@, j) {
                assert(ps[j].0 != name@);
            }
        }
    }
    None
}

/// The User-Agent the SDK identifies itself with:
/// `graphann-rust/<version> (rustc/<rustc>; <os>/<arch>)`.
pub open spec fn user_agent_text(
    version: Seq<char>,
    rustc: Seq<char>,
    os: Seq<char>,
    arch: Seq<char>,
) -> Seq<char> {
    "graphann-rust/"@ + version + " (rustc/"@ + rustc + "; "@ + os + "/"@ + arch + ")"@
}

/// Builds the default User-Agent string from the SDK version, the rustc
/// version and the target's OS and architecture.
pub fn default_user_agent(version: &str, rustc: &str, os: &str, arch: &str) -> (r: String)
    ensures
        r@ == user_agent_text(version@, rustc@, os@, arch@),
{
    let mut s = string_of("graphann-rust/");
    push_str(&mut s, version);
    push_str(&mut s, " (rustc/");
    push_str(&mut s, rustc);
    push_str(&mut s, "; ");
    push_str(&mut s, os);
    push_str(&mut s, "/");
    push_str(&mut s, arch);
    push_str(&mut s, ")");
    s
}

impl ClientConfig {
    /// The library defaults: localhost base URL, no credentials, 30 s
    /// timeout, 10 s connect timeout, 3 retries with back-off from 200 ms
    /// capped at 20 s, plain HTTP allowed, no cache, singleflight on, and
    /// request bodies sent uncompressed.
    pub fn defaults(user_agent: String) -> (r: ClientConfig)
        ensures
            r.is_default(user_agent@),
    {
        ClientConfig {
            base_url: string_of(DEFAULT_BASE_URL),
            tenant_id: None,
            api_key: None,
            timeout: TimeSpan::from_secs(30),
            connect_timeout: TimeSpan::from_secs(10),
            max_retries: 3,
            retry_base: TimeSpan::from_millis(200),
            retry_cap: TimeSpan::from_secs(20),
            https_only: false,
            cache: None,
            singleflight: true,
            extra_headers: Vec::new(),
            user_agent,
            compress_requests: false,
        }
    }

    /// A copy of this configuration.
    pub fn duplicate(&self) -> (r: ClientConfig)
        ensures
            r.same_settings(*self),
            r.tenant_id@ == self.tenant_id@,
    {
        let mut extra_headers: Vec<(String, Vec<u8>)> = Vec::new();
        append_headers(&mut extra_headers, &self.extra_headers);
        proof {
            assert(header_pairs(extra_headers@) =~= header_pairs(self.extra_headers@));
        }
        ClientConfig {
            base_url: self.base_url.clone(),
            tenant_id: self.tenant_id.clone(),
            api_key: self.api_key.clone(),
            timeout: self.timeout,
            connect_timeout: self.connect_timeout,
            max_retries: self.max_retries,
            retry_base: self.retry_base,
            retry_cap: self.retry_cap,
            https_only: self.https_only,
            cache: self.cache,
            singleflight: self.singleflight,
            extra_headers,
            user_agent: self.user_agent.clone(),
            compress_requests: self.compress_requests,
        }
    }

    /// Whether this is the library default configuration with User-Agent `ua`.
    pub open spec fn is_default(self, ua: Seq<char>) -> bool {
        &&& self.base_url@ == DEFAULT_BASE_URL@
        &&& self.tenant_id is None
        &&& self.api_key is None
        &&& self.timeout@ == 30_000_000_000
        &&& self.connect_timeout@ == 10_000_000_000
        &&& self.max_retries == 3
        &&& self.retry_base@ == 200_000_000
        &&& self.retry_cap@ == 20_000_000_000
        &&& !self.https_only
        &&& self.cache is None
        &&& self.singleflight
        &&& self.extra_headers@.len() == 0
        &&& self.user_agent@ == ua
        &&& !self.compress_requests
    }

    /// Every setting but the tenant agrees.
    pub open spec fn same_settings(self, other: ClientConfig) -> bool {
        &&& self.base_url@ == other.base_url@
        &&& self.api_key@ == other.api_key@
        &&& self.timeout@ == other.timeout@
        &&& self.connect_timeout@ == other.connect_timeout@
        &&& self.max_retries == other.max_retries
        &&& self.retry_base@ == other.retry_base@
        &&& self.retry_cap@ == other.retry_cap@
        &&& self.https_only == other.https_only
        &&& self.cache == other.cache
        &&& self.singleflight == other.singleflight
        &&& header_pairs(self.extra_headers@) == header_pairs(other.extra_headers@)
        &&& self.user_agent@ == other.user_agent@
        &&& self.compress_requests == other.compress_requests
    }

    /// The same configuration targeting `tenant_id` instead.
    pub fn with_tenant_id(&self, tenant_id: String) -> (r: ClientConfig)
        ensures
            r.same_settings(*self),
            r.tenant_id matches Some(t) && t@ == tenant_id@,
    {
        let mut c = self.duplicate();
        c.tenant_id = Some(tenant_id);
        c
    }

    /// The configured tenant id, or a builder error when none was set.
    pub fn require_tenant(&self) -> (r: Result<&str, ClientError>)
        ensures
            match self.tenant_id {
                Some(t) => r matches Ok(s) && s@ == t@,
                None => r matches Err(ClientError::Builder(m)) && m@
                    == "no tenant id configured on client"@,
            },
    {
        match &self.tenant_id {
            Some(t) => Ok(t.as_str()),
            None => Err(ClientError::Builder(string_of("no tenant id configured on client"))),
        }
    }

    /// The absolute URL a request to `path` goes to.
    pub fn url(&self, path: &str) -> (r: Result<String, ClientError>)
        ensures
            r is Ok <==> endpoint_url(self.base_url@, path@) is Some,
            r matches Ok(s) ==> endpoint_url(self.base_url@, path@) == Some(s@),
            r matches Err(e) ==> e is Url,
    {
        endpoint(self.base_url.as_str(), path)
    }

    /// Every header a request carries besides its content headers: the
    /// tenant id and the API key when configured, the extra headers in
    /// order, and `Accept-Encoding: gzip`.
    pub open spec fn request_header_pairs(self) -> Seq<(Seq<char>, Seq<u8>)> {
        self.credential_pairs() + header_pairs(self.extra_headers@) + seq![
            (ACCEPT_ENCODING@, encode_utf8("gzip"@)),
        ]
    }

    /// The tenant id and the API key headers, each when configured.
    pub open spec fn credential_pairs(self) -> Seq<(Seq<char>, Seq<u8>)> {
        let tenant = match self.tenant_id {
            Some(t) => seq![(TENANT_HEADER@, encode_utf8(t@))],
            None => Seq::empty(),
        };
        let key = match self.api_key {
            Some(k) => seq![(API_KEY_HEADER@, encode_utf8(k@))],
            None => Seq::empty(),
        };
        tenant + key
    }

    /// The headers every request carries besides its content headers.
    pub fn request_headers(&self) -> (r: Vec<(String, Vec<u8>)>)
        ensures
            header_pairs(r@) == self.request_header_pairs(),
    {
        let mut v: Vec<(String, Vec<u8>)> = Vec::new();
        if let Some(t) = &self.tenant_id {
            v.push((string_of(TENANT_HEADER), t.as_str().as_bytes_vec()));
        }
        if let Some(k) = &self.api_key {
            v.push((string_of(API_KEY_HEADER), k.as_str().as_bytes_vec()));
        }
        let ghost auth = header_pairs(v@);
        append_headers(&mut v, &self.extra_headers);
        v.push((string_of(ACCEPT_ENCODING), "gzip".as_bytes_vec()));
        proof {
            assert(auth =~= self.credential_pairs());
            assert(header_pairs(v@) =~= self.request_header_pairs());
        }
        v
    }

    /// Transport settings derived from this configuration.
    pub fn transport(&self) -> (r: TransportConfig)
        ensures
            r.timeout@ == self.timeout@,
            r.connect_timeout@ == self.connect_timeout@,
            r.user_agent@ == self.user_agent@,
            r.https_only == self.https_only,
            r.pool_idle_timeout matches Some(t) && t@ == 90_000_000_000,
            r.pool_max_idle_per_host == 32,
            r.tcp_nodelay,
    {
        TransportConfig {
            timeout: self.timeout,
            connect_timeout: self.connect_timeout,
            pool_idle_timeout: Some(TimeSpan::from_secs(90)),
            pool_max_idle_per_host: 32,
            tcp_nodelay: true,
            https_only: self.https_only,
            user_agent: self.user_agent.clone(),
        }
    }
}

/// Hardened transport settings.
pub struct TransportConfig {
    /// Per-request timeout.
    pub timeout: TimeSpan,
    /// TCP connection timeout.
    pub connect_timeout: TimeSpan,
    /// How long an idle pooled connection is kept.
    pub pool_idle_timeout: Option<TimeSpan>,
    /// Idle connections kept per host.
    pub pool_max_idle_per_host: usize,
    /// Disable Nagle's algorithm.
    pub tcp_nodelay: bool,
    /// Refuse plain HTTP.
    pub https_only: bool,
    /// User-Agent header.
    pub user_agent: String,
}

/// Builder for a client configuration.
pub struct ClientBuilder {
    config: ClientConfig,
}

impl ClientBuilder {
    /// The configuration built so far.
    pub closed spec fn spec_config(&self) -> ClientConfig {
        self.config
    }

    /// Start from the library defaults with the given User-Agent.
    pub fn new(user_agent: String) -> (r: ClientBuilder)
        ensures
            r.spec_config().is_default(user_agent@),
    {
        ClientBuilder { config: ClientConfig::defaults(user_agent) }
    }

    /// The configuration built so far.
    pub fn config(&self) -> (r: &ClientConfig)
        ensures
            *r == self.spec_config(),
    {
        &self.config
    }

    /// Finish building: the configuration.
    pub fn into_config(self) -> (r: ClientConfig)
        ensures
            r == self.spec_config(),
    {
        self.config
    }

    /// Set the server base URL (e.g. `https://api.graphann.com`); fails
    /// with a URL error when it does not parse as an absolute URL.
    pub fn base_url(self, url: &str) -> (r: Result<ClientBuilder, ClientError>)
        ensures
            r is Ok <==> parsed_url(url@) is Some,
            r matches Ok(b) ==> {
                &&& Some(b.spec_config().base_url@) == parsed_url(url@)
                &&& b.spec_config() == (ClientConfig {
                    base_url: b.spec_config().base_url,
                    ..self.spec_config()
                })
            },
            r matches Err(e) ==> e is Url,
    {
        match parse_base_url(url) {
            Ok(u) => {
                let mut b = self;
                b.config.base_url = u;
                Ok(b)
            },
            Err(e) => Err(e),
        }
    }

    /// Set both the tenant id and the API key.
    pub fn api_key(self, tenant_id: String, api_key: String) -> (r: ClientBuilder)
        ensures
            r.spec_config() == (ClientConfig {
                tenant_id: Some(tenant_id),
                api_key: Some(api_key),
                ..self.spec_config()
            }),
    {
        let mut b = self;
        b.config.tenant_id = Some(tenant_id);
        b.config.api_key = Some(api_key);
        b
    }

    /// Set the per-request timeout (applies end-to-end including reads).
    pub fn timeout(self, timeout: TimeSpan) -> (r: ClientBuilder)
        ensures
            r.spec_config() == (ClientConfig { timeout: timeout, ..self.spec_config() }),
    {
        let mut b = self;
        b.config.timeout = timeout;
        b
    }

    /// Set the TCP connection timeout.
    pub fn connect_timeout(self, timeout: TimeSpan) -> (r: ClientBuilder)
        ensures
            r.spec_config() == (ClientConfig { connect_timeout: timeout, ..self.spec_config() }),
    {
        let mut b = self;
        b.config.connect_timeout = timeout;
        b
    }

    /// Maximum number of retry attempts on retryable errors.
    pub fn max_retries(self, max_retries: u32) -> (r: ClientBuilder)
        ensures
            r.spec_config() == (ClientConfig { max_retries: max_retries, ..self.spec_config() }),
    {
        let mut b = self;
        b.config.max_retries = max_retries;
        b
    }

    /// Base for exponential back-off (default 200 ms).
    pub fn retry_base(self, base: TimeSpan) -> (r: ClientBuilder)
        ensures
            r.spec_config() == (ClientConfig { retry_base: base, ..self.spec_config() }),
    {
        let mut b = self;
        b.config.retry_base = base;
        b
    }

    /// Cap for exponential back-off (default 20 s).
    pub fn retry_cap(self, cap: TimeSpan) -> (r: ClientBuilder)
        ensures
            r.spec_config() == (ClientConfig { retry_cap: cap, ..self.spec_config() }),
    {
        let mut b = self;
        b.config.retry_cap = cap;
        b
    }

    /// Enable transparent gzip compression of request bodies of 64 KiB or
    /// more. Default `false`: the graphann HTTP server does not decode
    /// gzipped request bodies.
    pub fn compress_requests(self, enabled: bool) -> (r: ClientBuilder)
        ensures
            r.spec_config() == (ClientConfig { compress_requests: enabled, ..self.spec_config() }),
    {
        let mut b = self;
        b.config.compress_requests = enabled;
        b
    }

    /// Refuse to send requests over plain HTTP. Defaults to `false`.
    pub fn https_only(self, value: bool) -> (r: ClientBuilder)
        ensures
            r.spec_config() == (ClientConfig { https_only: value, ..self.spec_config() }),
    {
        let mut b = self;
        b.config.https_only = value;
        b
    }

    /// Enable response caching with the supplied settings.
    pub fn cache(self, cfg: CacheConfig) -> (r: ClientBuilder)
        ensures
            r.spec_config() == (ClientConfig { cache: Some(cfg), ..self.spec_config() }),
    {
        let mut b = self;
        b.config.cache = Some(cfg);
        b
    }

    /// Toggle single-flight coalescing of concurrent identical search calls.
    pub fn singleflight(self, on: bool) -> (r: ClientBuilder)
        ensures
            r.spec_config() == (ClientConfig { singleflight: on, ..self.spec_config() }),
    {
        let mut b = self;
        b.config.singleflight = on;
        b
    }

    /// Add an extra outbound header (e.g. observability or canary tags),
    /// replacing the value of a header of the same name.
    pub fn header(self, name: String, value: Vec<u8>) -> (r: ClientBuilder)
        ensures
            header_pairs(r.spec_config().extra_headers@) == header_set(
                header_pairs(self.spec_config().extra_headers@),
                name@,
                value@,
            ),
            r.spec_config() == (ClientConfig {
                extra_headers: r.spec_config().extra_headers,
                ..self.spec_config()
            }),
    {
        let mut b = self;
        let ghost hs = header_pairs(b.config.extra_headers@);
        let ghost nm = name@;
        let ghost vl = value@;
        match position_named(&b.config.extra_headers, name.as_str()) {
            Some(i) => {
                proof {
                    let j = choose|j: int| first_named(hs, nm, j);
                    assert(j == i);
                }
                b.config.extra_headers.set(i, (name, value));
                proof {
                    assert(header_pairs(b.config.extra_headers@) =~= hs.update(i as int, (nm, vl)));
                }
            },
            None => {
                b.config.extra_headers.push((name, value));
                proof {
                    assert(header_pairs(b.config.extra_headers@) =~= hs.push((nm, vl)));
                }
            },
        }
        b
    }

    /// Override the User-Agent.
    pub fn user_agent(self, ua: String) -> (r: ClientBuilder)
        ensures
            r.spec_config() == (ClientConfig { user_agent: ua, ..self.spec_config() }),
    {
        let mut b = self;
        b.config.user_agent = ua;
        b
    }
}

} // verus!
