//! Error types returned by the GraphANN client, and the mapping from an
//! HTTP error response onto them.
use vstd::prelude::*;
use vstd::utf8::{decode_utf8, encode_utf8, is_char_boundary, valid_utf8};

use crate::retry::{parse_retry_after, retry_after_secs};
use crate::text::{push_str, str_eq, string_of};
use crate::time::TimeSpan;

verus! {

broadcast use vstd::utf8::group_utf8_lib;

/// Top-level error returned from every fallible client operation.
///
/// Server-mapped HTTP statuses get variants of their own (so callers can
/// branch on `ClientError::NotFound` without parsing a code); transport-level
/// failures carry the underlying error.
#[derive(Debug)]
pub enum ClientError {
    /// 401 Unauthorized: credentials missing or invalid.
    Auth(String),
    /// 403 Forbidden: credentials valid but lacking permission.
    Authorization(String),
    /// 404 Not Found.
    NotFound(String),
    /// 409 Conflict.
    Conflict(String),
    /// 413 Payload Too Large.
    PayloadTooLarge(String),
    /// 429 Too Many Requests, with the parsed `Retry-After` when present.
    RateLimit {
        /// Suggested back-off interval as parsed from `Retry-After`.
        retry_after: Option<TimeSpan>,
        /// Optional textual message returned by the server.
        message: Option<String>,
    },
    /// 503 Service Unavailable, including index-not-ready and quota errors.
    ServiceUnavailable {
        /// Stable error code from the server (e.g. `index_not_ready`).
        code: Option<String>,
        /// Human-readable message.
        message: String,
        /// Suggested back-off if the server set `Retry-After`.
        retry_after: Option<TimeSpan>,
    },
    /// 4xx/5xx not otherwise classified.
    Server {
        /// HTTP status code.
        status: u16,
        /// Stable error code from the server, when present.
        code: Option<String>,
        /// Raw / decoded body, already truncated to a safe length.
        body: String,
    },
    /// Network-level error from the HTTP transport.
    Network(reqwest::Error),
    /// JSON encode/decode failure.
    Decode(serde_json::Error),
    /// Local I/O failure (e.g. preparing a request body).
    Io(std::io::Error),
    /// URL parsing failure.
    Url(url::ParseError),
    /// Misuse while building a client.
    Builder(String),
    /// Anything that does not fit a more specific bucket.
    Other(String),
}

/// The nanoseconds of an optional span.
pub open spec fn opt_span(t: Option<TimeSpan>) -> Option<nat> {
    match t {
        Some(s) => Some(s@),
        None => None,
    }
}

/// The characters of an optional string.
pub open spec fn opt_text(s: Option<String>) -> Option<Seq<char>> {
    match s {
        Some(t) => Some(t@),
        None => None,
    }
}

impl ClientError {
    /// Whether the error is a transport- or status-level failure that is
    /// safe to retry (network / 429 / 503).
    pub open spec fn retryable(&self) -> bool {
        self is RateLimit || self is ServiceUnavailable || self is Network
    }

    /// The back-off the server suggested, in nanoseconds.
    pub open spec fn suggested_delay(&self) -> Option<nat> {
        match self {
            ClientError::RateLimit { retry_after, .. } => opt_span(*retry_after),
            ClientError::ServiceUnavailable { retry_after, .. } => opt_span(*retry_after),
            _ => None,
        }
    }

    /// Returns `true` for transport- or status-level errors that are safe to
    /// retry (network / 429 / 503).
    pub fn is_retryable(&self) -> (r: bool)
        ensures
            r == self.retryable(),
    {
        match self {
            ClientError::RateLimit { .. } | ClientError::ServiceUnavailable { .. } | ClientError::Network(_) => true,
            _ => false,
        }
    }

    /// Suggested back-off duration parsed from a `Retry-After` header, if any.
    pub fn retry_after(&self) -> (r: Option<TimeSpan>)
        ensures
            opt_span(r) == self.suggested_delay(),
    {
        match self {
            ClientError::RateLimit { retry_after, .. } => *retry_after,
            ClientError::ServiceUnavailable { retry_after, .. } => *retry_after,
            _ => None,
        }
    }
}

/// The errors `is_retryable` accepts are exactly the transient ones: a
/// rate limit, an unavailable service and a network failure. Every other
/// kind (decode, I/O, URL, builder, other, and the statuses the server
/// refused with: 401, 403, 404, 409, 413 and the rest) is not retryable.
pub proof fn lemma_retryable_kinds(e: ClientError)
    ensures
        e.retryable() ==> (e is RateLimit || e is ServiceUnavailable || e is Network),
        (e is RateLimit || e is ServiceUnavailable || e is Network) ==> e.retryable(),
        (e is Decode || e is Io || e is Url || e is Builder || e is Other || e is Auth
            || e is Authorization || e is NotFound || e is Conflict || e is PayloadTooLarge
            || e is Server) ==> !e.retryable(),
{
}

/// A server-suggested back-off implies the error is retryable.
pub proof fn lemma_suggested_delay_retryable(e: ClientError)
    ensures
        e.suggested_delay() is Some ==> e.retryable(),
{
}

/// JSON error body returned by the GraphANN server.
///
/// The server wraps all error responses as `{"error": {"code", "message"}}`.
#[derive(Debug, Clone)]
pub struct ApiError {
    /// Stable, machine-readable error code (e.g. `not_found`, `validation_error`).
    pub code: String,
    /// Human-readable message.
    pub message: String,
    /// Optional structured details supplied by some endpoints (e.g. job id).
    pub details: Option<serde_json::Value>,
}

/// Stable error codes the server emits.
#[derive(Debug, Clone, Copy, PartialEq, Eq, Hash)]
pub enum ErrorCode {
    /// Internal error.
    Internal,
    /// Bad request body or parameters.
    BadRequest,
    /// Authentication required.
    Unauthorized,
    /// Caller authenticated but lacks permission.
    Forbidden,
    /// Resource not found.
    NotFound,
    /// Conflicting state.
    Conflict,
    /// Resource quota exceeded.
    QuotaExceeded,
    /// Rate limit exceeded.
    RateLimited,
    /// Validation of a structured field failed.
    Validation,
    /// Index not ready for search.
    IndexNotReady,
    /// Index currently being built.
    IndexBuilding,
    /// Catch-all 503.
    ServiceUnavailable,
    /// Body too large.
    PayloadTooLarge,
    /// Endpoint exists but the operation is not implemented.
    NotImplemented,
    /// Unrecognised code (forward-compatible escape hatch).
    Other,
}

/// The code a wire string stands for.
pub open spec fn error_code_of(s: Seq<char>) -> ErrorCode {
    if s == "internal_error"@ || s == "internal"@ {
        ErrorCode::Internal
    } else if s == "bad_request"@ {
        ErrorCode::BadRequest
    } else if s == "unauthorized"@ {
        ErrorCode::Unauthorized
    } else if s == "forbidden"@ {
        ErrorCode::Forbidden
    } else if s == "not_found"@ {
        ErrorCode::NotFound
    } else if s == "conflict"@ {
        ErrorCode::Conflict
    } else if s == "quota_exceeded"@ {
        ErrorCode::QuotaExceeded
    } else if s == "rate_limited"@ {
        ErrorCode::RateLimited
    } else if s == "validation"@ || s == "validation_error"@ {
        ErrorCode::Validation
    } else if s == "index_not_ready"@ {
        ErrorCode::IndexNotReady
    } else if s == "index_building"@ {
        ErrorCode::IndexBuilding
    } else if s == "service_unavailable"@ {
        ErrorCode::ServiceUnavailable
    } else if s == "payload_too_large"@ {
        ErrorCode::PayloadTooLarge
    } else if s == "not_implemented"@ {
        ErrorCode::NotImplemented
    } else {
        ErrorCode::Other
    }
}

impl ErrorCode {
    /// Parse the wire string returned in `{"error": {"code"}}`.
    ///
    /// Infallible: `Other` is the fallback for any unknown string.
    pub fn parse(s: &str) -> (r: ErrorCode)
        ensures
            r == error_code_of(s@),
    {
        if str_eq(s, "internal_error") || str_eq(s, "internal") {
            ErrorCode::Internal
        } else if str_eq(s, "bad_request") {
            ErrorCode::BadRequest
        } else if str_eq(s, "unauthorized") {
            ErrorCode::Unauthorized
        } else if str_eq(s, "forbidden") {
            ErrorCode::Forbidden
        } else if str_eq(s, "not_found") {
            ErrorCode::NotFound
        } else if str_eq(s, "conflict") {
            ErrorCode::Conflict
        } else if str_eq(s, "quota_exceeded") {
            ErrorCode::QuotaExceeded
        } else if str_eq(s, "rate_limited") {
            ErrorCode::RateLimited
        } else if str_eq(s, "validation") || str_eq(s, "validation_error") {
            ErrorCode::Validation
        } else if str_eq(s, "index_not_ready") {
            ErrorCode::IndexNotReady
        } else if str_eq(s, "index_building") {
            ErrorCode::IndexBuilding
        } else if str_eq(s, "service_unavailable") {
            ErrorCode::ServiceUnavailable
        } else if str_eq(s, "payload_too_large") {
            ErrorCode::PayloadTooLarge
        } else if str_eq(s, "not_implemented") {
            ErrorCode::NotImplemented
        } else {
            ErrorCode::Other
        }
    }
}

/// Longest body text, in bytes, kept in an error.
pub const MAX_BODY_BYTES: usize = 4096;

/// The text `String::from_utf8_lossy` makes of `bytes`.
pub uninterp spec fn utf8_lossy(bytes: Seq<u8>) -> Seq<char>;

/// Decodes `bytes` as UTF-8, replacing invalid sequences with U+FFFD.
///
/// Calls `String::from_utf8_lossy`. Trusted: the text equals the name
/// `utf8_lossy` applied to the bytes, and valid UTF-8 comes back unchanged,
/// as that function's documentation states.
#[verifier::external_body]
fn decode_lossy(bytes: &[u8]) -> (s: String)
    ensures
        s@ == utf8_lossy(bytes@),
        valid_utf8(bytes@) ==> s@ == decode_utf8(bytes@),
{
    String::from_utf8_lossy(bytes).into_owned()
}

/// Whether `text` can be cut after its first 4096 bytes: it is no longer
/// than that, or byte 4096 starts a character.
pub open spec fn truncatable(text: Seq<char>) -> bool {
    encode_utf8(text).len() <= 4096 || is_char_boundary(encode_utf8(text), 4096)
}

/// `text`, cut to its first 4096 bytes with a `...(truncated)` marker when
/// it is longer.
pub open spec fn truncated_text(text: Seq<char>) -> Seq<char> {
    if encode_utf8(text).len() <= 4096 {
        text
    } else {
        decode_utf8(encode_utf8(text).subrange(0, 4096)) + "...(truncated)"@
    }
}

/// Body text bounded to 4096 bytes, marking the cut when there was one.
pub fn trimmed_body(raw: &str) -> (r: String)
    requires
        truncatable(raw@),
    ensures
        r@ == truncated_text(raw@),
{
    let n = raw.as_bytes().len();
    if n > MAX_BODY_BYTES {
        let (head, _tail) = raw.split_at(MAX_BODY_BYTES);
        let mut out = string_of(head);
        push_str(&mut out, "...(truncated)");
        proof {
            assert(decode_utf8(encode_utf8(head@)) == head@);
        }
        out
    } else {
        string_of(raw)
    }
}

/// The message an error response carries: the server's message when the
/// body held an error envelope, else the (cut) body text.
pub open spec fn response_message(api_err: Option<ApiError>, text: Seq<char>) -> Seq<char> {
    match api_err {
        Some(a) => a.message@,
        None => truncated_text(text),
    }
}

/// The error code an error response carries, if any.
pub open spec fn response_code(api_err: Option<ApiError>) -> Option<Seq<char>> {
    match api_err {
        Some(a) => Some(a.code@),
        None => None,
    }
}

/// The back-off a `Retry-After` header asks for, in nanoseconds.
pub open spec fn header_delay(retry_after: Option<Seq<char>>) -> Option<nat> {
    match retry_after {
        Some(v) => match retry_after_secs(v) {
            Some(n) => Some((n * 1_000_000_000) as nat),
            None => None,
        },
        None => None,
    }
}

/// The error a response with `status`, `Retry-After` header `retry_after`,
/// parsed envelope `api_err` and body text `text` maps to.
pub open spec fn classified(
    e: ClientError,
    status: u16,
    retry_after: Option<Seq<char>>,
    api_err: Option<ApiError>,
    text: Seq<char>,
) -> bool {
    let msg = response_message(api_err, text);
    let code = response_code(api_err);
    let delay = header_delay(retry_after);
    if status == 401 {
        e matches ClientError::Auth(m) && m@ == msg
    } else if status == 403 {
        e matches ClientError::Authorization(m) && m@ == msg
    } else if status == 404 {
        e matches ClientError::NotFound(m) && m@ == msg
    } else if status == 409 {
        e matches ClientError::Conflict(m) && m@ == msg
    } else if status == 413 {
        e matches ClientError::PayloadTooLarge(m) && m@ == msg
    } else if status == 429 {
        &&& e matches ClientError::RateLimit { retry_after: ra, message: m }
        &&& opt_span(ra) == delay
        &&& opt_text(m) == Some(msg)
    } else if status == 503 {
        &&& e matches ClientError::ServiceUnavailable { code: c, message: m, retry_after: ra }
        &&& opt_text(c) == code
        &&& m@ == msg
        &&& opt_span(ra) == delay
    } else {
        &&& e matches ClientError::Server { status: s, code: c, body: b }
        &&& s == status
        &&& opt_text(c) == code
        &&& b@ == truncated_text(text)
    }
}

fn code_of(api_err: &Option<ApiError>) -> (c: Option<String>)
    ensures
        opt_text(c) == response_code(*api_err),
{
    match api_err {
        Some(a) => Some(a.code.clone()),
        None => None,
    }
}

fn delay_of(retry_after: Option<&str>) -> (d: Option<TimeSpan>)
    ensures
        opt_span(d) == header_delay(
            match retry_after {
                Some(v) => Some(v@),
                None => None,
            },
        ),
{
    match retry_after {
        Some(v) => parse_retry_after(v),
        None => None,
    }
}

/// Whether an error response with this status maps onto a variant of its
/// own (401, 403, 404, 409, 413, 429, 503), rather than onto `Server`.
pub open spec fn typed_status(status: u16) -> bool {
    status == 401 || status == 403 || status == 404 || status == 409 || status == 413 || status
        == 429 || status == 503
}

/// Whether the error built for a response carries the (cut) body text: a
/// typed status without an error envelope takes it as its message, and
/// `Server` errors always keep it.
pub open spec fn keeps_body_text(status: u16, api_err: Option<ApiError>) -> bool {
    api_err is None || !typed_status(status)
}

/// Translate an error response (status, `Retry-After` header, parsed error
/// envelope and raw body) into the public [`ClientError`] hierarchy.
///
/// The body text is decoded leniently and kept to 4096 bytes where the
/// error carries it. `None` comes back, and no error is built, exactly when
/// the error would carry that text and it is longer than 4096 bytes with
/// byte 4096 inside a character, where it cannot be cut.
pub fn classify_error(status: u16, retry_after: Option<&str>, api_err: Option<ApiError>, body: &[u8]) -> (r:
    Option<ClientError>)
    ensures
        r is None <==> (keeps_body_text(status, api_err) && !truncatable(utf8_lossy(body@))),
        r matches Some(e) ==> classified(
            e,
            status,
            match retry_after {
                Some(v) => Some(v@),
                None => None,
            },
            api_err,
            utf8_lossy(body@),
        ),
        r matches Some(e) ==> (e.retryable() <==> (status == 429 || status == 503)),
        valid_utf8(body@) ==> utf8_lossy(body@) == decode_utf8(body@),
{
    let raw = decode_lossy(body);
    let text = raw.as_str();
    let n = text.as_bytes().len();
    let cuttable = n <= MAX_BODY_BYTES || text.is_char_boundary(MAX_BODY_BYTES);
    let delay = delay_of(retry_after);
    let code = code_of(&api_err);
    let typed = status == 401 || status == 403 || status == 404 || status == 409 || status == 413
        || status == 429 || status == 503;
    if !typed {
        if !cuttable {
            return None;
        }
        return Some(ClientError::Server { status, code, body: trimmed_body(text) });
    }
    let message = match &api_err {
        Some(a) => a.message.clone(),
        None => {
            if !cuttable {
                return None;
            }
            trimmed_body(text)
        },
    };
    let e = if status == 401 {
        ClientError::Auth(message)
    } else if status == 403 {
        ClientError::Authorization(message)
    } else if status == 404 {
        ClientError::NotFound(message)
    } else if status == 409 {
        ClientError::Conflict(message)
    } else if status == 413 {
        ClientError::PayloadTooLarge(message)
    } else if status == 429 {
        ClientError::RateLimit { retry_after: delay, message: Some(message) }
    } else {
        ClientError::ServiceUnavailable { code, message, retry_after: delay }
    };
    Some(e)
}

} // verus!
