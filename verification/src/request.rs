//! What goes on the wire for one request: the method, the body bytes and
//! the content headers.
use std::io::Write;

use vstd::prelude::*;

use crate::error::ClientError;

verus! {

/// Request bodies of this many bytes or more are gzipped when compression
/// is on.
pub const GZIP_THRESHOLD_BYTES: usize = 65536;

/// HTTP request methods the API uses.
#[derive(Debug, Clone, Copy, PartialEq, Eq)]
pub enum HttpMethod {
    /// `GET`.
    Get,
    /// `POST`.
    Post,
    /// `PUT`.
    Put,
    /// `PATCH`.
    Patch,
    /// `DELETE`.
    Delete,
}

impl HttpMethod {
    /// Whether the method changes server state.
    pub open spec fn mutating(self) -> bool {
        !(self is Get)
    }

    /// Whether the method changes server state (everything but `GET`).
    pub fn is_mutating(&self) -> (r: bool)
        ensures
            r == self.mutating(),
    {
        match self {
            HttpMethod::Get => false,
            _ => true,
        }
    }
}

/// The gzip stream `flate2` writes for `raw` at its fastest level.
pub uninterp spec fn gzip_fast(raw: Seq<u8>) -> Seq<u8>;

/// The size field of a gzip stream: its last four bytes, read as a
/// little-endian number (the length of the uncompressed data, modulo 2^32).
pub open spec fn gzip_size_field(v: Seq<u8>) -> nat {
    let n = v.len() as int;
    (v[n - 4] + 256 * v[n - 3] + 65536 * v[n - 2] + 16777216 * v[n - 1]) as nat
}

/// Compresses `raw` into a gzip stream at the fastest level.
///
/// Calls `flate2::write::GzEncoder` (`write_all`, then `finish`) over a
/// `Vec`. Trusted: a successful result equals the name `gzip_fast` of the
/// input; it starts with the encoder's fixed 10-byte header (magic bytes
/// `1f 8b`, method 8 for deflate) and ends with the 8-byte trailer whose
/// last four bytes hold the number of bytes written into the encoder,
/// modulo 2^32, little-endian (`try_finish` writes `crc.amount()`, which
/// counts every byte `write_all` fed in).
#[verifier::external_body]
fn gzip(raw: &[u8]) -> (r: Result<Vec<u8>, std::io::Error>)
    ensures
        r matches Ok(v) ==> v@ == gzip_fast(raw@) && v@.len() >= 18 && v@[0] == 0x1f && v@[1]
            == 0x8b && v@[2] == 8 && gzip_size_field(v@) == raw@.len() % 0x1_0000_0000,
{
    let mut encoder = flate2::write::GzEncoder::new(
        Vec::with_capacity(raw.len() / 2),
        flate2::Compression::fast(),
    );
    encoder.write_all(raw)?;
    encoder.finish()
}

/// A request body ready to send, with the headers that describe it.
pub struct PreparedBody {
    /// The bytes to send, if any.
    pub bytes: Option<Vec<u8>>,
    /// Send `Content-Type: application/json`.
    pub json_content_type: bool,
    /// Send `Content-Encoding: gzip`.
    pub gzip_encoded: bool,
}

/// Whether a body of `len` bytes is compressed.
pub open spec fn compresses(compress_requests: bool, len: nat) -> bool {
    compress_requests && len >= GZIP_THRESHOLD_BYTES
}

/// Prepares the body of a request.
///
/// A JSON body is sent as it is, or gzipped when compression is on and the
/// body is at least [`GZIP_THRESHOLD_BYTES`] long; either way it is labelled
/// `application/json`. With no body, mutating methods still carry the
/// JSON content type, which the server's middleware demands.
pub fn prepare_body(method: HttpMethod, body: Option<Vec<u8>>, compress_requests: bool) -> (r:
    Result<PreparedBody, ClientError>)
    ensures
        match body {
            Some(raw) => if compresses(compress_requests, raw@.len()) {
                match r {
                    Ok(p) => {
                        &&& p.json_content_type
                        &&& p.gzip_encoded
                        &&& p.bytes matches Some(b) && b@ == gzip_fast(raw@)
                        &&& p.bytes->0@.len() >= 18
                        &&& gzip_size_field(p.bytes->0@) == raw@.len() % 0x1_0000_0000
                    },
                    Err(e) => e is Io,
                }
            } else {
                &&& r matches Ok(p)
                &&& r->Ok_0.json_content_type
                &&& !r->Ok_0.gzip_encoded
                &&& r->Ok_0.bytes matches Some(b) && b@ == raw@
            },
            None => {
                &&& r matches Ok(p)
                &&& r->Ok_0.bytes is None
                &&& !r->Ok_0.gzip_encoded
                &&& r->Ok_0.json_content_type == method.mutating()
            },
        },
{
    match body {
        Some(raw) => {
            if compress_requests && raw.len() >= GZIP_THRESHOLD_BYTES {
                match gzip(raw.as_slice()) {
                    Ok(compressed) => Ok(
                        PreparedBody {
                            bytes: Some(compressed),
                            json_content_type: true,
                            gzip_encoded: true,
                        },
                    ),
                    Err(e) => Err(ClientError::Io(e)),
                }
            } else {
                Ok(PreparedBody { bytes: Some(raw), json_content_type: true, gzip_encoded: false })
            }
        },
        None => Ok(
            PreparedBody {
                bytes: None,
                json_content_type: method.is_mutating(),
                gzip_encoded: false,
            },
        ),
    }
}

} // verus!
