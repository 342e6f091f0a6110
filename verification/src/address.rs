//! Endpoint URLs: the base URL the client is configured with, joined with
//! a request path.
//!
//! URL parsing and resolution are the `url` crate's; a URL travels through
//! the library as its text.
use vstd::prelude::*;

use crate::error::ClientError;
use crate::text::{push_str, string_of};

verus! {

/// The serialization of `input` parsed as an absolute URL, if it parses.
pub uninterp spec fn parsed_url(input: Seq<char>) -> Option<Seq<char>>;

/// The path component of the URL `url`, if `url` parses.
pub uninterp spec fn url_path_of(url: Seq<char>) -> Option<Seq<char>>;

/// The URL `url` with its path replaced by `path`, if `url` parses.
pub uninterp spec fn url_with_path(url: Seq<char>, path: Seq<char>) -> Option<Seq<char>>;

/// `input` resolved against the base URL `url`, if both parse.
pub uninterp spec fn url_joined(url: Seq<char>, input: Seq<char>) -> Option<Seq<char>>;

/// Parses `input` as an absolute URL and gives back its serialization.
///
/// Calls `url::Url::parse`. Trusted: success and the text equal the name
/// `parsed_url` applied to the input.
#[verifier::external_body]
fn parse(input: &str) -> (r: Result<String, url::ParseError>)
    ensures
        r is Ok <==> parsed_url(input@) is Some,
        r matches Ok(s) ==> parsed_url(input@) == Some(s@),
{
    url::Url::parse(input).map(|u| u.as_str().to_owned())
}

/// The path component of the URL written `url`.
///
/// Calls `url::Url::path` on `url` parsed. Trusted: the result equals the
/// name `url_path_of`.
#[verifier::external_body]
fn path_of(url: &str) -> (r: Result<String, url::ParseError>)
    ensures
        r is Ok <==> url_path_of(url@) is Some,
        r matches Ok(s) ==> url_path_of(url@) == Some(s@),
{
    url::Url::parse(url).map(|u| u.path().to_owned())
}

/// The URL written `url` with its path set to `path`.
///
/// Calls `url::Url::set_path` on `url` parsed. Trusted: the result equals
/// the name `url_with_path`.
#[verifier::external_body]
fn with_path(url: &str, path: &str) -> (r: Result<String, url::ParseError>)
    ensures
        r is Ok <==> url_with_path(url@, path@) is Some,
        r matches Ok(s) ==> url_with_path(url@, path@) == Some(s@),
{
    url::Url::parse(url).map(
        |mut u| {
            u.set_path(path);
            u.as_str().to_owned()
        },
    )
}

/// `input` resolved against the URL written `url`.
///
/// Calls `url::Url::join` on `url` parsed. Trusted: the result equals the
/// name `url_joined`.
#[verifier::external_body]
fn join(url: &str, input: &str) -> (r: Result<String, url::ParseError>)
    ensures
        r is Ok <==> url_joined(url@, input@) is Some,
        r matches Ok(s) ==> url_joined(url@, input@) == Some(s@),
{
    url::Url::parse(url).and_then(|u| u.join(input)).map(|u| u.as_str().to_owned())
}

/// `s` without its leading `/` characters.
pub open spec fn trim_leading_slashes(s: Seq<char>) -> Seq<char>
    decreases s.len(),
{
    if s.len() > 0 && s[0] == '/' {
        trim_leading_slashes(s.drop_first())
    } else {
        s
    }
}

/// The base URL with a `/` appended to its path when the path lacks one.
pub open spec fn directory_base(base: Seq<char>) -> Option<Seq<char>> {
    match url_path_of(base) {
        Some(p) => if p.len() > 0 && p.last() == '/' {
            Some(base)
        } else {
            url_with_path(base, p.push('/'))
        },
        None => None,
    }
}

/// The URL a request to `path` goes to: `path` without leading slashes,
/// resolved against the base URL taken as a directory.
pub open spec fn endpoint_url(base: Seq<char>, path: Seq<char>) -> Option<Seq<char>> {
    match directory_base(base) {
        Some(b) => url_joined(b, trim_leading_slashes(path)),
        None => None,
    }
}

/// Checks and normalises a base URL: the serialization of `input` parsed
/// as an absolute URL.
pub fn parse_base_url(input: &str) -> (r: Result<String, ClientError>)
    ensures
        r is Ok <==> parsed_url(input@) is Some,
        r matches Ok(s) ==> parsed_url(input@) == Some(s@),
        r matches Err(e) ==> e is Url,
{
    match parse(input) {
        Ok(s) => Ok(s),
        Err(e) => Err(ClientError::Url(e)),
    }
}

fn trim_slashes(path: &str) -> (r: String)
    ensures
        r@ == trim_leading_slashes(path@),
{
    let chars = crate::text::chars_of(path);
    let mut i: usize = 0;
    proof {
        assert(chars@.subrange(0, chars@.len() as int) =~= chars@);
    }
    while i < chars.len() && chars[i] == '/'
        invariant
            i <= chars@.len(),
            chars@ == path@,
            trim_leading_slashes(path@) == trim_leading_slashes(
                chars@.subrange(i as int, chars@.len() as int),
            ),
        decreases chars@.len() - i,
    {
        proof {
            let t = chars@.subrange(i as int, chars@.len() as int);
            assert(t.drop_first() =~= chars@.subrange(i + 1, chars@.len() as int));
        }
        i = i + 1;
    }
    let mut out = String::new();
    let mut j = i;
    proof {
        assert(out@ =~= chars@.subrange(i as int, j as int));
    }
    while j < chars.len()
        invariant
            i <= j <= chars@.len(),
            out@ == chars@.subrange(i as int, j as int),
        decreases chars@.len() - j,
    {
        crate::text::push_char(&mut out, chars[j]);
        proof {
            assert(out@ =~= chars@.subrange(i as int, j + 1));
        }
        j = j + 1;
    }
    out
}

/// Builds the URL for a request: `path` (leading slashes dropped) resolved
/// against `base`, whose path is first made to end in `/` so that the
/// request path is appended to it rather than replacing its last segment.
pub fn endpoint(base: &str, path: &str) -> (r: Result<String, ClientError>)
    ensures
        r is Ok <==> endpoint_url(base@, path@) is Some,
        r matches Ok(s) ==> endpoint_url(base@, path@) == Some(s@),
        r matches Err(e) ==> e is Url,
{
    let trimmed = trim_slashes(path);
    let p = match path_of(base) {
        Ok(p) => p,
        Err(e) => return Err(ClientError::Url(e)),
    };
    let pc = crate::text::chars_of(p.as_str());
    let dir = if pc.len() > 0 && pc[pc.len() - 1] == '/' {
        string_of(base)
    } else {
        let mut np = string_of(p.as_str());
        crate::text::push_char(&mut np, '/');
        match with_path(base, np.as_str()) {
            Ok(u) => u,
            Err(e) => return Err(ClientError::Url(e)),
        }
    };
    match join(dir.as_str(), trimmed.as_str()) {
        Ok(u) => Ok(u),
        Err(e) => Err(ClientError::Url(e)),
    }
}

} // verus!
