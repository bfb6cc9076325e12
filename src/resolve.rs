//! Path resolution: joins a request-relative path onto the mirror's base URL,
//! keeping a non-root path prefix of the base.
use vstd::prelude::*;
use vstd::string::StringExecFns;
use vstd::utf8::{decode_utf8, valid_utf8};
use crate::text::{concat_str, ends_with_char, first_is, last_is, starts_with_char, str_equals, utf8_text};

verus! {

/// The path component of the URL that `s` parses as, or `None` where `s` is
/// not a well-formed absolute URL.
pub uninterp spec fn url_path_of(s: Seq<char>) -> Option<Seq<char>>;

/// The serialisation of the URL that `base` parses as, once its path is set to
/// `path`.
pub uninterp spec fn url_with_path_of(base: Seq<char>, path: Seq<char>) -> Seq<char>;

/// Why a request could not be turned into an origin URL.
pub enum ResolutionError {
    /// The mirror's base URL is not a well-formed absolute URL; holds the
    /// parser's description.
    InvalidBase(String),
    /// The request path is not valid UTF-8.
    InvalidPathEncoding,
}

/// Relies on url's `Url::parse` and `Url::path`: on success the URL's path,
/// on failure the parse error's text.
#[verifier::external_body]
fn parse_url_path(s: &str) -> (r: Result<String, String>)
    ensures
        r is Ok <==> url_path_of(s@) is Some,
        r matches Ok(p) ==> url_path_of(s@) == Some(p@),
{
    match url::Url::parse(s) {
        Ok(u) => Ok(u.path().to_owned()),
        Err(e) => Err(e.to_string()),
    }
}

/// Relies on url's `Url::set_path` and `Url::as_str`, on a base that parses.
#[verifier::external_body]
fn url_with_path(base: &str, path: &str) -> (r: String)
    requires
        url_path_of(base@) is Some,
    ensures
        r@ == url_with_path_of(base@, path@),
{
    let mut u = url::Url::parse(base).expect("the base parses");
    u.set_path(path);
    u.as_str().to_owned()
}

/// `buf` with `p` pushed onto it as a path: an absolute `p` replaces `buf`;
/// otherwise one `/` separates them unless `buf` is empty or already ends in
/// one.
pub open spec fn path_pushed(buf: Seq<char>, p: Seq<char>) -> Seq<char> {
    if starts_with_char(p, '/') {
        p
    } else if buf.len() > 0 && !ends_with_char(buf, '/') {
        buf + seq!['/'] + p
    } else {
        buf + p
    }
}

/// The origin path for a request: a root base gives `/` followed by the
/// request; any other base is pushed onto `/` and the request onto that, so
/// the base's own prefix is kept.
pub open spec fn joined_path(base_path: Seq<char>, request: Seq<char>) -> Seq<char> {
    if base_path == seq!['/'] {
        seq!['/'] + request
    } else {
        path_pushed(path_pushed(seq!['/'], base_path), request)
    }
}

/// The origin URL for an already decoded request path, or `None` where the
/// base does not parse.
pub open spec fn resolved_url(base_url: Seq<char>, path: Seq<char>) -> Option<Seq<char>> {
    match url_path_of(base_url) {
        Some(bp) => Some(url_with_path_of(base_url, joined_path(bp, path))),
        None => None,
    }
}

fn push_path(buf: String, p: &str) -> (r: String)
    ensures
        r@ == path_pushed(buf@, p@),
{
    if first_is(p, '/') {
        return String::from_str(p);
    }
    let sep = !last_is(buf.as_str(), '/') && buf.as_str().unicode_len() > 0;
    let mut out = buf;
    if sep {
        proof {
            reveal_strlit("/");
            assert("/"@ =~= seq!['/']);
        }
        out.append("/");
    }
    out.append(p);
    out
}

/// Joins a request path onto the base URL's path component.
pub fn join_path(base_path: &str, request: &str) -> (r: String)
    ensures
        r@ == joined_path(base_path@, request@),
{
    proof {
        reveal_strlit("/");
        assert("/"@ =~= seq!['/']);
    }
    if str_equals(base_path, "/") {
        concat_str("/", request)
    } else {
        let root = String::from_str("/");
        push_path(push_path(root, base_path), request)
    }
}

/// Checks that a raw request path is UTF-8 and decodes it.
pub fn decode_request_path(request_path: &[u8]) -> (r: Result<String, ResolutionError>)
    ensures
        r is Ok <==> valid_utf8(request_path@),
        r matches Ok(s) ==> s@ == decode_utf8(request_path@),
        r matches Err(e) ==> e is InvalidPathEncoding,
{
    match utf8_text(request_path) {
        Some(s) => Ok(s),
        None => Err(ResolutionError::InvalidPathEncoding),
    }
}

/// Resolves an already decoded request path against the base URL.
pub fn resolve_decoded(base_url: &str, path: &str) -> (r: Result<String, ResolutionError>)
    ensures
        r is Ok <==> resolved_url(base_url@, path@) is Some,
        r matches Ok(u) ==> resolved_url(base_url@, path@) == Some(u@),
        r matches Err(e) ==> e is InvalidBase,
{
    match parse_url_path(base_url) {
        Ok(base_path) => {
            let joined = join_path(base_path.as_str(), path);
            Ok(url_with_path(base_url, joined.as_str()))
        },
        Err(text) => Err(ResolutionError::InvalidBase(text)),
    }
}

/// Resolves a raw request path against the mirror's base URL: the base must
/// parse, then the path must be UTF-8; the result is the base URL with its
/// path replaced by the joined path.
pub fn resolve(base_url: &str, request_path: &[u8]) -> (r: Result<String, ResolutionError>)
    ensures
        r matches Err(ResolutionError::InvalidBase(_)) <==> url_path_of(base_url@) is None,
        r matches Err(ResolutionError::InvalidPathEncoding) <==> url_path_of(base_url@) is Some
            && !valid_utf8(request_path@),
        r matches Ok(u) ==> valid_utf8(request_path@) && resolved_url(base_url@, decode_utf8(request_path@)) == Some(u@),
{
    match parse_url_path(base_url) {
        Err(text) => Err(ResolutionError::InvalidBase(text)),
        Ok(base_path) => {
            match decode_request_path(request_path) {
                Err(e) => Err(e),
                Ok(path) => {
                    let joined = join_path(base_path.as_str(), path.as_str());
                    Ok(url_with_path(base_url, joined.as_str()))
                },
            }
        },
    }
}

} // verus!
