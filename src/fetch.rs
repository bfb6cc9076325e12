//! Origin fetcher decisions: the request sent to the mirror and the checks
//! made on its response head.
use vstd::prelude::*;
use vstd::utf8::decode_utf8;
use vstd::string::StringExecFns;
use crate::text::{ascii_chars, ascii_text, lemma_ascii_bytes_decode};

verus! {

/// Content type assumed when the origin declares none.
pub const DEFAULT_CONTENT_TYPE: &'static str = "text/plain";

/// Why a fetch from the origin failed.
pub enum FetchError {
    /// The transfer itself failed; holds the transport's error text.
    Network(String),
    /// The `Content-Type` header is not a visible-ASCII string.
    ContentTypeDecode,
    /// The origin answered with a status outside 200 to 299.
    UpstreamStatus(u16),
}

/// Whether an HTTP status is in the success range.
pub open spec fn is_success_status(status: u16) -> bool {
    200 <= status && status <= 299
}

/// Whether a header byte may appear in a header read as text: a visible
/// ASCII character, a space or a tab.
pub open spec fn is_visible_header_byte(b: u8) -> bool {
    (32 <= b && b < 127) || b == 9
}

/// Whether every byte of a header value may be read as text.
pub open spec fn is_text_header(b: Seq<u8>) -> bool {
    forall|i: int| 0 <= i < b.len() ==> is_visible_header_byte(#[trigger] b[i])
}

/// The content type that a response head declares: the default where the
/// header is absent, its text where the header reads as text, and `None`
/// where it does not.
pub open spec fn declared_content_type(header: Option<Seq<u8>>) -> Option<Seq<char>> {
    match header {
        None => Some(DEFAULT_CONTENT_TYPE@),
        Some(b) => if is_text_header(b) {
            Some(decode_utf8(b))
        } else {
            None
        },
    }
}

/// Reads a header value as text, which succeeds exactly where every byte is
/// visible ASCII, a space or a tab; each byte then stands for one character.
pub fn header_text(b: &[u8]) -> (r: Option<String>)
    ensures
        r is Some <==> is_text_header(b@),
        r matches Some(s) ==> s@ == decode_utf8(b@) && s@ == ascii_chars(b@),
{
    let n = b.len();
    let mut i: usize = 0;
    while i < n
        invariant
            n == b@.len(),
            i <= n,
            forall|k: int| 0 <= k < i ==> is_visible_header_byte(#[trigger] b@[k]),
        decreases n - i,
    {
        let c = b[i];
        if !((32 <= c && c < 127) || c == 9) {
            return None;
        }
        i = i + 1;
    }
    proof {
        lemma_ascii_bytes_decode(b@);
    }
    Some(ascii_text(b))
}

/// Checks a response head: a status outside 200 to 299 is passed on as
/// `UpstreamStatus`; otherwise the declared content type is read, defaulting
/// to `text/plain` where the header is absent.
pub fn inspect_head(status: u16, content_type: Option<&[u8]>) -> (r: Result<String, FetchError>)
    ensures
        !is_success_status(status) ==> (r matches Err(FetchError::UpstreamStatus(s)) && s == status),
        is_success_status(status) ==> match declared_content_type(
            match content_type {
                Some(b) => Some(b@),
                None => None,
            },
        ) {
            Some(ct) => (r matches Ok(t) && t@ == ct),
            None => r matches Err(FetchError::ContentTypeDecode),
        },
{
    if !(200 <= status && status <= 299) {
        return Err(FetchError::UpstreamStatus(status));
    }
    match content_type {
        None => Ok(String::from_str(DEFAULT_CONTENT_TYPE)),
        Some(b) => match header_text(b) {
            Some(t) => Ok(t),
            None => Err(FetchError::ContentTypeDecode),
        },
    }
}

} // verus!
