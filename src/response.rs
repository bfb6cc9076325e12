//! The JSON envelope of API responses and the caller-facing form of each
//! pipeline error.
use vstd::prelude::*;
use vstd::string::StringExecFns;
use crate::fetch::FetchError;
use crate::fetch::is_success_status;
use crate::orchestrator::{step_outcome, Action, CacheAside, Event, OrchestratorError, UpstreamError};
use crate::resolve::ResolutionError;
use crate::time::must_get_timestamp;

verus! {

/// Message of a response whose code has no message of its own.
pub const UNKNOWN_ERROR_MESSAGE: &'static str = "Unknown Error. Please contact developer.";

/// Message of an `InvalidPathEncoding` error.
pub const PATH_NOT_UTF8_MESSAGE: &'static str = "Path is not valid UTF-8";

/// Message of a `ContentTypeDecode` error.
pub const HEADER_NOT_TEXT_MESSAGE: &'static str = "failed to convert header to a str";

/// The body of every API response.
pub struct ResponseBase<T> {
    pub status: i64,
    pub message: String,
    pub data: Option<T>,
    /// Milliseconds since the Unix epoch when the response was built.
    pub ts: u128,
}

/// An API response: the HTTP status and the JSON body.
pub struct APIResponse<T> {
    pub status: u16,
    pub body: ResponseBase<T>,
}

/// The standard message of the error codes that have one.
pub open spec fn known_error_message(code: i64) -> Option<Seq<char>> {
    if code == 400 {
        Some("Bad Request"@)
    } else if code == 401 {
        Some("Unauthorized"@)
    } else if code == 403 {
        Some("Forbidden"@)
    } else if code == 404 {
        Some("Not Found"@)
    } else if code == 500 {
        Some("Server Error"@)
    } else {
        None
    }
}

/// The message used for a code where none is given.
pub open spec fn default_message(code: i64) -> Seq<char> {
    match known_error_message(code) {
        Some(m) => m,
        None => UNKNOWN_ERROR_MESSAGE@,
    }
}

/// The HTTP status of a response with body code `code`: the code itself, read
/// as a 16-bit status, where it is positive, and 200 otherwise.
pub open spec fn http_status_for(code: i64) -> u16 {
    if code > 0 {
        code as u16
    } else {
        200
    }
}

/// The message for a code where none is given.
pub fn error_message(code: i64) -> (r: &'static str)
    ensures
        r@ == default_message(code),
{
    if code == 400 {
        "Bad Request"
    } else if code == 401 {
        "Unauthorized"
    } else if code == 403 {
        "Forbidden"
    } else if code == 404 {
        "Not Found"
    } else if code == 500 {
        "Server Error"
    } else {
        UNKNOWN_ERROR_MESSAGE
    }
}

/// A success response with message `Ok`.
pub fn success<T>(data: T) -> (r: APIResponse<T>)
    ensures
        r.status == 200,
        r.body.status == 200,
        r.body.message@ == "Ok"@,
        r.body.data == Some(data),
{
    success_with_message(data, String::from_str("Ok"))
}

/// A success response with the given message.
pub fn success_with_message<T>(data: T, message: String) -> (r: APIResponse<T>)
    ensures
        r.status == 200,
        r.body.status == 200,
        r.body.message == message,
        r.body.data == Some(data),
{
    APIResponse {
        status: 200,
        body: ResponseBase { status: 200, message, data: Some(data), ts: must_get_timestamp() },
    }
}

/// A failure response carrying the code's standard message.
pub fn fail<T>(code: i64, data: Option<T>) -> (r: APIResponse<T>)
    ensures
        r.status == http_status_for(code),
        r.body.status == code,
        r.body.message@ == default_message(code),
        r.body.data == data,
{
    fail_with_message(code, data, String::new())
}

/// A failure response; an empty message is replaced by the code's standard
/// message.
pub fn fail_with_message<T>(code: i64, data: Option<T>, message: String) -> (r: APIResponse<T>)
    ensures
        r.status == http_status_for(code),
        r.body.status == code,
        r.body.message@ == (if message@.len() == 0 {
            default_message(code)
        } else {
            message@
        }),
        r.body.data == data,
{
    let status: u16 = if code > 0 {
        code as u16
    } else {
        200
    };
    let message = if message.as_str().unicode_len() == 0 {
        String::from_str(error_message(code))
    } else {
        message
    };
    APIResponse {
        status,
        body: ResponseBase { status: code, message, data, ts: must_get_timestamp() },
    }
}

/// The caller-facing status of each error kind.
pub open spec fn error_status(e: OrchestratorError) -> u16 {
    match e {
        OrchestratorError::Upstream(UpstreamError::Resolution(_)) => 400,
        OrchestratorError::Upstream(UpstreamError::Fetch(FetchError::Network(_))) => 500,
        OrchestratorError::Upstream(UpstreamError::Fetch(FetchError::ContentTypeDecode)) => 400,
        OrchestratorError::Upstream(UpstreamError::Fetch(FetchError::UpstreamStatus(c))) => c,
        OrchestratorError::Store(_) => 500,
    }
}

/// The caller-facing message of each error kind; an upstream status has none.
pub open spec fn error_text(e: OrchestratorError) -> Seq<char> {
    match e {
        OrchestratorError::Upstream(UpstreamError::Resolution(ResolutionError::InvalidBase(t))) => t@,
        OrchestratorError::Upstream(UpstreamError::Resolution(ResolutionError::InvalidPathEncoding)) => PATH_NOT_UTF8_MESSAGE@,
        OrchestratorError::Upstream(UpstreamError::Fetch(FetchError::Network(t))) => t@,
        OrchestratorError::Upstream(UpstreamError::Fetch(FetchError::ContentTypeDecode)) => HEADER_NOT_TEXT_MESSAGE@,
        OrchestratorError::Upstream(UpstreamError::Fetch(FetchError::UpstreamStatus(_))) => Seq::empty(),
        OrchestratorError::Store(t) => t@,
    }
}

impl OrchestratorError {
    /// The HTTP status the caller answers with.
    pub fn status_code(&self) -> (r: u16)
        ensures
            r == error_status(*self),
    {
        match self {
            OrchestratorError::Upstream(UpstreamError::Resolution(_)) => 400,
            OrchestratorError::Upstream(UpstreamError::Fetch(FetchError::Network(_))) => 500,
            OrchestratorError::Upstream(UpstreamError::Fetch(FetchError::ContentTypeDecode)) => 400,
            OrchestratorError::Upstream(UpstreamError::Fetch(FetchError::UpstreamStatus(c))) => *c,
            OrchestratorError::Store(_) => 500,
        }
    }

    /// The text describing the error; empty for an upstream status.
    pub fn message(&self) -> (r: String)
        ensures
            r@ == error_text(*self),
    {
        match self {
            OrchestratorError::Upstream(UpstreamError::Resolution(ResolutionError::InvalidBase(t))) => t.clone(),
            OrchestratorError::Upstream(UpstreamError::Resolution(ResolutionError::InvalidPathEncoding)) => String::from_str(PATH_NOT_UTF8_MESSAGE),
            OrchestratorError::Upstream(UpstreamError::Fetch(FetchError::Network(t))) => t.clone(),
            OrchestratorError::Upstream(UpstreamError::Fetch(FetchError::ContentTypeDecode)) => String::from_str(HEADER_NOT_TEXT_MESSAGE),
            OrchestratorError::Upstream(UpstreamError::Fetch(FetchError::UpstreamStatus(_))) => String::new(),
            OrchestratorError::Store(t) => t.clone(),
        }
    }

    /// The failure response for the error: its status as the code, and its
    /// text as the message, or the code's standard message where the text is
    /// empty.
    pub fn to_response(&self) -> (r: APIResponse<()>)
        ensures
            r.status == http_status_for(error_status(*self) as i64),
            r.body.status == error_status(*self) as i64,
            r.body.message@ == (if error_text(*self).len() == 0 {
                default_message(error_status(*self) as i64)
            } else {
                error_text(*self)
            }),
            r.body.data is None,
    {
        fail_with_message(self.status_code() as i64, None, self.message())
    }
}

/// Upstream status passthrough: an origin answering with any HTTP status
/// outside the success range ends the request with `UpstreamStatus` of that
/// status, and the caller answers with the very same status.
pub proof fn law_upstream_status_passthrough(
    s: CacheAside,
    status: u16,
    header: Option<Vec<u8>>,
    t: CacheAside,
    a: Action,
)
    requires
        100 <= status <= 999,
        !is_success_status(status),
        step_outcome(s, Event::ResponseHead(Ok((status, header))), t, a),
    ensures
        a matches Action::Finish(Err(e)) && e == OrchestratorError::Upstream(
            UpstreamError::Fetch(FetchError::UpstreamStatus(status)),
        ) && error_status(e) == status && http_status_for(error_status(e) as i64) == status,
{
}

} // verus!
