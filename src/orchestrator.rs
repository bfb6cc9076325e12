//! The cache-aside pipeline as a state machine: the caller performs each
//! action (store read, origin request, body read, store write) and hands the
//! outcome back as an event, until the machine finishes.
use vstd::prelude::*;
use vstd::string::StringExecFns;
use vstd::utf8::{decode_utf8, encode_utf8, valid_utf8, encode_utf8_valid_utf8, encode_utf8_decode_utf8};
use crate::fetch::{declared_content_type, inspect_head, is_success_status, FetchError};
use crate::key::{cache_key, derive_key};
use crate::resolve::{decode_request_path, resolve_decoded, resolved_url, ResolutionError};
use crate::text::concat_str;

verus! {

/// How long a cached resource lives in the store, in seconds.
pub const CACHE_TTL_SECS: u64 = 7200;

/// The mirror that requests are forwarded to, and the identity used there.
pub struct MirrorConfig {
    pub base_url: String,
    pub user_agent: String,
    pub referer: String,
}

/// A failure on the way to the origin: resolving the URL or fetching it.
pub enum UpstreamError {
    Resolution(ResolutionError),
    Fetch(FetchError),
}

/// Why a request could not be served.
pub enum OrchestratorError {
    /// Resolution or fetch failed; the inner error keeps its kind.
    Upstream(UpstreamError),
    /// The cache store failed; holds the store's error text.
    Store(String),
}

/// The error of serving one request through the mirror.
pub type FetchJSDelivrFailureError = OrchestratorError;

/// What the caller is asked to do next.
pub enum Action {
    /// Read the two cache records under these keys.
    ReadCache { mime_key: String, data_key: String },
    /// Send one GET to `url` with these `User-Agent` and `Referer` headers,
    /// and report the response head.
    Fetch { url: String, user_agent: String, referer: String },
    /// Read the whole body of the response whose head was reported.
    ReadBody,
    /// Store both records, each with a time-to-live of `ttl_secs` seconds.
    WriteCache {
        mime_key: String,
        data_key: String,
        content_type: String,
        bytes: Vec<u8>,
        ttl_secs: u64,
    },
    /// The request is answered: the content type and bytes, or the error.
    Finish(Result<(String, Vec<u8>), OrchestratorError>),
}

/// The outcome of the last action, as the caller observed it.
pub enum Event {
    /// The two cache records, each possibly absent, or the store's error text.
    CacheRead(Result<(Option<String>, Option<Vec<u8>>), String>),
    /// The response status and raw `Content-Type` header, or the transport
    /// error text.
    ResponseHead(Result<(u16, Option<Vec<u8>>), String>),
    /// The response body, or the transport error text.
    Body(Result<Vec<u8>, String>),
    /// Whether both cache records were stored, or the store's error text.
    CacheWritten(Result<(), String>),
}

/// Where the machine stands: which event it waits for, or that it is done.
pub enum Phase {
    Reading,
    Fetching,
    ReceivingBody,
    Writing,
    Done,
}

/// One request travelling through the cache-aside pipeline.
pub struct CacheAside {
    pub phase: Phase,
    /// The decoded request path.
    pub path: String,
    pub mime_key: String,
    pub data_key: String,
    pub config: MirrorConfig,
    /// The content type of the fetched resource, once the head was accepted.
    pub content_type: String,
    /// The fetched body, once it was read.
    pub bytes: Vec<u8>,
}

/// The store key of the content-type record of a request path.
pub open spec fn mime_key_of(path: Seq<char>) -> Seq<char> {
    cache_key(path) + seq!['_', 'm', 'i', 'm', 'e']
}

/// The store key of the body record of a request path.
pub open spec fn data_key_of(path: Seq<char>) -> Seq<char> {
    cache_key(path) + seq!['_', 'd', 'a', 't', 'a']
}

/// A cache hit needs both records; either one missing is a miss.
pub open spec fn cached_pair(mime: Option<Seq<char>>, data: Option<Seq<u8>>) -> Option<(Seq<char>, Seq<u8>)> {
    match (mime, data) {
        (Some(m), Some(d)) => Some((m, d)),
        _ => None,
    }
}

pub open spec fn text_view(s: Option<String>) -> Option<Seq<char>> {
    match s {
        Some(t) => Some(t@),
        None => None,
    }
}

pub open spec fn bytes_view(b: Option<Vec<u8>>) -> Option<Seq<u8>> {
    match b {
        Some(v) => Some(v@),
        None => None,
    }
}

/// Whether an event is the one the machine waits for in its phase.
pub open spec fn expects(phase: Phase, ev: Event) -> bool {
    match phase {
        Phase::Reading => ev is CacheRead,
        Phase::Fetching => ev is ResponseHead,
        Phase::ReceivingBody => ev is Body,
        Phase::Writing => ev is CacheWritten,
        Phase::Done => false,
    }
}

impl CacheAside {
    /// Until the machine is done, its two store keys are those of its path.
    pub open spec fn wf(&self) -> bool {
        !(self.phase is Done) ==> {
            &&& self.mime_key@ == mime_key_of(self.path@)
            &&& self.data_key@ == data_key_of(self.path@)
        }
    }

    /// Whether `ev` is the event this machine waits for.
    pub fn accepts(&self, ev: &Event) -> (r: bool)
        ensures
            r == expects(self.phase, *ev),
    {
        match self.phase {
            Phase::Reading => matches!(ev, Event::CacheRead(_)),
            Phase::Fetching => matches!(ev, Event::ResponseHead(_)),
            Phase::ReceivingBody => matches!(ev, Event::Body(_)),
            Phase::Writing => matches!(ev, Event::CacheWritten(_)),
            Phase::Done => false,
        }
    }
}

/// The two store keys of a decoded request path.
pub fn store_keys(path: &str) -> (r: (String, String))
    ensures
        r.0@ == mime_key_of(path@),
        r.1@ == data_key_of(path@),
{
    let key = derive_key(path);
    proof {
        reveal_strlit("_mime");
        reveal_strlit("_data");
        assert("_mime"@ =~= seq!['_', 'm', 'i', 'm', 'e']);
        assert("_data"@ =~= seq!['_', 'd', 'a', 't', 'a']);
    }
    (concat_str(key.as_str(), "_mime"), concat_str(key.as_str(), "_data"))
}

/// The outcome of a step: the machine's phase afterwards and the action it
/// asks for, given its state `s` before the step.
pub open spec fn step_outcome(s: CacheAside, ev: Event, t: CacheAside, a: Action) -> bool {
    match ev {
        Event::CacheRead(Err(e)) => t.phase is Done && (a matches Action::Finish(
            Err(OrchestratorError::Store(m)),
        ) && m@ == e@),
        Event::CacheRead(Ok((mime, data))) => match cached_pair(text_view(mime), bytes_view(data)) {
            Some((ct, body)) => t.phase is Done && (a matches Action::Finish(Ok((c, b))) && c@ == ct
                && b@ == body),
            None => match resolved_url(s.config.base_url@, s.path@) {
                Some(u) => t.phase is Fetching && (a matches Action::Fetch { url, user_agent, referer }
                    && url@ == u && user_agent@ == s.config.user_agent@ && referer@
                    == s.config.referer@),
                None => t.phase is Done && (a matches Action::Finish(
                    Err(OrchestratorError::Upstream(UpstreamError::Resolution(e))),
                ) && e is InvalidBase),
            },
        },
        Event::ResponseHead(Err(e)) => t.phase is Done && (a matches Action::Finish(
            Err(OrchestratorError::Upstream(UpstreamError::Fetch(FetchError::Network(m)))),
        ) && m@ == e@),
        Event::ResponseHead(Ok((status, header))) => if !is_success_status(status) {
            t.phase is Done && (a matches Action::Finish(
                Err(OrchestratorError::Upstream(UpstreamError::Fetch(FetchError::UpstreamStatus(c)))),
            ) && c == status)
        } else {
            match declared_content_type(bytes_view(header)) {
                Some(ct) => t.phase is ReceivingBody && a is ReadBody && t.content_type@ == ct,
                None => t.phase is Done && (a matches Action::Finish(
                    Err(OrchestratorError::Upstream(UpstreamError::Fetch(FetchError::ContentTypeDecode))),
                )),
            }
        },
        Event::Body(Err(e)) => t.phase is Done && (a matches Action::Finish(
            Err(OrchestratorError::Upstream(UpstreamError::Fetch(FetchError::Network(m)))),
        ) && m@ == e@),
        Event::Body(Ok(body)) => t.phase is Writing && t.content_type@ == s.content_type@ && t.bytes@
            == body@ && (a matches Action::WriteCache {
            mime_key,
            data_key,
            content_type,
            bytes,
            ttl_secs,
        } && mime_key@ == mime_key_of(s.path@) && data_key@ == data_key_of(s.path@)
            && content_type@ == s.content_type@ && bytes@ == body@ && ttl_secs == CACHE_TTL_SECS),
        Event::CacheWritten(Err(e)) => t.phase is Done && (a matches Action::Finish(
            Err(OrchestratorError::Store(m)),
        ) && m@ == e@),
        Event::CacheWritten(Ok(())) => t.phase is Done && (a matches Action::Finish(Ok((c, b)))
            && c@ == s.content_type@ && b@ == s.bytes@),
    }
}

impl CacheAside {
    /// Begins serving a raw request path. A path that is not UTF-8 is refused
    /// at once, before any store or origin action; otherwise the first action
    /// reads the path's two cache records.
    pub fn start(request_path: &[u8], config: MirrorConfig) -> (r: (CacheAside, Action))
        ensures
            r.0.wf(),
            r.0.config == config,
            !valid_utf8(request_path@) ==> (r.0.phase is Done && (r.1 matches Action::Finish(
                Err(
                    OrchestratorError::Upstream(
                        UpstreamError::Resolution(ResolutionError::InvalidPathEncoding),
                    ),
                ),
            ))),
            valid_utf8(request_path@) ==> (r.0.phase is Reading && r.0.path@ == decode_utf8(
                request_path@,
            ) && (r.1 matches Action::ReadCache { mime_key, data_key } && mime_key@ == mime_key_of(
                r.0.path@,
            ) && data_key@ == data_key_of(r.0.path@))),
    {
        match decode_request_path(request_path) {
            Err(e) => {
                let machine = CacheAside {
                    phase: Phase::Done,
                    path: String::new(),
                    mime_key: String::new(),
                    data_key: String::new(),
                    config,
                    content_type: String::new(),
                    bytes: Vec::new(),
                };
                (machine, Action::Finish(Err(OrchestratorError::Upstream(UpstreamError::Resolution(e)))))
            },
            Ok(path) => {
                let (mime_key, data_key) = store_keys(path.as_str());
                let action = Action::ReadCache { mime_key: mime_key.clone(), data_key: data_key.clone() };
                let machine = CacheAside {
                    phase: Phase::Reading,
                    path,
                    mime_key,
                    data_key,
                    config,
                    content_type: String::new(),
                    bytes: Vec::new(),
                };
                (machine, action)
            },
        }
    }

    /// Takes the outcome of the last action and returns the next one.
    pub fn step(&mut self, ev: Event) -> (a: Action)
        requires
            old(self).wf(),
            expects(old(self).phase, ev),
        ensures
            final(self).wf(),
            final(self).path == old(self).path,
            final(self).config == old(self).config,
            step_outcome(*old(self), ev, *final(self), a),
    {
        match ev {
            Event::CacheRead(Err(e)) => {
                self.phase = Phase::Done;
                Action::Finish(Err(OrchestratorError::Store(e)))
            },
            Event::CacheRead(Ok((mime, data))) => {
                match (mime, data) {
                    (Some(m), Some(d)) => {
                        self.phase = Phase::Done;
                        Action::Finish(Ok((m, d)))
                    },
                    _ => match resolve_decoded(self.config.base_url.as_str(), self.path.as_str()) {
                        Ok(url) => {
                            self.phase = Phase::Fetching;
                            Action::Fetch {
                                url,
                                user_agent: self.config.user_agent.clone(),
                                referer: self.config.referer.clone(),
                            }
                        },
                        Err(e) => {
                            self.phase = Phase::Done;
                            Action::Finish(Err(OrchestratorError::Upstream(UpstreamError::Resolution(e))))
                        },
                    },
                }
            },
            Event::ResponseHead(Err(e)) => {
                self.phase = Phase::Done;
                Action::Finish(Err(OrchestratorError::Upstream(UpstreamError::Fetch(FetchError::Network(e)))))
            },
            Event::ResponseHead(Ok((status, header))) => {
                let checked = match &header {
                    Some(h) => inspect_head(status, Some(h.as_slice())),
                    None => inspect_head(status, None),
                };
                match checked {
                    Ok(ct) => {
                        self.phase = Phase::ReceivingBody;
                        self.content_type = ct;
                        Action::ReadBody
                    },
                    Err(e) => {
                        self.phase = Phase::Done;
                        Action::Finish(Err(OrchestratorError::Upstream(UpstreamError::Fetch(e))))
                    },
                }
            },
            Event::Body(Err(e)) => {
                self.phase = Phase::Done;
                Action::Finish(Err(OrchestratorError::Upstream(UpstreamError::Fetch(FetchError::Network(e)))))
            },
            Event::Body(Ok(body)) => {
                let copy = body.clone();
                proof {
                    assert(copy@ =~= body@);
                }
                self.bytes = body;
                self.phase = Phase::Writing;
                Action::WriteCache {
                    mime_key: self.mime_key.clone(),
                    data_key: self.data_key.clone(),
                    content_type: self.content_type.clone(),
                    bytes: copy,
                    ttl_secs: CACHE_TTL_SECS,
                }
            },
            Event::CacheWritten(Err(e)) => {
                self.phase = Phase::Done;
                Action::Finish(Err(OrchestratorError::Store(e)))
            },
            Event::CacheWritten(Ok(())) => {
                let mut ct = String::new();
                let mut bytes: Vec<u8> = Vec::new();
                std::mem::swap(&mut ct, &mut self.content_type);
                std::mem::swap(&mut bytes, &mut self.bytes);
                self.phase = Phase::Done;
                Action::Finish(Ok((ct, bytes)))
            },
        }
    }
}

/// What a store read finds under `key` at instant `now` (in seconds): a
/// record is there until the instant at which it expires.
pub open spec fn store_get(store: Map<Seq<char>, (Seq<u8>, int)>, key: Seq<char>, now: int) -> Option<Seq<u8>> {
    if store.contains_key(key) && now < store[key].1 {
        Some(store[key].0)
    } else {
        None
    }
}

/// The store after `value` is written under `key` at instant `now` with a
/// time-to-live of `ttl` seconds.
pub open spec fn store_set_ex(
    store: Map<Seq<char>, (Seq<u8>, int)>,
    key: Seq<char>,
    value: Seq<u8>,
    ttl: int,
    now: int,
) -> Map<Seq<char>, (Seq<u8>, int)> {
    store.insert(key, (value, now + ttl))
}

/// The store after the write action for `path` stored `ct` and `body` at
/// instant `now`.
pub open spec fn cache_written(
    store: Map<Seq<char>, (Seq<u8>, int)>,
    path: Seq<char>,
    ct: Seq<char>,
    body: Seq<u8>,
    now: int,
) -> Map<Seq<char>, (Seq<u8>, int)> {
    store_set_ex(
        store_set_ex(store, mime_key_of(path), encode_utf8(ct), CACHE_TTL_SECS as int, now),
        data_key_of(path),
        body,
        CACHE_TTL_SECS as int,
        now,
    )
}

/// What the read action for `path` finds at instant `now`: the content type
/// (where its record is UTF-8 text) and the body, when both are present.
pub open spec fn cache_lookup(store: Map<Seq<char>, (Seq<u8>, int)>, path: Seq<char>, now: int) -> Option<(Seq<char>, Seq<u8>)> {
    match (store_get(store, mime_key_of(path), now), store_get(store, data_key_of(path), now)) {
        (Some(m), Some(d)) => if valid_utf8(m) {
            cached_pair(Some(decode_utf8(m)), Some(d))
        } else {
            None
        },
        _ => None,
    }
}

proof fn lemma_keys_differ(path: Seq<char>)
    ensures
        mime_key_of(path) != data_key_of(path),
{
    let k = cache_key(path);
    let i: int = k.len() as int + 1;
    assert(mime_key_of(path)[i] == 'm');
    assert(data_key_of(path)[i] == 'd');
}

/// Cache round trip: once the miss path for a request has stored the fetched
/// content type and body, a following request for the same path before the
/// time-to-live runs out reads both records back, and the machine answers it
/// with exactly that pair, without an origin request.
pub proof fn law_cache_round_trip(
    store: Map<Seq<char>, (Seq<u8>, int)>,
    ct: Seq<char>,
    body: Seq<u8>,
    written_at: int,
    now: int,
    s: CacheAside,
    mime: String,
    data: Vec<u8>,
    t: CacheAside,
    a: Action,
)
    requires
        written_at <= now < written_at + CACHE_TTL_SECS,
        mime@ == ct,
        data@ == body,
        step_outcome(s, Event::CacheRead(Ok((Some(mime), Some(data)))), t, a),
    ensures
        mime_key_of(s.path@) != data_key_of(s.path@),
        store_get(cache_written(store, s.path@, ct, body, written_at), mime_key_of(s.path@), now)
            == Some(encode_utf8(ct)),
        store_get(cache_written(store, s.path@, ct, body, written_at), data_key_of(s.path@), now)
            == Some(body),
        cache_lookup(cache_written(store, s.path@, ct, body, written_at), s.path@, now) == Some(
            (ct, body),
        ),
        t.phase is Done,
        a matches Action::Finish(Ok((c, b))) && c@ == ct && b@ == body,
{
    lemma_keys_differ(s.path@);
    encode_utf8_valid_utf8(ct);
    encode_utf8_decode_utf8(ct);
}

/// Expiry: a record written at least the time-to-live ago is absent, so the
/// read finds neither record and the machine fetches from the origin afresh.
pub proof fn law_expired_entry_refetched(
    store: Map<Seq<char>, (Seq<u8>, int)>,
    ct: Seq<char>,
    body: Seq<u8>,
    written_at: int,
    now: int,
    s: CacheAside,
    t: CacheAside,
    a: Action,
)
    requires
        now >= written_at + CACHE_TTL_SECS,
        resolved_url(s.config.base_url@, s.path@) is Some,
        step_outcome(s, Event::CacheRead(Ok((None, None))), t, a),
    ensures
        store_get(cache_written(store, s.path@, ct, body, written_at), mime_key_of(s.path@), now)
            is None,
        store_get(cache_written(store, s.path@, ct, body, written_at), data_key_of(s.path@), now)
            is None,
        cache_lookup(cache_written(store, s.path@, ct, body, written_at), s.path@, now) is None,
        t.phase is Fetching,
        a is Fetch,
{
    lemma_keys_differ(s.path@);
}

} // verus!
