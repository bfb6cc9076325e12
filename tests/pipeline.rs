use std::collections::HashMap;

use jsdelivr_proxy::fetch::FetchError;
use jsdelivr_proxy::orchestrator::{
    Action, CacheAside, Event, MirrorConfig, OrchestratorError, UpstreamError, CACHE_TTL_SECS,
};
use jsdelivr_proxy::resolve::ResolutionError;

/// A store whose records expire: key to (bytes, expiry instant in seconds).
struct Store {
    records: HashMap<String, (Vec<u8>, u64)>,
    now: u64,
    reads: usize,
    writes: usize,
    fail_reads: bool,
    fail_writes: bool,
}

impl Store {
    fn new() -> Store {
        Store { records: HashMap::new(), now: 0, reads: 0, writes: 0, fail_reads: false, fail_writes: false }
    }

    fn get(&self, key: &str) -> Option<Vec<u8>> {
        match self.records.get(key) {
            Some((v, expiry)) if self.now < *expiry => Some(v.clone()),
            _ => None,
        }
    }
}

/// An origin answering every request with one response.
struct Origin {
    status: u16,
    content_type: Option<Vec<u8>>,
    body: Vec<u8>,
    fetches: usize,
    urls: Vec<String>,
    head_error: Option<String>,
}

impl Origin {
    fn new(status: u16, content_type: Option<&[u8]>, body: &[u8]) -> Origin {
        Origin {
            status,
            content_type: content_type.map(|c| c.to_vec()),
            body: body.to_vec(),
            fetches: 0,
            urls: Vec::new(),
            head_error: None,
        }
    }
}

fn config(base: &str) -> MirrorConfig {
    MirrorConfig {
        base_url: base.to_string(),
        user_agent: "agent/1".to_string(),
        referer: base.to_string(),
    }
}

fn serve(
    path: &[u8],
    cfg: MirrorConfig,
    store: &mut Store,
    origin: &mut Origin,
) -> Result<(String, Vec<u8>), OrchestratorError> {
    let (mut machine, mut action) = CacheAside::start(path, cfg);
    loop {
        let ev = match action {
            Action::Finish(r) => return r,
            Action::ReadCache { mime_key, data_key } => {
                store.reads += 1;
                if store.fail_reads {
                    Event::CacheRead(Err("connection refused".to_string()))
                } else {
                    let mime = store.get(&mime_key).map(|b| String::from_utf8(b).unwrap());
                    Event::CacheRead(Ok((mime, store.get(&data_key))))
                }
            }
            Action::Fetch { url, .. } => {
                origin.fetches += 1;
                origin.urls.push(url);
                match &origin.head_error {
                    Some(e) => Event::ResponseHead(Err(e.clone())),
                    None => Event::ResponseHead(Ok((origin.status, origin.content_type.clone()))),
                }
            }
            Action::ReadBody => Event::Body(Ok(origin.body.clone())),
            Action::WriteCache { mime_key, data_key, content_type, bytes, ttl_secs } => {
                store.writes += 1;
                if store.fail_writes {
                    Event::CacheWritten(Err("read-only replica".to_string()))
                } else {
                    let expiry = store.now + ttl_secs;
                    store.records.insert(mime_key, (content_type.into_bytes(), expiry));
                    store.records.insert(data_key, (bytes, expiry));
                    Event::CacheWritten(Ok(()))
                }
            }
        };
        assert!(machine.accepts(&ev));
        action = machine.step(ev);
    }
}

#[test]
fn miss_fetches_then_hit_is_served_from_cache() {
    let mut store = Store::new();
    let mut origin = Origin::new(200, Some(b"application/javascript"), b"let a = 1;");
    let first = serve(b"a/b.js", config("https://host/prefix"), &mut store, &mut origin);
    match first {
        Ok((ct, bytes)) => {
            assert_eq!(ct, "application/javascript");
            assert_eq!(bytes, b"let a = 1;".to_vec());
        }
        Err(_) => panic!("first request failed"),
    }
    assert_eq!(origin.fetches, 1);
    assert_eq!(origin.urls[0], "https://host/prefix/a/b.js");
    assert_eq!(store.writes, 1);
    store.now = 10;
    let second = serve(b"a/b.js", config("https://host/prefix"), &mut store, &mut origin);
    match second {
        Ok((ct, bytes)) => {
            assert_eq!(ct, "application/javascript");
            assert_eq!(bytes, b"let a = 1;".to_vec());
        }
        Err(_) => panic!("second request failed"),
    }
    assert_eq!(origin.fetches, 1);
    assert_eq!(store.writes, 1);
}

#[test]
fn expired_entry_is_fetched_again() {
    let mut store = Store::new();
    let mut origin = Origin::new(200, Some(b"text/css"), b"body{}");
    assert!(serve(b"x.css", config("https://host/"), &mut store, &mut origin).is_ok());
    assert_eq!(origin.fetches, 1);
    store.now = CACHE_TTL_SECS - 1;
    assert!(serve(b"x.css", config("https://host/"), &mut store, &mut origin).is_ok());
    assert_eq!(origin.fetches, 1);
    store.now = CACHE_TTL_SECS;
    assert!(serve(b"x.css", config("https://host/"), &mut store, &mut origin).is_ok());
    assert_eq!(origin.fetches, 2);
    assert_eq!(store.writes, 2);
}

#[test]
fn half_present_record_is_a_miss() {
    let mut store = Store::new();
    let mut origin = Origin::new(200, None, b"x");
    let (mime_key, _) = jsdelivr_proxy::orchestrator::store_keys("only/mime.js");
    store.records.insert(mime_key, (b"text/plain".to_vec(), 100));
    assert!(serve(b"only/mime.js", config("https://host/"), &mut store, &mut origin).is_ok());
    assert_eq!(origin.fetches, 1);
}

#[test]
fn ttl_is_two_hours() {
    assert_eq!(CACHE_TTL_SECS, 7200);
}

#[test]
fn upstream_not_found_is_passed_through() {
    let mut store = Store::new();
    let mut origin = Origin::new(404, None, b"");
    let r = serve(b"missing.js", config("https://host/"), &mut store, &mut origin);
    match r {
        Err(e) => {
            assert!(matches!(
                e,
                OrchestratorError::Upstream(UpstreamError::Fetch(FetchError::UpstreamStatus(404)))
            ));
            assert_eq!(e.status_code(), 404);
            let resp = e.to_response();
            assert_eq!(resp.status, 404);
            assert_eq!(resp.body.status, 404);
            assert_eq!(resp.body.message, "Not Found");
        }
        Ok(_) => panic!("a 404 was served"),
    }
    assert_eq!(store.writes, 0);
}

#[test]
fn missing_content_type_is_text_plain() {
    let mut store = Store::new();
    let mut origin = Origin::new(200, None, b"hello");
    match serve(b"readme", config("https://host/"), &mut store, &mut origin) {
        Ok((ct, bytes)) => {
            assert_eq!(ct, "text/plain");
            assert_eq!(bytes, b"hello".to_vec());
        }
        Err(_) => panic!("request failed"),
    }
}

#[test]
fn invalid_path_encoding_touches_nothing() {
    let mut store = Store::new();
    let mut origin = Origin::new(200, None, b"x");
    let r = serve(b"a/\xff.js", config("https://host/"), &mut store, &mut origin);
    assert!(matches!(
        r,
        Err(OrchestratorError::Upstream(UpstreamError::Resolution(ResolutionError::InvalidPathEncoding)))
    ));
    assert_eq!(store.reads, 0);
    assert_eq!(store.writes, 0);
    assert_eq!(origin.fetches, 0);
}

#[test]
fn invalid_path_encoding_finishes_at_start() {
    let (_, action) = CacheAside::start(b"\xc0\xaf", config("https://host/"));
    assert!(matches!(
        action,
        Action::Finish(Err(OrchestratorError::Upstream(UpstreamError::Resolution(
            ResolutionError::InvalidPathEncoding
        ))))
    ));
}

#[test]
fn store_read_failure_is_store_error() {
    let mut store = Store::new();
    store.fail_reads = true;
    let mut origin = Origin::new(200, None, b"x");
    match serve(b"a.js", config("https://host/"), &mut store, &mut origin) {
        Err(OrchestratorError::Store(text)) => assert_eq!(text, "connection refused"),
        _ => panic!("expected a store error"),
    }
    assert_eq!(origin.fetches, 0);
}

#[test]
fn store_write_failure_discards_fetched_bytes() {
    let mut store = Store::new();
    store.fail_writes = true;
    let mut origin = Origin::new(200, None, b"x");
    match serve(b"a.js", config("https://host/"), &mut store, &mut origin) {
        Err(e) => {
            assert!(matches!(e, OrchestratorError::Store(_)));
            assert_eq!(e.to_response().status, 500);
        }
        Ok(_) => panic!("expected a store error"),
    }
}

#[test]
fn network_failure_is_upstream_network_error() {
    let mut store = Store::new();
    let mut origin = Origin::new(200, None, b"x");
    origin.head_error = Some("timed out".to_string());
    match serve(b"a.js", config("https://host/"), &mut store, &mut origin) {
        Err(e) => {
            assert!(matches!(e, OrchestratorError::Upstream(UpstreamError::Fetch(FetchError::Network(_)))));
            let resp = e.to_response();
            assert_eq!(resp.status, 500);
            assert_eq!(resp.body.message, "timed out");
        }
        Ok(_) => panic!("expected a network error"),
    }
}

#[test]
fn invalid_base_on_miss_is_upstream_resolution_error() {
    let mut store = Store::new();
    let mut origin = Origin::new(200, None, b"x");
    match serve(b"a.js", config("no scheme"), &mut store, &mut origin) {
        Err(e) => {
            assert!(matches!(
                e,
                OrchestratorError::Upstream(UpstreamError::Resolution(ResolutionError::InvalidBase(_)))
            ));
            assert_eq!(e.to_response().status, 400);
        }
        Ok(_) => panic!("expected a resolution error"),
    }
    assert_eq!(origin.fetches, 0);
}

#[test]
fn bad_content_type_is_decode_error() {
    let mut store = Store::new();
    let mut origin = Origin::new(200, Some(b"text/\x00"), b"x");
    match serve(b"a.js", config("https://host/"), &mut store, &mut origin) {
        Err(e) => {
            assert!(matches!(e, OrchestratorError::Upstream(UpstreamError::Fetch(FetchError::ContentTypeDecode))));
            let resp = e.to_response();
            assert_eq!(resp.status, 400);
            assert_eq!(resp.body.message, "failed to convert header to a str");
        }
        Ok(_) => panic!("expected a decode error"),
    }
}

#[test]
fn fetch_carries_identity_headers() {
    let cfg = MirrorConfig {
        base_url: "https://host/".to_string(),
        user_agent: "ua/2".to_string(),
        referer: "https://ref/".to_string(),
    };
    let (mut machine, action) = CacheAside::start(b"a.js", cfg);
    assert!(matches!(action, Action::ReadCache { .. }));
    match machine.step(Event::CacheRead(Ok((None, None)))) {
        Action::Fetch { url, user_agent, referer } => {
            assert_eq!(url, "https://host/a.js");
            assert_eq!(user_agent, "ua/2");
            assert_eq!(referer, "https://ref/");
        }
        _ => panic!("expected a fetch"),
    }
    assert!(!machine.accepts(&Event::Body(Ok(Vec::new()))));
}
