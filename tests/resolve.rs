use jsdelivr_proxy::resolve::{decode_request_path, join_path, resolve, resolve_decoded, ResolutionError};

fn resolved_path(u: &str) -> String {
    url::Url::parse(u).unwrap().path().to_string()
}

#[test]
fn base_with_prefix_keeps_prefix() {
    let r = resolve("https://host/prefix", b"a/b.js");
    let u = match r {
        Ok(u) => u,
        Err(_) => panic!("resolution failed"),
    };
    assert_eq!(resolved_path(&u), "/prefix/a/b.js");
    assert_eq!(u, "https://host/prefix/a/b.js");
}

#[test]
fn root_base_gives_slash_and_request() {
    let u = match resolve("https://host/", b"a/b.js") {
        Ok(u) => u,
        Err(_) => panic!("resolution failed"),
    };
    assert_eq!(resolved_path(&u), "/a/b.js");
    assert_eq!(u, "https://host/a/b.js");
}

#[test]
fn base_with_trailing_slash_prefix() {
    let u = match resolve("https://host/prefix/", b"lib/a.js") {
        Ok(u) => u,
        Err(_) => panic!("resolution failed"),
    };
    assert_eq!(resolved_path(&u), "/prefix/lib/a.js");
}

#[test]
fn base_without_path_is_root() {
    let u = match resolve("https://cdn.jsdelivr.net", b"npm/vue@3/dist/vue.js") {
        Ok(u) => u,
        Err(_) => panic!("resolution failed"),
    };
    assert_eq!(u, "https://cdn.jsdelivr.net/npm/vue@3/dist/vue.js");
}

#[test]
fn invalid_base_is_refused() {
    assert!(matches!(resolve("not a url", b"a.js"), Err(ResolutionError::InvalidBase(_))));
    assert!(matches!(resolve_decoded("relative/only", "a.js"), Err(ResolutionError::InvalidBase(_))));
}

#[test]
fn invalid_base_wins_over_invalid_path() {
    assert!(matches!(resolve("::", b"a\xff"), Err(ResolutionError::InvalidBase(_))));
}

#[test]
fn invalid_path_encoding_is_refused() {
    assert!(matches!(
        resolve("https://host/", b"a/\xff\xfe.js"),
        Err(ResolutionError::InvalidPathEncoding)
    ));
    assert!(matches!(decode_request_path(b"\xc3\x28"), Err(ResolutionError::InvalidPathEncoding)));
}

#[test]
fn utf8_path_is_decoded() {
    match decode_request_path("gh/ü/ä.js".as_bytes()) {
        Ok(s) => assert_eq!(s, "gh/ü/ä.js"),
        Err(_) => panic!("decoding failed"),
    }
}

#[test]
fn join_root_base() {
    assert_eq!(join_path("/", "a/b.js"), "/a/b.js");
    assert_eq!(join_path("/", ""), "/");
}

#[test]
fn join_prefixed_base() {
    assert_eq!(join_path("/prefix", "a/b.js"), "/prefix/a/b.js");
    assert_eq!(join_path("/prefix/", "a/b.js"), "/prefix/a/b.js");
    assert_eq!(join_path("/prefix", ""), "/prefix/");
}

#[test]
fn join_absolute_request_replaces_base() {
    assert_eq!(join_path("/prefix", "/x.js"), "/x.js");
}

#[test]
fn join_relative_base_is_rooted() {
    assert_eq!(join_path("prefix", "a.js"), "/prefix/a.js");
}

#[test]
fn empty_request_path_resolves_to_base_directory() {
    match resolve("https://host/", b"") {
        Ok(u) => assert_eq!(u, "https://host/"),
        Err(_) => panic!("resolution failed"),
    }
    match resolve("https://host/prefix", b"") {
        Ok(u) => assert_eq!(u, "https://host/prefix/"),
        Err(_) => panic!("resolution failed"),
    }
}
