use ptrack::assets::{normalize_path, AssetTable, NOT_FOUND_MIME, NOT_FOUND_TEXT};
use ptrack::gate::{is_leader, loopback, PeerAddr};

fn table() -> AssetTable {
    let mut t = AssetTable::new();
    t.add(String::from("index.html"), b"<html>index</html>".to_vec());
    t.add(String::from("leader.html"), b"<html>leader</html>".to_vec());
    t.add(String::from("style.css"), b"body{}".to_vec());
    t.add(String::from("README"), b"plain".to_vec());
    t
}

#[test]
fn root_path_aliases_the_default_document() {
    let t = table();
    let via_root = t.resolve("/", false);
    let explicit = t.resolve("/index.html", false);
    assert!(via_root.found);
    assert_eq!(via_root.body, explicit.body);
    assert_eq!(via_root.mime, explicit.mime);
    assert_eq!(via_root.body, b"<html>index</html>".to_vec());
}

#[test]
fn privileged_document_denied_to_non_leader_looks_missing() {
    let t = table();
    let denied = t.resolve("/leader.html", false);
    let missing = t.resolve("/no-such-page.html", false);
    assert!(!denied.found);
    assert!(!missing.found);
    assert_eq!(denied.body, missing.body);
    assert_eq!(denied.mime, missing.mime);
    assert_eq!(denied.mime, String::from(NOT_FOUND_MIME));
    assert_eq!(denied.body, NOT_FOUND_TEXT.as_bytes().to_vec());
}

#[test]
fn privileged_document_served_to_leader() {
    let t = table();
    let served = t.resolve("/leader.html", true);
    assert!(served.found);
    assert_eq!(served.body, b"<html>leader</html>".to_vec());
    assert_eq!(served.mime, String::from("text/html"));
}

#[test]
fn mime_is_guessed_from_the_file_extension() {
    let t = table();
    assert_eq!(t.resolve("/style.css", false).mime, String::from("text/css"));
    assert_eq!(
        t.resolve("/index.html", false).mime,
        String::from("text/html")
    );
}

#[test]
fn unknown_extension_falls_back_to_octet_stream() {
    let t = table();
    let r = t.resolve("/README", false);
    assert!(r.found);
    assert_eq!(r.mime, String::from("application/octet-stream"));
}

#[test]
fn unknown_path_yields_the_fixed_not_found_reply() {
    let t = table();
    let r = t.resolve("/missing.png", true);
    assert!(!r.found);
    assert_eq!(r.mime, String::from("text/html"));
    assert_eq!(r.body, NOT_FOUND_TEXT.as_bytes().to_vec());
}

#[test]
fn normalize_strips_one_leading_separator() {
    assert_eq!(normalize_path("/a/b.css"), String::from("a/b.css"));
    assert_eq!(normalize_path("/"), String::from("index.html"));
    assert_eq!(normalize_path("plain"), String::from("plain"));
    assert_eq!(normalize_path(""), String::from("index.html"));
}

#[test]
fn loopback_classification() {
    assert!(loopback(&PeerAddr::V4 { a: 127, b: 0, c: 0, d: 1 }));
    assert!(loopback(&PeerAddr::V4 { a: 127, b: 255, c: 0, d: 7 }));
    assert!(!loopback(&PeerAddr::V4 { a: 128, b: 0, c: 0, d: 1 }));
    assert!(!loopback(&PeerAddr::V4 { a: 192, b: 168, c: 1, d: 1 }));
    assert!(loopback(&PeerAddr::V6 { segments: [0, 0, 0, 0, 0, 0, 0, 1] }));
    assert!(!loopback(&PeerAddr::V6 { segments: [0, 0, 0, 0, 0, 0, 0, 2] }));
    assert!(!loopback(&PeerAddr::V6 { segments: [0x2001, 0, 0, 0, 0, 0, 0, 1] }));
}

#[test]
fn absent_peer_address_is_never_leader() {
    assert!(!is_leader(&None));
    assert!(is_leader(&Some(PeerAddr::V4 { a: 127, b: 0, c: 0, d: 1 })));
    assert!(!is_leader(&Some(PeerAddr::V4 { a: 10, b: 0, c: 0, d: 1 })));
}
