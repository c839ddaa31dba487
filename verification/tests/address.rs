use levo::address::{link_address_text, make_url_valid, resolve_link, webtransport_address, webtransport_url};

#[test]
fn url_without_scheme_gets_https() {
    assert_eq!(make_url_valid("localhost/rust.wasm".to_string()), "https://localhost/rust.wasm");
}

#[test]
fn url_with_scheme_is_kept() {
    assert_eq!(make_url_valid("http://localhost/rust.wasm".to_string()), "http://localhost/rust.wasm");
    assert_eq!(make_url_valid("https://velo-studio.xyz/rust.wasm".to_string()), "https://velo-studio.xyz/rust.wasm");
}

#[test]
fn url_mentioning_http_anywhere_is_kept() {
    assert_eq!(make_url_valid("example.com/httpdocs".to_string()), "example.com/httpdocs");
    assert_eq!(make_url_valid("htt".to_string()), "https://htt");
    assert_eq!(make_url_valid(String::new()), "https://");
}

#[test]
fn relative_link_resolves_against_address() {
    assert_eq!(
        resolve_link("localhost/rust.wasm".to_string(), "read-file.wasm".to_string()),
        "localhost/read-file.wasm"
    );
    assert_eq!(
        resolve_link("velo-studio.xyz/a/b.wasm".to_string(), "../c.wasm".to_string()),
        "velo-studio.xyz/c.wasm"
    );
}

#[test]
fn absolute_link_replaces_address() {
    assert_eq!(
        resolve_link("localhost/rust.wasm".to_string(), "https://example.com/x.wasm".to_string()),
        "example.com/x.wasm"
    );
    assert_eq!(
        resolve_link("localhost/rust.wasm".to_string(), "http://example.com/x.wasm".to_string()),
        "http://example.com/x.wasm"
    );
}

#[test]
fn unparsable_address_keeps_link_as_written() {
    assert_eq!(resolve_link("http://".to_string(), "next.wasm".to_string()), "next.wasm");
}

#[test]
fn link_address_strips_every_https() {
    assert_eq!(
        link_address_text(Some("https://a.b/https://c".to_string()), "l".to_string()),
        "a.b/c"
    );
    assert_eq!(link_address_text(None, "next.wasm".to_string()), "next.wasm");
    assert_eq!(link_address_text(Some("ftp://x/".to_string()), "l".to_string()), "ftp://x/");
}

#[test]
fn making_valid_twice_changes_nothing() {
    for s in ["localhost/rust.wasm", "http://a", "", "example.org/x"] {
        let once = make_url_valid(s.to_string());
        assert_eq!(make_url_valid(once.clone()), once);
    }
}

#[test]
fn webtransport_address_uses_host_port_and_path() {
    assert_eq!(
        webtransport_address("localhost/rust.wasm".to_string()),
        Some("https://localhost:4433/rust.wasm".to_string())
    );
    assert_eq!(
        webtransport_address("http://velo-studio.xyz".to_string()),
        Some("https://velo-studio.xyz:4433/".to_string())
    );
    assert_eq!(webtransport_address("http://".to_string()), None);
    assert_eq!(webtransport_url("a", "/b"), "https://a:4433/b");
}
