use website::host::{check_request, known_path, AppConfig, JailReason, Verdict};
use website::net::IpAddress;
use website::text::chars_of;

fn config(rpoxy: bool) -> AppConfig {
    AppConfig::new("example.com".to_string(), rpoxy)
}

const PEER: IpAddress = IpAddress::V4(0x0a00_0001);
const FORWARDED: IpAddress = IpAddress::V6(1);

fn check(path: &str, host: Option<&[u8]>) -> Verdict {
    check_request(&config(false), path, host, Some(FORWARDED), Some(PEER))
}

#[test]
fn favicon_gets_teapot() {
    assert_eq!(check("/favicon.ico", Some(b"other.org")), Verdict::Teapot);
    assert_eq!(check("/favicon.ico", None), Verdict::Teapot);
}

#[test]
fn env_files_get_plain_text() {
    assert_eq!(check("/.env", Some(b"example.com")), Verdict::DenyText);
    assert_eq!(check("/app/prod.env", None), Verdict::DenyText);
}

#[test]
fn foreign_host_is_jailed() {
    assert_eq!(
        check("/", Some(b"other.org")),
        Verdict::Jail { reason: JailReason::ForeignHost }
    );
    assert_eq!(
        check("/about", Some(b"EXAMPLE.COM")),
        Verdict::Jail { reason: JailReason::ForeignHost }
    );
}

#[test]
fn foreign_host_may_read_crawler_paths() {
    assert_eq!(
        check("/robots.txt", Some(b"other.org")),
        Verdict::Pass { source: PEER, found_source: true, known_path: true }
    );
    assert_eq!(
        check("/.well-known/security.txt", Some(b"other.org")),
        Verdict::Pass { source: PEER, found_source: true, known_path: false }
    );
}

#[test]
fn host_with_invisible_bytes_reads_as_empty() {
    assert_eq!(
        check("/", Some(b"example.com\x7f")),
        Verdict::Jail { reason: JailReason::ForeignHost }
    );
    let empty_host = AppConfig::new(String::new(), false);
    assert_eq!(
        check_request(&empty_host, "/", Some(b"exa\x01mple"), None, Some(PEER)),
        Verdict::Pass { source: PEER, found_source: true, known_path: true }
    );
}

#[test]
fn host_with_tab_is_text() {
    let tabbed = AppConfig::new("a\tb".to_string(), false);
    assert_eq!(
        check_request(&tabbed, "/", Some(b"a\tb"), None, Some(PEER)),
        Verdict::Pass { source: PEER, found_source: true, known_path: true }
    );
}

#[test]
fn probe_paths_are_jailed() {
    assert_eq!(check("//etc", None), Verdict::Jail { reason: JailReason::MalformedPath });
    assert_eq!(check("/wp-login.php", None), Verdict::Jail { reason: JailReason::WordPress });
    assert_eq!(check("/WP-ADMIN", None), Verdict::Jail { reason: JailReason::WordPress });
    assert_eq!(check("/index.PhP", None), Verdict::Jail { reason: JailReason::WordPress });
    assert_eq!(check("/cgi-bin/luci", None), Verdict::Jail { reason: JailReason::CommonPath });
    assert_eq!(check("/uploads/a.jpg", None), Verdict::Jail { reason: JailReason::CommonPath });
}

#[test]
fn matching_host_passes_with_peer_address() {
    assert_eq!(
        check("/about", Some(b"example.com")),
        Verdict::Pass { source: PEER, found_source: true, known_path: true }
    );
    assert_eq!(
        check("/some/odd/path", Some(b"example.com")),
        Verdict::Pass { source: PEER, found_source: true, known_path: false }
    );
}

#[test]
fn missing_peer_records_unspecified_address() {
    assert_eq!(
        check_request(&config(false), "/art", None, Some(FORWARDED), None),
        Verdict::Pass { source: IpAddress::V4(0), found_source: false, known_path: true }
    );
}

#[test]
fn reverse_proxy_reads_forwarded_address() {
    assert_eq!(
        check_request(&config(true), "/art", None, Some(FORWARDED), Some(PEER)),
        Verdict::Pass { source: FORWARDED, found_source: true, known_path: true }
    );
    assert_eq!(
        check_request(&config(true), "/art", None, None, Some(PEER)),
        Verdict::Pass { source: IpAddress::V4(0), found_source: false, known_path: true }
    );
}

#[test]
fn known_paths() {
    for p in [
        "/static/a.css",
        "/.well-known/matrix/client",
        "/car",
        "/",
        "/art",
        "/about",
        "/.well-known/discord",
        "/robots.txt",
        "/jail",
    ] {
        assert!(known_path(&chars_of(p)), "{}", p);
    }
    for p in ["/contact", "/blog", "/i/am/very/smart", "/cars", ""] {
        assert!(!known_path(&chars_of(p)), "{}", p);
    }
}

#[test]
fn law_passed_requests_are_clean_example() {
    // a request handed on is never one of the turned-away kinds
    for p in ["/favicon.ico", "/x.env", "//a", "/wp", "/a.php", "/cgi-bin", "/upload"] {
        assert!(!matches!(check(p, None), Verdict::Pass { .. }), "{}", p);
    }
}

#[test]
fn law_forwarded_ignored_without_proxy() {
    let a = check_request(&config(false), "/", None, Some(FORWARDED), Some(PEER));
    let b = check_request(&config(false), "/", None, None, Some(PEER));
    assert_eq!(a, b);
}

#[test]
fn law_crawler_paths_ignore_host() {
    for p in ["/robots.txt", "/.well-known/matrix/server", "/.well-known/wp.php"] {
        assert_eq!(check(p, Some(b"other.org")), check(p, None), "{}", p);
    }
}
