use vstd::prelude::*;

use crate::net::IpAddress;
use crate::text::{
    ascii_lower, chars_eq, chars_of, ends_with, has_prefix, has_suffix, header_text,
    header_text_differs, lower_ends_with, lower_starts_with, starts_with,
};

verus! {

/// The settings of the site that the host check reads.
#[derive(Clone, Debug)]
pub struct AppConfig {
    /// The host name that the site is served under; requests for another host are jailed.
    pub host: String,
    /// Whether the site runs behind a reverse proxy, so that the source address is taken from
    /// the `X-Forwarded-For` header rather than from the connection.
    pub rpoxy: bool,
}

impl AppConfig {
    /// The settings for the given host name and reverse-proxy flag.
    pub fn new(host: String, rpoxy: bool) -> (c: AppConfig)
        ensures
            c.host@ == host@,
            c.rpoxy == rpoxy,
    {
        AppConfig { host, rpoxy }
    }
}

/// Why a request is jailed.
#[derive(Clone, Copy, Debug, PartialEq, Eq, Structural)]
pub enum JailReason {
    /// It names another host, for a path that crawlers are not meant to read.
    ForeignHost,
    /// Its path begins with `//`.
    MalformedPath,
    /// Its path is a WordPress or PHP one.
    WordPress,
    /// Its path is a CGI or upload one.
    CommonPath,
}

/// What the host check decides for one request.
#[derive(Clone, Copy, Debug, PartialEq, Eq, Structural)]
pub enum Verdict {
    /// Answer `418 I'm a Teapot`.
    Teapot,
    /// Answer with the plain-text deterrent.
    DenyText,
    /// Answer with a jail file (or the plain-text deterrent when there is none).
    Jail { reason: JailReason },
    /// Hand the request on, with the source address to record for it. `found_source` tells
    /// whether that address was found (else it is `0.0.0.0`); `known_path` tells whether the
    /// path is one that the site serves (others are logged as strange).
    Pass { source: IpAddress, found_source: bool, known_path: bool },
}

/// The request names a host other than the configured one.
pub open spec fn host_mismatch(configured: Seq<char>, host: Option<Seq<u8>>) -> bool {
    match host {
        Some(bytes) => header_text(bytes) != configured,
        None => false,
    }
}

/// A path that the site serves itself; any other path that gets through is logged as strange.
pub open spec fn is_known_path(path: Seq<char>) -> bool {
    ||| has_prefix(path, "/static"@)
    ||| has_prefix(path, "/.well-known/matrix"@)
    ||| path == "/car"@
    ||| path == "/"@
    ||| path == "/art"@
    ||| path == "/about"@
    ||| path == "/.well-known/discord"@
    ||| path == "/robots.txt"@
    ||| path == "/jail"@
}

/// A path that bots probe for: doubled slashes, WordPress, PHP, CGI and upload paths.
pub open spec fn is_probe_path(path: Seq<char>) -> bool {
    ||| has_prefix(path, "//"@)
    ||| has_prefix(ascii_lower(path), "/wp"@)
    ||| has_suffix(ascii_lower(path), ".php"@)
    ||| has_prefix(path, "/cgi-bin"@)
    ||| has_prefix(path, "/upload"@)
}

/// A path that stays reachable under any host, since crawlers are meant to read it.
pub open spec fn is_crawler_path(path: Seq<char>) -> bool {
    has_prefix(path, "/.well-known"@) || path == "/robots.txt"@
}

/// Where the source address of a request is read from: the `X-Forwarded-For` header behind a
/// reverse proxy, the connection otherwise.
pub open spec fn source_found(
    rpoxy: bool,
    forwarded: Option<IpAddress>,
    peer: Option<IpAddress>,
) -> Option<IpAddress> {
    if rpoxy {
        forwarded
    } else {
        peer
    }
}

/// The source address recorded for a request that is handed on: the one found, or `0.0.0.0`.
pub open spec fn source_address(
    rpoxy: bool,
    forwarded: Option<IpAddress>,
    peer: Option<IpAddress>,
) -> IpAddress {
    match source_found(rpoxy, forwarded, peer) {
        Some(a) => a,
        None => IpAddress::V4(0),
    }
}

/// The decision of the host check for a request with the given path, `Host` header bytes,
/// address parsed from `X-Forwarded-For` and address of the connection.
pub open spec fn verdict(
    configured: Seq<char>,
    rpoxy: bool,
    path: Seq<char>,
    host: Option<Seq<u8>>,
    forwarded: Option<IpAddress>,
    peer: Option<IpAddress>,
) -> Verdict {
    if path == "/favicon.ico"@ {
        Verdict::Teapot
    } else if has_suffix(path, ".env"@) {
        Verdict::DenyText
    } else if host_mismatch(configured, host) && !is_crawler_path(path) {
        Verdict::Jail { reason: JailReason::ForeignHost }
    } else if has_prefix(path, "//"@) {
        Verdict::Jail { reason: JailReason::MalformedPath }
    } else if has_prefix(ascii_lower(path), "/wp"@) || has_suffix(ascii_lower(path), ".php"@) {
        Verdict::Jail { reason: JailReason::WordPress }
    } else if has_prefix(path, "/cgi-bin"@) || has_prefix(path, "/upload"@) {
        Verdict::Jail { reason: JailReason::CommonPath }
    } else {
        Verdict::Pass {
            source: source_address(rpoxy, forwarded, peer),
            found_source: source_found(rpoxy, forwarded, peer) is Some,
            known_path: is_known_path(path),
        }
    }
}

/// The host check: decides, for a request with `path`, the bytes of its `Host` header (if
/// any), the address parsed from its `X-Forwarded-For` header (if any) and the address of the
/// connection (if known), whether it is answered at once or handed on.
pub fn check_request(
    config: &AppConfig,
    path: &str,
    host: Option<&[u8]>,
    forwarded: Option<IpAddress>,
    peer: Option<IpAddress>,
) -> (v: Verdict)
    ensures
        v == verdict(
            config.host@,
            config.rpoxy,
            path@,
            match host {
                Some(h) => Some(h@),
                None => None,
            },
            forwarded,
            peer,
        ),
{
    let p = chars_of(path);
    if chars_eq(p.as_slice(), chars_of("/favicon.ico").as_slice()) {
        return Verdict::Teapot;
    }
    if ends_with(p.as_slice(), chars_of(".env").as_slice()) {
        return Verdict::DenyText;
    }
    let mismatch = match host {
        Some(h) => header_text_differs(chars_of(config.host.as_str()).as_slice(), h),
        None => false,
    };
    if mismatch {
        let crawler = starts_with(p.as_slice(), chars_of("/.well-known").as_slice()) || chars_eq(
            p.as_slice(),
            chars_of("/robots.txt").as_slice(),
        );
        if !crawler {
            return Verdict::Jail { reason: JailReason::ForeignHost };
        }
    }
    if starts_with(p.as_slice(), chars_of("//").as_slice()) {
        return Verdict::Jail { reason: JailReason::MalformedPath };
    }
    if lower_starts_with(p.as_slice(), chars_of("/wp").as_slice()) || lower_ends_with(
        p.as_slice(),
        chars_of(".php").as_slice(),
    ) {
        return Verdict::Jail { reason: JailReason::WordPress };
    }
    if starts_with(p.as_slice(), chars_of("/cgi-bin").as_slice()) || starts_with(
        p.as_slice(),
        chars_of("/upload").as_slice(),
    ) {
        return Verdict::Jail { reason: JailReason::CommonPath };
    }
    let known_path = known_path(p.as_slice());
    let found = if config.rpoxy {
        forwarded
    } else {
        peer
    };
    let (source, found_source) = match found {
        Some(a) => (a, true),
        None => (IpAddress::unspecified(), false),
    };
    Verdict::Pass { source, found_source, known_path }
}

/// Whether the site serves `path` itself.
pub fn known_path(path: &[char]) -> (r: bool)
    ensures
        r == is_known_path(path@),
{
    starts_with(path, chars_of("/static").as_slice()) || starts_with(
        path,
        chars_of("/.well-known/matrix").as_slice(),
    ) || chars_eq(path, chars_of("/car").as_slice()) || chars_eq(path, chars_of("/").as_slice())
        || chars_eq(path, chars_of("/art").as_slice()) || chars_eq(
        path,
        chars_of("/about").as_slice(),
    ) || chars_eq(path, chars_of("/.well-known/discord").as_slice()) || chars_eq(
        path,
        chars_of("/robots.txt").as_slice(),
    ) || chars_eq(path, chars_of("/jail").as_slice())
}

/// A request that the host check hands on is clean: it is not for the favicon, its path does
/// not end in `.env`, it is no probe path, and it either names the configured host (or none)
/// or asks for a path that crawlers are meant to read.
pub proof fn lemma_passed_requests_are_clean(
    configured: Seq<char>,
    rpoxy: bool,
    path: Seq<char>,
    host: Option<Seq<u8>>,
    forwarded: Option<IpAddress>,
    peer: Option<IpAddress>,
)
    requires
        verdict(configured, rpoxy, path, host, forwarded, peer) is Pass,
    ensures
        path != "/favicon.ico"@,
        !has_suffix(path, ".env"@),
        !is_probe_path(path),
        !host_mismatch(configured, host) || is_crawler_path(path),
{
}

/// What each answer of the host check is given for, over all requests:
/// - the teapot exactly for `/favicon.ico`;
/// - the plain-text deterrent exactly for other paths ending in `.env`;
/// - the jail for a foreign host only when the path is no crawler path (`/.well-known…`,
///   `/robots.txt`); for a malformed path only when it begins with `//`; for WordPress only
///   when the lower-cased path begins with `/wp` or ends in `.php`; for a common path only
///   when it begins with `/cgi-bin` or `/upload`;
/// - and every other request, that is one naming the configured host (or none, or asking for
///   a crawler path) whose path is none of the above, is handed on, with the address from
///   `X-Forwarded-For` behind a proxy and from the connection otherwise (`0.0.0.0` when
///   absent), and marked known exactly for the pages the site serves.
pub proof fn lemma_verdict_classification(
    configured: Seq<char>,
    rpoxy: bool,
    path: Seq<char>,
    host: Option<Seq<u8>>,
    forwarded: Option<IpAddress>,
    peer: Option<IpAddress>,
)
    ensures
        ({
            let v = verdict(configured, rpoxy, path, host, forwarded, peer);
            let favicon = path == "/favicon.ico"@;
            let env_file = has_suffix(path, ".env"@);
            let foreign = match host {
                Some(bytes) => header_text(bytes) != configured,
                None => false,
            };
            let crawler = has_prefix(path, "/.well-known"@) || path == "/robots.txt"@;
            let malformed = has_prefix(path, "//"@);
            let wordpress = has_prefix(ascii_lower(path), "/wp"@) || has_suffix(
                ascii_lower(path),
                ".php"@,
            );
            let common = has_prefix(path, "/cgi-bin"@) || has_prefix(path, "/upload"@);
            let found = if rpoxy {
                forwarded
            } else {
                peer
            };
            &&& (v == Verdict::Teapot) <==> favicon
            &&& (v == Verdict::DenyText) <==> (!favicon && env_file)
            &&& v == (Verdict::Jail { reason: JailReason::ForeignHost }) ==> foreign && !crawler
            &&& v == (Verdict::Jail { reason: JailReason::MalformedPath }) ==> malformed
            &&& v == (Verdict::Jail { reason: JailReason::WordPress }) ==> wordpress
            &&& v == (Verdict::Jail { reason: JailReason::CommonPath }) ==> common
            &&& (v is Pass) <==> (!favicon && !env_file && (!foreign || crawler) && !malformed
                && !wordpress && !common)
            &&& v is Pass ==> {
                &&& v->source == match found {
                    Some(a) => a,
                    None => IpAddress::V4(0),
                }
                &&& v->found_source == found is Some
                &&& v->known_path == (has_prefix(path, "/static"@) || has_prefix(
                    path,
                    "/.well-known/matrix"@,
                ) || path == "/car"@ || path == "/"@ || path == "/art"@ || path == "/about"@
                    || path == "/.well-known/discord"@ || path == "/robots.txt"@ || path
                    == "/jail"@)
            }
        }),
{
}

/// For the paths that crawlers are meant to read, the `Host` header makes no difference: such
/// a request is decided as if it named no host at all.
pub proof fn lemma_crawler_paths_ignore_host(
    configured: Seq<char>,
    rpoxy: bool,
    path: Seq<char>,
    host: Option<Seq<u8>>,
    forwarded: Option<IpAddress>,
    peer: Option<IpAddress>,
)
    requires
        is_crawler_path(path),
    ensures
        verdict(configured, rpoxy, path, host, forwarded, peer) == verdict(
            configured,
            rpoxy,
            path,
            None,
            forwarded,
            peer,
        ),
{
}

/// The host check only reads the source it trusts: outside a reverse proxy the
/// `X-Forwarded-For` header makes no difference, and behind one the connection's address
/// makes none.
pub proof fn lemma_source_from_trusted_side(
    configured: Seq<char>,
    rpoxy: bool,
    path: Seq<char>,
    host: Option<Seq<u8>>,
    forwarded: Option<IpAddress>,
    forwarded2: Option<IpAddress>,
    peer: Option<IpAddress>,
    peer2: Option<IpAddress>,
)
    ensures
        !rpoxy ==> verdict(configured, rpoxy, path, host, forwarded, peer) == verdict(
            configured,
            rpoxy,
            path,
            host,
            forwarded2,
            peer,
        ),
        rpoxy ==> verdict(configured, rpoxy, path, host, forwarded, peer) == verdict(
            configured,
            rpoxy,
            path,
            host,
            forwarded,
            peer2,
        ),
{
}

/// Which requests are jailed, turned away or handed on depends on the path and the host
/// alone; the addresses only change the source address recorded for requests handed on.
pub proof fn lemma_addresses_only_set_source(
    configured: Seq<char>,
    rpoxy: bool,
    path: Seq<char>,
    host: Option<Seq<u8>>,
    forwarded: Option<IpAddress>,
    forwarded2: Option<IpAddress>,
    peer: Option<IpAddress>,
    peer2: Option<IpAddress>,
)
    ensures
        (verdict(configured, rpoxy, path, host, forwarded, peer) is Pass) == (verdict(
            configured,
            rpoxy,
            path,
            host,
            forwarded2,
            peer2,
        ) is Pass),
        !(verdict(configured, rpoxy, path, host, forwarded, peer) is Pass) ==> verdict(
            configured,
            rpoxy,
            path,
            host,
            forwarded,
            peer,
        ) == verdict(configured, rpoxy, path, host, forwarded2, peer2),
{
}

} // verus!
