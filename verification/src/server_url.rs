//! URLs of agent servers.
//!
//! Parsing and writing URLs is left to the `url` crate, behind the trusted functions at the top of
//! this file; `UrlView` is what a URL holds.
use crate::text::{
    all_digits, chars_of, digits_value, is_digit, opt_view, parse_u64, same, split, split_on,
};
use vstd::prelude::*;

verus! {

/// The parts of a URL.
pub struct UrlView {
    pub scheme: Seq<char>,
    pub username: Seq<char>,
    pub password: Option<Seq<char>>,
    pub host: Option<Seq<char>>,
    pub port: Option<u16>,
    pub path: Seq<char>,
    pub query: Option<Seq<char>>,
    pub fragment: Option<Seq<char>>,
}

/// The parts of a URL that the library reads, as plain values. The port is absent where it is the
/// scheme's own.
pub struct UrlParts {
    pub scheme: String,
    pub host: Option<String>,
    pub port: Option<u16>,
    pub path: String,
}

/// The URL type of the `url` crate.
#[verifier::external_type_specification]
#[verifier::external_body]
pub struct ExUrl(url::Url);

/// What a URL holds.
pub uninterp spec fn url_view(url: url::Url) -> UrlView;

/// The URL that a text writes, or what is said of the error.
pub uninterp spec fn url_parse(text: Seq<char>) -> Result<UrlView, Seq<char>>;

/// The path that a URL with the given scheme has after it was set to `path`.
pub uninterp spec fn url_path(scheme: Seq<char>, path: Seq<char>) -> Seq<char>;

/// The query with a further pair of a name and a value.
pub uninterp spec fn url_query(
    query: Option<Seq<char>>,
    name: Seq<char>,
    value: Seq<char>,
) -> Seq<char>;

/// The text of a network URL with the given parts.
pub uninterp spec fn url_text(url: UrlView) -> Seq<char>;

/// The schemes of HTTP and of web sockets.
pub open spec fn is_network_scheme(scheme: Seq<char>) -> bool {
    scheme == "http"@ || scheme == "https"@ || scheme == "ws"@ || scheme == "wss"@
}

/// The port that a network scheme uses where none is given.
pub open spec fn default_port(scheme: Seq<char>) -> u16 {
    if scheme == "http"@ || scheme == "ws"@ {
        80
    } else {
        443
    }
}

/// A port as a URL holds it: the scheme's own port is left out.
pub open spec fn held_port(scheme: Seq<char>, port: Option<u16>) -> Option<u16> {
    if port == Some(default_port(scheme)) {
        None
    } else {
        port
    }
}

/// The URL has a network scheme and names a host.
pub open spec fn is_network_url(url: UrlView) -> bool {
    is_network_scheme(url.scheme) && url.host is Some && url.host->0.len() > 0
}

/// A path of letters, digits, `_`, `-` and `/`.
pub open spec fn is_plain_path(path: Seq<char>) -> bool {
    forall|i: int|
        0 <= i < path.len() ==> is_plain_path_char(#[trigger] path[i])
}

/// A character that a path holds as it is.
pub open spec fn is_plain_path_char(c: char) -> bool {
    ('a' <= c <= 'z') || ('A' <= c <= 'Z') || ('0' <= c <= '9') || c == '_' || c == '-' || c == '/'
}

/// A path with a slash before it, where it has none.
pub open spec fn rooted(path: Seq<char>) -> Seq<char> {
    if path.len() > 0 && path[0] == '/' {
        path
    } else {
        "/"@ + path
    }
}

/// What an attempt to read a URL gave.
pub open spec fn read_url_view(r: Result<url::Url, String>) -> Result<UrlView, Seq<char>> {
    match r {
        Ok(url) => Ok(url_view(url)),
        Err(error) => Err(error@),
    }
}

/// The text begins as an HTTP address does.
pub open spec fn has_http_prefix(text: Seq<char>) -> bool {
    "http://"@.is_prefix_of(text)
}

/// `url::Url::parse`; an error is given as its message. An address that begins with `http://` is
/// read as one of that scheme, and only where it names a host.
#[verifier::external_body]
pub(crate) fn parse_url(text: &str) -> (r: Result<url::Url, String>)
    ensures
        read_url_view(r) == url_parse(text@),
        r matches Ok(url) ==> has_http_prefix(text@) ==> url_view(url).scheme == "http"@
            && is_network_url(url_view(url)),
{
    url::Url::parse(text).map_err(|error| error.to_string())
}

/// Reads a URL with `Url::scheme`, `Url::host_str`, `Url::port` and `Url::path`. A URL with a
/// network scheme always names a host: the parser refuses an empty one, and so do the setters.
#[verifier::external_body]
pub(crate) fn url_parts(url: &url::Url) -> (r: UrlParts)
    ensures
        r.scheme@ == url_view(*url).scheme,
        opt_view(r.host) == url_view(*url).host,
        r.port == url_view(*url).port,
        r.path@ == url_view(*url).path,
        is_network_scheme(r.scheme@) ==> is_network_url(url_view(*url)),
{
    UrlParts {
        scheme: url.scheme().to_string(),
        host: url.host_str().map(|host| host.to_string()),
        port: url.port(),
        path: url.path().to_string(),
    }
}

/// The address has a network scheme, and then names a host.
pub(crate) fn names_network_scheme(url: &url::Url) -> (r: bool)
    ensures
        r == is_network_scheme(url_view(*url).scheme),
        r ==> is_network_url(url_view(*url)),
{
    let scheme = url_parts(url).scheme;
    same(scheme.as_str(), "http") || same(scheme.as_str(), "https") || same(scheme.as_str(), "ws")
        || same(scheme.as_str(), "wss")
}

/// `Url::clone` copies the URL.
pub assume_specification[ <url::Url as Clone>::clone ](url: &url::Url) -> (r: url::Url)
    ensures
        url_view(r) == url_view(*url),
;

/// `Url::set_scheme` between network schemes, which cannot fail on a URL with a host. A port that
/// is the new scheme's own is dropped.
#[verifier::external_body]
pub(crate) fn set_url_scheme(url: &mut url::Url, scheme: &str)
    requires
        is_network_url(url_view(*old(url))),
        is_network_scheme(scheme@),
    ensures
        url_view(*final(url)) == (UrlView {
            scheme: scheme@,
            port: held_port(scheme@, url_view(*old(url)).port),
            ..url_view(*old(url))
        }),
{
    let _ = url.set_scheme(scheme);
}

/// `Url::set_port` on a network URL, which cannot fail there. A port that is the scheme's own is
/// dropped.
#[verifier::external_body]
pub(crate) fn set_url_port(url: &mut url::Url, port: u16)
    requires
        is_network_url(url_view(*old(url))),
    ensures
        url_view(*final(url)) == (UrlView {
            port: held_port(url_view(*old(url)).scheme, Some(port)),
            ..url_view(*old(url))
        }),
{
    let _ = url.set_port(Some(port));
}

/// `Url::set_path` on a network URL. The parser escapes what a path cannot hold and resolves dot
/// segments; a plain path is kept, with a slash before it.
#[verifier::external_body]
pub(crate) fn set_url_path(url: &mut url::Url, path: &str)
    requires
        is_network_url(url_view(*old(url))),
    ensures
        url_view(*final(url)) == (UrlView {
            path: url_path(url_view(*old(url)).scheme, path@),
            ..url_view(*old(url))
        }),
        is_plain_path(path@) ==> url_view(*final(url)).path == rooted(path@),
{
    url.set_path(path);
}

/// `Url::set_query(None)` on a network URL drops the query.
#[verifier::external_body]
pub(crate) fn clear_url_query(url: &mut url::Url)
    requires
        is_network_url(url_view(*old(url))),
    ensures
        url_view(*final(url)) == (UrlView { query: None, ..url_view(*old(url)) }),
{
    url.set_query(None);
}

/// `Url::set_fragment(None)` on a network URL drops the fragment.
#[verifier::external_body]
pub(crate) fn clear_url_fragment(url: &mut url::Url)
    requires
        is_network_url(url_view(*old(url))),
    ensures
        url_view(*final(url)) == (UrlView { fragment: None, ..url_view(*old(url)) }),
{
    url.set_fragment(None);
}

/// `Url::query_pairs_mut` and `append_pair`: the query gains a pair in form encoding, and nothing
/// else changes.
#[verifier::external_body]
pub(crate) fn append_url_pair(url: &mut url::Url, name: &str, value: &str)
    requires
        is_network_url(url_view(*old(url))),
    ensures
        url_view(*final(url)) == (UrlView {
            query: Some(url_query(url_view(*old(url)).query, name@, value@)),
            ..url_view(*old(url))
        }),
{
    url.query_pairs_mut().append_pair(name, value);
}

/// `Url::to_string` on a network URL: its text is made of its parts.
#[verifier::external_body]
pub(crate) fn write_url(url: &url::Url) -> (r: String)
    requires
        is_network_url(url_view(*url)),
    ensures
        r@ == url_text(url_view(*url)),
{
    url.to_string()
}

/// The number that a part of a dotted IPv4 address writes: one to three digits, no leading zero,
/// at most 255.
pub open spec fn ipv4_octet(part: Seq<char>) -> Option<nat> {
    if all_digits(part) && part.len() <= 3 && (part.len() == 1 || part[0] != '0')
        && digits_value(part) <= 255 {
        Some(digits_value(part))
    } else {
        None
    }
}

/// The host is an IPv4 address of the loopback network, 127.0.0.0/8.
pub open spec fn is_loopback_ipv4(host: Seq<char>) -> bool {
    let parts = split(host, '.');
    &&& parts.len() == 4
    &&& ipv4_octet(parts[0]) == Some(127nat)
    &&& ipv4_octet(parts[1]) is Some
    &&& ipv4_octet(parts[2]) is Some
    &&& ipv4_octet(parts[3]) is Some
}

/// The number that a part of a dotted IPv4 address writes.
fn octet_of(part: &str) -> (r: Option<u64>)
    ensures
        match r {
            Some(n) => ipv4_octet(part@) == Some(n as nat),
            None => ipv4_octet(part@) is None,
        },
{
    let v = chars_of(part);
    if v.len() == 0 || v.len() > 3 {
        return None;
    }
    if v.len() > 1 && v[0] == '0' {
        return None;
    }
    if v[0] == '+' || v[0] == '-' {
        assert(!is_digit(part@[0]));
        return None;
    }
    match parse_u64(part) {
        Some(n) => {
            if n <= 255 {
                Some(n)
            } else {
                None
            }
        },
        None => None,
    }
}

/// The host of a URL is an IPv4 address of the loopback network.
pub fn is_loopback_address(host: &str) -> (r: bool)
    ensures
        r == is_loopback_ipv4(host@),
{
    let parts = split_on(host, '.');
    let ghost all = split(host@, '.');
    assert(all.len() == parts@.len());
    if parts.len() != 4 {
        return false;
    }
    assert(all[0] == parts@[0]@ && all[1] == parts@[1]@ && all[2] == parts@[2]@ && all[3]
        == parts@[3]@);
    let first = match octet_of(parts[0].as_str()) {
        Some(n) => n == 127,
        None => false,
    };
    first && octet_of(parts[1].as_str()).is_some() && octet_of(parts[2].as_str()).is_some()
        && octet_of(parts[3].as_str()).is_some()
}

} // verus!
