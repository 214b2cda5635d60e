//! The address of a Codex app server.
use crate::codex_app_server::fields::not_blank;
use crate::server_url::{
    UrlView, clear_url_fragment, clear_url_query, default_port, held_port, is_loopback_address,
    is_loopback_ipv4, is_network_scheme, is_network_url, is_plain_path, parse_url, rooted,
    set_url_path, set_url_port, set_url_scheme, url_parse, url_parts, url_view,
};
use crate::text::{
    blank, concat2, concat3, contains, contains_text, decimal, decimal_of, is_blank,
    lemma_trim_idempotent, opt_view, same, trim, trimmed,
};
use vstd::prelude::*;

verus! {

pub const DEFAULT_CODEX_APP_SERVER_URL: &'static str = "ws://127.0.0.1:4500";

/// Why an address is of no use.
#[derive(Debug, PartialEq, Eq)]
pub enum CodexAddressError {
    InvalidUrl,
    UnsupportedScheme { scheme: String },
    UnsupportedHealthScheme { scheme: String },
    MissingBearerToken,
}

/// The model of a `CodexAddressError`.
pub enum AddressErrorView {
    InvalidUrl,
    UnsupportedScheme { scheme: Seq<char> },
    UnsupportedHealthScheme { scheme: Seq<char> },
    MissingBearerToken,
}

impl CodexAddressError {
    pub open spec fn view(&self) -> AddressErrorView {
        match self {
            CodexAddressError::InvalidUrl => AddressErrorView::InvalidUrl,
            CodexAddressError::UnsupportedScheme { scheme } => {
                AddressErrorView::UnsupportedScheme { scheme: scheme@ }
            },
            CodexAddressError::UnsupportedHealthScheme { scheme } => {
                AddressErrorView::UnsupportedHealthScheme { scheme: scheme@ }
            },
            CodexAddressError::MissingBearerToken => AddressErrorView::MissingBearerToken,
        }
    }

    /// What is said of the error.
    pub fn message(&self) -> (r: String)
        ensures
            r@ == address_error_message(self@),
    {
        match self {
            CodexAddressError::InvalidUrl => "Codex app-server URL is invalid".to_owned(),
            CodexAddressError::UnsupportedScheme { scheme } => concat3(
                "Codex app-server URL must use ws://, wss://, http://, or https://, not ",
                scheme.as_str(),
                "://",
            ),
            CodexAddressError::UnsupportedHealthScheme { scheme } => concat2(
                "Unsupported Codex app-server scheme: ",
                scheme.as_str(),
            ),
            CodexAddressError::MissingBearerToken => {
                "Non-loopback app-server URLs require a bearer token.".to_owned()
            },
        }
    }
}

/// What is said of an error.
pub open spec fn address_error_message(error: AddressErrorView) -> Seq<char> {
    match error {
        AddressErrorView::InvalidUrl => "Codex app-server URL is invalid"@,
        AddressErrorView::UnsupportedScheme { scheme } => {
            "Codex app-server URL must use ws://, wss://, http://, or https://, not "@ + scheme
                + "://"@
        },
        AddressErrorView::UnsupportedHealthScheme { scheme } => {
            "Unsupported Codex app-server scheme: "@ + scheme
        },
        AddressErrorView::MissingBearerToken => {
            "Non-loopback app-server URLs require a bearer token."@
        },
    }
}

/// What the user's text is read as: the default address where it is blank, a web socket address
/// where it names no scheme.
pub open spec fn address_text(input: Seq<char>) -> Seq<char> {
    let t = trim(input);
    if t.len() == 0 {
        "ws://127.0.0.1:4500"@
    } else if contains_text(t, "://"@) {
        t
    } else {
        "ws://"@ + t
    }
}

/// The web socket scheme that a network scheme stands for.
pub open spec fn socket_scheme(scheme: Seq<char>) -> Seq<char> {
    if scheme == "http"@ {
        "ws"@
    } else if scheme == "https"@ {
        "wss"@
    } else {
        scheme
    }
}

/// The address with its web socket scheme, and with port 4500 where it names none.
pub open spec fn socket_url(url: UrlView) -> UrlView {
    let scheme = socket_scheme(url.scheme);
    let port = if scheme == url.scheme {
        url.port
    } else {
        held_port(scheme, url.port)
    };
    UrlView {
        scheme,
        port: match port {
            Some(port) => Some(port),
            None => Some(4500),
        },
        ..url
    }
}

/// The address that the user's text stands for.
pub open spec fn normalized_address(input: Seq<char>) -> Result<UrlView, AddressErrorView> {
    match url_parse(address_text(input)) {
        Ok(url) => if is_network_scheme(url.scheme) {
            Ok(socket_url(url))
        } else {
            Err(AddressErrorView::UnsupportedScheme { scheme: url.scheme })
        },
        Err(_) => Err(AddressErrorView::InvalidUrl),
    }
}

/// What an attempt to read an address gave.
pub open spec fn address_view(r: Result<url::Url, CodexAddressError>) -> Result<
    UrlView,
    AddressErrorView,
> {
    match r {
        Ok(url) => Ok(url_view(url)),
        Err(error) => Err(error@),
    }
}

/// The address of the server's health check.
pub open spec fn health_address(url: UrlView) -> Result<UrlView, AddressErrorView> {
    if url.scheme == "ws"@ || url.scheme == "wss"@ {
        let scheme = if url.scheme == "ws"@ {
            "http"@
        } else {
            "https"@
        };
        Ok(
            UrlView {
                scheme,
                port: held_port(scheme, url.port),
                path: "/healthz"@,
                query: None,
                fragment: None,
                ..url
            },
        )
    } else {
        Err(AddressErrorView::UnsupportedHealthScheme { scheme: url.scheme })
    }
}

/// The address is of this machine.
pub open spec fn is_loopback(url: UrlView) -> bool {
    match url.host {
        Some(host) => host == "localhost"@ || is_loopback_ipv4(host),
        None => false,
    }
}

/// The command that starts a server at the address.
pub open spec fn start_command(input: Seq<char>) -> Seq<char> {
    match normalized_address(input) {
        Ok(url) => "codex app-server --listen "@ + (match url.host {
            Some(host) => host,
            None => "127.0.0.1"@,
        }) + ":"@ + decimal(
            match url.port {
                Some(port) => port as nat,
                None => default_port(url.scheme) as nat,
            },
        ),
        Err(_) => "codex app-server --listen 127.0.0.1:4500"@,
    }
}

proof fn lemma_scheme_names()
    ensures
        "http"@ != "https"@,
        "http"@ != "ws"@,
        "http"@ != "wss"@,
        "https"@ != "ws"@,
        "https"@ != "wss"@,
        "ws"@ != "wss"@,
{
    reveal_strlit("http");
    reveal_strlit("https");
    reveal_strlit("ws");
    reveal_strlit("wss");
    assert("http"@.len() == 4 && "https"@.len() == 5 && "ws"@.len() == 2 && "wss"@.len() == 3);
}

/// The address that the user's text stands for.
pub fn normalize_codex_app_server_url(input: &str) -> (r: Result<url::Url, CodexAddressError>)
    ensures
        address_view(r) == normalized_address(input@),
        r matches Ok(url) ==> is_network_url(url_view(url)),
{
    let t = trimmed(input);
    let value = if t.unicode_len() == 0 {
        DEFAULT_CODEX_APP_SERVER_URL.to_owned()
    } else if contains(t, "://") {
        t.to_owned()
    } else {
        concat2("ws://", t)
    };
    let mut url = match parse_url(value.as_str()) {
        Ok(url) => url,
        Err(_) => {
            return Err(CodexAddressError::InvalidUrl);
        },
    };
    let parts = url_parts(&url);
    let scheme = parts.scheme.as_str();
    proof {
        lemma_scheme_names();
    }
    if same(scheme, "http") {
        set_url_scheme(&mut url, "ws");
    } else if same(scheme, "https") {
        set_url_scheme(&mut url, "wss");
    } else if !same(scheme, "ws") && !same(scheme, "wss") {
        return Err(CodexAddressError::UnsupportedScheme { scheme: parts.scheme });
    }
    let parts = url_parts(&url);
    if parts.port.is_none() {
        set_url_port(&mut url, 4500);
    }
    if same(parts.path.as_str(), "/") {
        set_url_path(&mut url, "");
        proof {
            reveal_strlit("");
            reveal_strlit("/");
            assert(is_plain_path(""@));
            assert(rooted(""@) =~= "/"@);
        }
    }
    Ok(url)
}

/// The address of the server's health check.
pub fn health_url_for_app_server(server_url: &url::Url) -> (r: Result<
    url::Url,
    CodexAddressError,
>)
    ensures
        address_view(r) == health_address(url_view(*server_url)),
{
    let mut url = server_url.clone();
    let parts = url_parts(&url);
    let scheme = parts.scheme.as_str();
    proof {
        lemma_scheme_names();
    }
    if same(scheme, "ws") {
        set_url_scheme(&mut url, "http");
    } else if same(scheme, "wss") {
        set_url_scheme(&mut url, "https");
    } else {
        return Err(CodexAddressError::UnsupportedHealthScheme { scheme: parts.scheme });
    }
    set_url_path(&mut url, "/healthz");
    proof {
        reveal_strlit("/healthz");
        assert(is_plain_path("/healthz"@));
    }
    clear_url_query(&mut url);
    clear_url_fragment(&mut url);
    Ok(url)
}

/// The address is of this machine.
pub fn is_loopback_url(url: &url::Url) -> (r: bool)
    ensures
        r == is_loopback(url_view(*url)),
{
    match url_parts(url).host {
        Some(host) => same(host.as_str(), "localhost") || is_loopback_address(host.as_str()),
        None => false,
    }
}

/// The command that starts a server at the address.
pub fn codex_start_command(url: &str) -> (r: String)
    ensures
        r@ == start_command(url@),
{
    match normalize_codex_app_server_url(url) {
        Ok(url) => {
            let parts = url_parts(&url);
            let mut r = "codex app-server --listen ".to_owned();
            match parts.host {
                Some(host) => {
                    r.append(host.as_str());
                },
                None => {
                    r.append("127.0.0.1");
                },
            }
            r.append(":");
            let port: u16 = match parts.port {
                Some(port) => port,
                None => {
                    if same(parts.scheme.as_str(), "http") || same(parts.scheme.as_str(), "ws") {
                        80
                    } else {
                        443
                    }
                },
            };
            r.append(decimal_of(port as u128).as_str());
            r
        },
        Err(_) => "codex app-server --listen 127.0.0.1:4500".to_owned(),
    }
}

/// Where the server is, and the token that it asks for.
#[derive(Debug)]
pub struct CodexAppServerConfig {
    pub server_url: url::Url,
    pub bearer_token: Option<String>,
}

/// The model of a `CodexAppServerConfig`.
pub struct ConfigView {
    pub server_url: UrlView,
    pub bearer_token: Option<Seq<char>>,
}

/// The configuration that the settings stand for. A server elsewhere needs a token.
pub open spec fn config_of(server_url: Seq<char>, bearer_token: Seq<char>) -> Result<
    ConfigView,
    AddressErrorView,
> {
    match normalized_address(server_url) {
        Ok(url) => {
            let token = not_blank(trim(bearer_token));
            if !is_loopback(url) && token is None {
                Err(AddressErrorView::MissingBearerToken)
            } else {
                Ok(ConfigView { server_url: url, bearer_token: token })
            }
        },
        Err(error) => Err(error),
    }
}

/// What an attempt to read the settings gave.
pub open spec fn config_view(r: Result<CodexAppServerConfig, CodexAddressError>) -> Result<
    ConfigView,
    AddressErrorView,
> {
    match r {
        Ok(config) => Ok(config@),
        Err(error) => Err(error@),
    }
}

impl CodexAppServerConfig {
    pub open spec fn view(&self) -> ConfigView {
        ConfigView {
            server_url: url_view(self.server_url),
            bearer_token: opt_view(self.bearer_token),
        }
    }

    /// The configuration that the settings stand for.
    pub fn from_settings(server_url: &str, bearer_token: &str) -> (r: Result<
        CodexAppServerConfig,
        CodexAddressError,
    >)
        ensures
            config_view(r) == config_of(server_url@, bearer_token@),
    {
        let server_url = match normalize_codex_app_server_url(server_url) {
            Ok(url) => url,
            Err(error) => {
                return Err(error);
            },
        };
        let token = trimmed(bearer_token);
        let bearer_token = if blank(token) {
            None
        } else {
            Some(token.to_owned())
        };
        if !is_loopback_url(&server_url) && bearer_token.is_none() {
            return Err(CodexAddressError::MissingBearerToken);
        }
        Ok(CodexAppServerConfig { server_url, bearer_token })
    }
}

/// A server elsewhere is never asked without a token, and a token that is sent is neither blank
/// nor padded.
pub proof fn law_remote_server_needs_token(server_url: Seq<char>, bearer_token: Seq<char>)
    ensures
        config_of(server_url, bearer_token) matches Ok(config) ==> {
            &&& is_loopback(config.server_url) || config.bearer_token is Some
            &&& config.bearer_token matches Some(token) ==> !is_blank(token) && trim(token) == token
        },
{
    lemma_trim_idempotent(bearer_token);
}

/// The address of a server is normal: reading its parts again changes nothing.
pub proof fn law_socket_address_is_normal(url: UrlView)
    requires
        is_network_scheme(url.scheme),
    ensures
        socket_url(socket_url(url)) == socket_url(url),
{
    lemma_scheme_names();
}

/// Every address that the user's text can stand for has a port, and a health check beside it on
/// the same host.
pub proof fn law_address_has_health_check(input: Seq<char>)
    ensures
        normalized_address(input) matches Ok(url) ==> {
            &&& url.port is Some
            &&& health_address(url) matches Ok(health) && health.host == url.host
        },
{
    lemma_scheme_names();
}

} // verus!
