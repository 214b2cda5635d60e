//! The address of an OpenCode server, and of what it offers.
use crate::server_url::{
    UrlView, append_url_pair, clear_url_fragment, clear_url_query, is_loopback_address,
    is_loopback_ipv4, is_network_url, is_plain_path, parse_url, rooted, set_url_path, set_url_port,
    url_parse, url_parts, url_path, url_query, url_view,
};
use crate::text::{
    concat2, concat3, contains, contains_text, debug_of, debug_text, decimal, decimal_of,
    opt_str_view, opt_view, same, trim, trim_start_char, trimmed, trimmed_start_char,
};
use vstd::prelude::*;

verus! {

pub const DEFAULT_OPENCODE_SERVER_URL: &'static str = "http://127.0.0.1:4096";

/// Why an address is of no use.
#[derive(Debug, PartialEq, Eq)]
pub enum OpenCodeAddressError {
    InvalidUrl { text: String },
    UnsupportedScheme,
    MissingHost,
    MissingCredentials,
}

/// The model of an `OpenCodeAddressError`.
pub enum ServerErrorView {
    InvalidUrl { text: Seq<char> },
    UnsupportedScheme,
    MissingHost,
    MissingCredentials,
}

/// What is said of an error.
pub open spec fn server_error_message(error: ServerErrorView) -> Seq<char> {
    match error {
        ServerErrorView::InvalidUrl { text } => "Invalid OpenCode server URL "@ + debug_text(text),
        ServerErrorView::UnsupportedScheme => "OpenCode server URL must use http or https"@,
        ServerErrorView::MissingHost => "OpenCode server URL must include a host"@,
        ServerErrorView::MissingCredentials => {
            "OpenCode server credentials are required for non-loopback URLs"@
        },
    }
}

impl OpenCodeAddressError {
    pub open spec fn view(&self) -> ServerErrorView {
        match self {
            OpenCodeAddressError::InvalidUrl { text } => ServerErrorView::InvalidUrl {
                text: text@,
            },
            OpenCodeAddressError::UnsupportedScheme => ServerErrorView::UnsupportedScheme,
            OpenCodeAddressError::MissingHost => ServerErrorView::MissingHost,
            OpenCodeAddressError::MissingCredentials => ServerErrorView::MissingCredentials,
        }
    }

    /// What is said of the error.
    pub fn message(&self) -> (r: String)
        ensures
            r@ == server_error_message(self@),
    {
        match self {
            OpenCodeAddressError::InvalidUrl { text } => concat2(
                "Invalid OpenCode server URL ",
                debug_of(text.as_str()).as_str(),
            ),
            OpenCodeAddressError::UnsupportedScheme => {
                "OpenCode server URL must use http or https".to_owned()
            },
            OpenCodeAddressError::MissingHost => {
                "OpenCode server URL must include a host".to_owned()
            },
            OpenCodeAddressError::MissingCredentials => {
                "OpenCode server credentials are required for non-loopback URLs".to_owned()
            },
        }
    }
}

/// What the user's text is read as: the default address where it is blank, an HTTP address where
/// it names no scheme.
pub open spec fn server_text(input: Seq<char>) -> Seq<char> {
    let t = trim(input);
    if t.len() == 0 {
        "http://127.0.0.1:4096"@
    } else if contains_text(t, "://"@) {
        t
    } else {
        "http://"@ + t
    }
}

/// The address of the server itself: with port 4096 where it names none, and nothing behind the
/// host.
pub open spec fn bare_server(url: UrlView) -> UrlView {
    UrlView {
        port: match url.port {
            Some(port) => Some(port),
            None => Some(4096),
        },
        path: "/"@,
        query: None,
        fragment: None,
        ..url
    }
}

/// The address that the user's text stands for.
pub open spec fn server_address(input: Seq<char>) -> Result<UrlView, ServerErrorView> {
    match url_parse(server_text(input)) {
        Ok(url) => if url.scheme != "http"@ && url.scheme != "https"@ {
            Err(ServerErrorView::UnsupportedScheme)
        } else if url.host is None {
            Err(ServerErrorView::MissingHost)
        } else {
            Ok(bare_server(url))
        },
        Err(_) => Err(ServerErrorView::InvalidUrl { text: server_text(input) }),
    }
}

/// What an attempt to read an address gave.
pub open spec fn server_address_view(r: Result<url::Url, OpenCodeAddressError>) -> Result<
    UrlView,
    ServerErrorView,
> {
    match r {
        Ok(url) => Ok(url_view(url)),
        Err(error) => Err(error@),
    }
}

/// The address that the user's text stands for.
pub fn normalize_opencode_server_url(input: &str) -> (r: Result<url::Url, OpenCodeAddressError>)
    ensures
        server_address_view(r) == server_address(input@),
        r matches Ok(url) ==> is_network_url(url_view(url)),
{
    let t = trimmed(input);
    let text = if t.unicode_len() == 0 {
        DEFAULT_OPENCODE_SERVER_URL.to_owned()
    } else if contains(t, "://") {
        t.to_owned()
    } else {
        concat2("http://", t)
    };
    let mut url = match parse_url(text.as_str()) {
        Ok(url) => url,
        Err(_) => {
            return Err(OpenCodeAddressError::InvalidUrl { text });
        },
    };
    let parts = url_parts(&url);
    if !same(parts.scheme.as_str(), "http") && !same(parts.scheme.as_str(), "https") {
        return Err(OpenCodeAddressError::UnsupportedScheme);
    }
    if parts.host.is_none() {
        return Err(OpenCodeAddressError::MissingHost);
    }
    if parts.port.is_none() {
        set_url_port(&mut url, 4096);
    }
    set_url_path(&mut url, "");
    proof {
        reveal_strlit("");
        reveal_strlit("/");
        assert(is_plain_path(""@));
        assert(rooted(""@) =~= "/"@);
    }
    clear_url_query(&mut url);
    clear_url_fragment(&mut url);
    Ok(url)
}

/// The command that starts a server at the address.
pub open spec fn serve_command(input: Seq<char>) -> Seq<char> {
    match server_address(input) {
        Ok(url) => "opencode serve --hostname "@ + url.host->0 + " --port "@ + decimal(
            url.port->0 as nat,
        ),
        Err(_) => "opencode serve"@,
    }
}

/// The command that starts a server at the address.
pub fn opencode_start_command(server_url: &str) -> (r: String)
    ensures
        r@ == serve_command(server_url@),
{
    match normalize_opencode_server_url(server_url) {
        Ok(url) => {
            let parts = url_parts(&url);
            match (parts.host, parts.port) {
                (Some(host), Some(port)) => {
                    let mut r = concat3("opencode serve --hostname ", host.as_str(), " --port ");
                    r.append(decimal_of(port as u128).as_str());
                    r
                },
                _ => "opencode serve".to_owned(),
            }
        },
        Err(_) => "opencode serve".to_owned(),
    }
}

/// The address is of this machine.
pub open spec fn is_local(url: UrlView) -> bool {
    match url.host {
        Some(host) => host == "localhost"@ || host == "localhost.localdomain"@ || is_loopback_ipv4(
            host,
        ),
        None => false,
    }
}

/// The address is of this machine.
pub fn is_local_url(url: &url::Url) -> (r: bool)
    ensures
        r == is_local(url_view(*url)),
{
    match url_parts(url).host {
        Some(host) => same(host.as_str(), "localhost") || same(
            host.as_str(),
            "localhost.localdomain",
        ) || is_loopback_address(host.as_str()),
        None => false,
    }
}

/// The text in base64, in the standard alphabet and with padding.
pub uninterp spec fn base64_text(text: Seq<char>) -> Seq<char>;

/// `base64::engine::general_purpose::STANDARD.encode`.
#[verifier::external_body]
pub(crate) fn encode_base64(text: &str) -> (r: String)
    ensures
        r@ == base64_text(text@),
{
    base64::Engine::encode(&base64::engine::general_purpose::STANDARD, text)
}

/// The header of HTTP basic authentication.
pub open spec fn basic_auth(username: Seq<char>, password: Seq<char>) -> Seq<char> {
    "Basic "@ + base64_text(username + ":"@ + password)
}

/// The header of HTTP basic authentication.
pub fn basic_auth_header(username: &str, password: &str) -> (r: String)
    ensures
        r@ == basic_auth(username@, password@),
{
    let credentials = concat3(username, ":", password);
    concat2("Basic ", encode_base64(credentials.as_str()).as_str())
}

/// Where the server is, and how the app presents itself to it.
#[derive(Debug)]
pub struct OpenCodeServerConfig {
    server_url: url::Url,
    basic_auth_header: Option<String>,
}

/// The model of an `OpenCodeServerConfig`.
pub struct ServerConfigView {
    pub server_url: UrlView,
    pub basic_auth_header: Option<Seq<char>>,
}

/// The configuration that the settings stand for. A server elsewhere needs credentials.
pub open spec fn server_config(
    server_url: Seq<char>,
    username: Seq<char>,
    password: Seq<char>,
) -> Result<ServerConfigView, ServerErrorView> {
    match server_address(server_url) {
        Ok(url) => if trim(username).len() > 0 && trim(password).len() > 0 {
            Ok(
                ServerConfigView {
                    server_url: url,
                    basic_auth_header: Some(basic_auth(trim(username), trim(password))),
                },
            )
        } else if is_local(url) {
            Ok(ServerConfigView { server_url: url, basic_auth_header: None })
        } else {
            Err(ServerErrorView::MissingCredentials)
        },
        Err(error) => Err(error),
    }
}

/// What an attempt to read the settings gave.
pub open spec fn server_config_view(r: Result<OpenCodeServerConfig, OpenCodeAddressError>) -> Result<
    ServerConfigView,
    ServerErrorView,
> {
    match r {
        Ok(config) => Ok(config@),
        Err(error) => Err(error@),
    }
}

/// The address of something that the server offers.
pub open spec fn endpoint_of(url: UrlView, path: Seq<char>) -> UrlView {
    UrlView {
        path: url_path(url.scheme, trim_start_char(path, '/')),
        query: None,
        fragment: None,
        ..url
    }
}

/// The address of something that the server offers for a directory.
pub open spec fn directory_address(
    url: UrlView,
    path: Seq<char>,
    directory: Option<Seq<char>>,
) -> UrlView {
    match directory {
        Some(directory) => UrlView {
            query: Some(url_query(None, "directory"@, directory)),
            ..endpoint_of(url, path)
        },
        None => endpoint_of(url, path),
    }
}

impl OpenCodeServerConfig {
    pub closed spec fn view(&self) -> ServerConfigView {
        ServerConfigView {
            server_url: url_view(self.server_url),
            basic_auth_header: opt_view(self.basic_auth_header),
        }
    }

    #[verifier::type_invariant]
    spec fn has_network_url(self) -> bool {
        is_network_url(url_view(self.server_url))
    }

    /// The configuration that the settings stand for.
    pub fn from_values(server_url: &str, username: &str, password: &str) -> (r: Result<
        OpenCodeServerConfig,
        OpenCodeAddressError,
    >)
        ensures
            server_config_view(r) == server_config(server_url@, username@, password@),
    {
        let server_url = match normalize_opencode_server_url(server_url) {
            Ok(url) => url,
            Err(error) => {
                return Err(error);
            },
        };
        let username = trimmed(username);
        let password = trimmed(password);
        if username.unicode_len() > 0 && password.unicode_len() > 0 {
            let header = basic_auth_header(username, password);
            Ok(OpenCodeServerConfig { server_url, basic_auth_header: Some(header) })
        } else if is_local_url(&server_url) {
            Ok(OpenCodeServerConfig { server_url, basic_auth_header: None })
        } else {
            Err(OpenCodeAddressError::MissingCredentials)
        }
    }

    /// The header that the app presents itself with.
    pub fn basic_auth_header(&self) -> (r: Option<&str>)
        ensures
            opt_str_view(r) == self@.basic_auth_header,
    {
        match &self.basic_auth_header {
            Some(header) => Some(header.as_str()),
            None => None,
        }
    }

    /// The address of something that the server offers.
    pub fn endpoint(&self, path: &str) -> (r: url::Url)
        ensures
            url_view(r) == endpoint_of(self@.server_url, path@),
            is_network_url(url_view(r)),
    {
        proof {
            use_type_invariant(self);
        }
        let mut url = self.server_url.clone();
        set_url_path(&mut url, trimmed_start_char(path, '/'));
        clear_url_query(&mut url);
        clear_url_fragment(&mut url);
        url
    }
}

/// The address of something that the server offers for a directory.
pub fn directory_url(config: &OpenCodeServerConfig, path: &str, directory: Option<&str>) -> (r:
    url::Url)
    ensures
        url_view(r) == directory_address(config@.server_url, path@, opt_str_view(directory)),
        is_network_url(url_view(r)),
{
    let mut url = config.endpoint(path);
    if let Some(directory) = directory {
        append_url_pair(&mut url, "directory", directory);
    }
    url
}

/// The address of the list of a directory's sessions: the hundred latest.
pub fn session_list_url(config: &OpenCodeServerConfig, directory: &str) -> (r: url::Url)
    ensures
        url_view(r) == (UrlView {
            query: Some(
                url_query(
                    Some(url_query(None, "directory"@, directory@)),
                    "limit"@,
                    "100"@,
                ),
            ),
            ..endpoint_of(config@.server_url, "/session"@)
        }),
{
    let mut url = directory_url(config, "/session", Some(directory));
    append_url_pair(&mut url, "limit", "100");
    url
}

/// The path of a session.
pub fn session_path(session_id: &str) -> (r: String)
    ensures
        r@ == "/session/"@ + session_id@,
{
    concat2("/session/", session_id)
}

/// The path of a session's messages.
pub fn message_path(session_id: &str) -> (r: String)
    ensures
        r@ == "/session/"@ + session_id@ + "/message"@,
{
    concat3("/session/", session_id, "/message")
}

/// The path to which the reply to a request for a permission goes.
pub fn permission_reply_path(request_id: &str) -> (r: String)
    ensures
        r@ == "/permission/"@ + request_id@ + "/reply"@,
{
    concat3("/permission/", request_id, "/reply")
}

/// The path to which the answers to a request go.
pub fn question_reply_path(request_id: &str) -> (r: String)
    ensures
        r@ == "/question/"@ + request_id@ + "/reply"@,
{
    concat3("/question/", request_id, "/reply")
}

/// The path at which a request for answers is turned down.
pub fn question_reject_path(request_id: &str) -> (r: String)
    ensures
        r@ == "/question/"@ + request_id@ + "/reject"@,
{
    concat3("/question/", request_id, "/reject")
}

/// The address of a server is normal: reading its parts again changes nothing.
pub proof fn law_server_address_is_normal(url: UrlView)
    ensures
        bare_server(bare_server(url)) == bare_server(url),
{
}

/// A server elsewhere is never asked without credentials.
pub proof fn law_remote_server_needs_credentials(
    server_url: Seq<char>,
    username: Seq<char>,
    password: Seq<char>,
)
    ensures
        server_config(server_url, username, password) matches Ok(config) ==> is_local(
            config.server_url,
        ) || config.basic_auth_header is Some,
{
}

} // verus!
