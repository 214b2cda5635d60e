//! Addresses on the web that the app links to.
use crate::server_url::{
    UrlView, append_url_pair, is_network_scheme, names_network_scheme, parse_url, url_parse,
    url_query, url_text, write_url,
};
use crate::text::opt_str_view;
use vstd::prelude::*;

verus! {

const SLIPSTREAM_REPO_URL: &'static str = "https://github.com/pixelkaiser/slipstream";

const SLIPSTREAM_ISSUES_URL: &'static str = "https://github.com/pixelkaiser/slipstream/issues";

const WARP_DOCS_URL: &'static str = "https://docs.warp.dev/";

const WARP_ISSUES_URL: &'static str = "https://github.com/warpdotdev/Warp/issues";

const WARP_SLACK_URL: &'static str = "http://go.warp.dev/join-preview";

const WARP_PRIVACY_POLICY_URL: &'static str = "https://www.warp.dev/privacy";

pub const GITHUB_RELEASES_URL: &'static str = "https://github.com/pixelkaiser/slipstream/releases";

/// The documentation for users.
pub fn user_docs_url(is_slipstream: bool) -> (r: &'static str)
    ensures
        r@ == (if is_slipstream {
            "https://github.com/pixelkaiser/slipstream"@
        } else {
            "https://docs.warp.dev/"@
        }),
{
    if is_slipstream {
        SLIPSTREAM_REPO_URL
    } else {
        WARP_DOCS_URL
    }
}

/// The list of issues.
pub fn github_issues_url(is_slipstream: bool) -> (r: &'static str)
    ensures
        r@ == (if is_slipstream {
            "https://github.com/pixelkaiser/slipstream/issues"@
        } else {
            "https://github.com/warpdotdev/Warp/issues"@
        }),
{
    if is_slipstream {
        SLIPSTREAM_ISSUES_URL
    } else {
        WARP_ISSUES_URL
    }
}

/// The community's chat.
pub fn slack_url(is_slipstream: bool) -> (r: &'static str)
    ensures
        r@ == (if is_slipstream {
            "https://github.com/pixelkaiser/slipstream"@
        } else {
            "http://go.warp.dev/join-preview"@
        }),
{
    if is_slipstream {
        SLIPSTREAM_REPO_URL
    } else {
        WARP_SLACK_URL
    }
}

/// The privacy policy.
pub fn privacy_policy_url(is_slipstream: bool) -> (r: &'static str)
    ensures
        r@ == (if is_slipstream {
            "https://github.com/pixelkaiser/slipstream"@
        } else {
            "https://www.warp.dev/privacy"@
        }),
{
    if is_slipstream {
        SLIPSTREAM_REPO_URL
    } else {
        WARP_PRIVACY_POLICY_URL
    }
}

/// The form for new issues.
pub open spec fn issue_form(is_slipstream: bool) -> Seq<char> {
    if is_slipstream {
        "https://github.com/pixelkaiser/slipstream/issues/new/choose"@
    } else {
        "https://github.com/warpdotdev/Warp/issues/new/choose"@
    }
}

/// The form for new issues, told of the versions of the app and of the operating system.
pub open spec fn filled_form(
    form: UrlView,
    is_slipstream: bool,
    app_version: Option<Seq<char>>,
    os_version: Seq<char>,
) -> UrlView {
    let versioned = match app_version {
        Some(version) => Some(
            url_query(
                form.query,
                if is_slipstream {
                    "slipstream-version"@
                } else {
                    "warp-version"@
                },
                version,
            ),
        ),
        None => form.query,
    };
    UrlView { query: Some(url_query(versioned, "os-version"@, os_version)), ..form }
}

/// The address of the feedback form. It is absent only where the form's own address is not one
/// that the URL parser takes for a network address.
pub fn feedback_form_url(is_slipstream: bool, app_version: Option<&str>, os_version: &str) -> (r:
    Option<String>)
    ensures
        match url_parse(issue_form(is_slipstream)) {
            Ok(form) => if is_network_scheme(form.scheme) {
                r is Some && r->0@ == url_text(
                    filled_form(form, is_slipstream, opt_str_view(app_version), os_version@),
                )
            } else {
                r is None
            },
            Err(_) => r is None,
        },
{
    let form = if is_slipstream {
        "https://github.com/pixelkaiser/slipstream/issues/new/choose"
    } else {
        "https://github.com/warpdotdev/Warp/issues/new/choose"
    };
    let mut url = match parse_url(form) {
        Ok(url) => url,
        Err(_) => {
            return None;
        },
    };
    if !names_network_scheme(&url) {
        return None;
    }
    if let Some(version) = app_version {
        let name = if is_slipstream {
            "slipstream-version"
        } else {
            "warp-version"
        };
        append_url_pair(&mut url, name, version);
    }
    append_url_pair(&mut url, "os-version", os_version);
    Some(write_url(&url))
}

} // verus!
