//! Settings of shared terminal sessions.
use std::time::Duration;
use crate::server_url::{parse_url, url_parse, url_parts};
use crate::text::{concat3, lemma_trim_idempotent, opt_str_view, opt_view, same, trim, trimmed};
use vstd::prelude::*;

verus! {

pub const SESSION_SHARING_SERVER_URL_PLACEHOLDER: &'static str = "ws://127.0.0.1:8788";

/// The number of nanoseconds of a duration.
pub uninterp spec fn duration_nanos(duration: Duration) -> nat;

/// `Duration::from_secs`.
#[verifier::external_body]
fn seconds(n: u64) -> (r: Duration)
    ensures
        duration_nanos(r) == n * 1000000000,
{
    Duration::from_secs(n)
}

/// The difference of two durations, which `Duration` panics on where it would be negative.
#[verifier::external_body]
fn duration_minus(a: Duration, b: Duration) -> (r: Duration)
    requires
        duration_nanos(b) <= duration_nanos(a),
    ensures
        duration_nanos(r) == duration_nanos(a) - duration_nanos(b),
{
    a - b
}

/// `Duration::le`.
#[verifier::external_body]
fn not_longer(a: Duration, b: Duration) -> (r: bool)
    ensures
        r == (duration_nanos(a) <= duration_nanos(b)),
{
    a <= b
}

/// The settings of shared sessions.
#[derive(Debug)]
pub struct SharedSessionSettings {
    pub onboarding_block_shown: bool,
    pub inactivity_period_before_ending_session: Duration,
    pub inactivity_period_before_warning: Duration,
    pub inactivity_period_before_revoking_roles: Duration,
    pub viewer_driven_sizing_enabled: bool,
    pub session_sharing_server_url: String,
}

/// What an inactive session goes through comes in this order: roles are revoked, a warning is
/// shown, the session ends.
pub open spec fn periods_in_order(settings: SharedSessionSettings) -> bool {
    duration_nanos(settings.inactivity_period_before_revoking_roles) <= duration_nanos(
        settings.inactivity_period_before_warning,
    ) && duration_nanos(settings.inactivity_period_before_warning) <= duration_nanos(
        settings.inactivity_period_before_ending_session,
    )
}

impl Default for SharedSessionSettings {
    /// A session ends after half an hour without activity, is warned of five minutes before, and
    /// loses its executors after ten minutes.
    fn default() -> (r: Self)
        ensures
            !r.onboarding_block_shown,
            duration_nanos(r.inactivity_period_before_ending_session) == 1800 * 1000000000,
            duration_nanos(r.inactivity_period_before_warning) == 1500 * 1000000000,
            duration_nanos(r.inactivity_period_before_revoking_roles) == 600 * 1000000000,
            r.viewer_driven_sizing_enabled,
            r.session_sharing_server_url@ == Seq::<char>::empty(),
            periods_in_order(r),
    {
        let session_sharing_server_url = String::new();
        assert(session_sharing_server_url@ =~= Seq::empty());
        SharedSessionSettings {
            onboarding_block_shown: false,
            inactivity_period_before_ending_session: seconds(1800),
            inactivity_period_before_warning: seconds(1500),
            inactivity_period_before_revoking_roles: seconds(600),
            viewer_driven_sizing_enabled: true,
            session_sharing_server_url,
        }
    }
}

impl SharedSessionSettings {
    /// The periods come in their order.
    pub fn has_ordered_periods(&self) -> (r: bool)
        ensures
            r == periods_in_order(*self),
    {
        not_longer(
            self.inactivity_period_before_revoking_roles,
            self.inactivity_period_before_warning,
        ) && not_longer(
            self.inactivity_period_before_warning,
            self.inactivity_period_before_ending_session,
        )
    }

    /// The time between the warning and the end of the session.
    pub fn inactivity_period_between_warning_and_ending_session(&self) -> (r: Duration)
        requires
            duration_nanos(self.inactivity_period_before_warning) <= duration_nanos(
                self.inactivity_period_before_ending_session,
            ),
        ensures
            duration_nanos(r) == duration_nanos(self.inactivity_period_before_ending_session)
                - duration_nanos(self.inactivity_period_before_warning),
    {
        duration_minus(
            self.inactivity_period_before_ending_session,
            self.inactivity_period_before_warning,
        )
    }

    /// The time between the revoking of roles and the warning.
    pub fn inactivity_period_between_revoking_roles_and_warning(&self) -> (r: Duration)
        requires
            duration_nanos(self.inactivity_period_before_revoking_roles) <= duration_nanos(
                self.inactivity_period_before_warning,
            ),
        ensures
            duration_nanos(r) == duration_nanos(self.inactivity_period_before_warning)
                - duration_nanos(self.inactivity_period_before_revoking_roles),
    {
        duration_minus(
            self.inactivity_period_before_warning,
            self.inactivity_period_before_revoking_roles,
        )
    }

    /// The relay that the user configured.
    pub fn configured_session_sharing_server_url(&self) -> (r: Option<&str>)
        ensures
            opt_str_view(r) == configured_url(self.session_sharing_server_url@),
    {
        let url = trimmed(self.session_sharing_server_url.as_str());
        if url.unicode_len() == 0 {
            None
        } else {
            Some(url)
        }
    }
}

/// The relay's address without surrounding space, where one is given.
pub open spec fn configured_url(text: Seq<char>) -> Option<Seq<char>> {
    if trim(text).len() == 0 {
        None
    } else {
        Some(trim(text))
    }
}

/// Why a relay's address is refused.
#[derive(Debug, PartialEq, Eq)]
pub enum SharingUrlError {
    NotAUrl,
    NotAWebSocket { scheme: String },
    Empty,
}

/// The model of a `SharingUrlError`.
pub enum SharingErrorView {
    NotAUrl,
    NotAWebSocket { scheme: Seq<char> },
    Empty,
}

impl SharingUrlError {
    pub open spec fn view(&self) -> SharingErrorView {
        match self {
            SharingUrlError::NotAUrl => SharingErrorView::NotAUrl,
            SharingUrlError::NotAWebSocket { scheme } => SharingErrorView::NotAWebSocket {
                scheme: scheme@,
            },
            SharingUrlError::Empty => SharingErrorView::Empty,
        }
    }

    /// What is said of the error.
    pub fn message(&self) -> (r: String)
        ensures
            r@ == sharing_error_message(self@),
    {
        match self {
            SharingUrlError::NotAUrl => {
                "Session sharing relay URL must be a websocket URL, for example ws://127.0.0.1:8788".to_owned()
            },
            SharingUrlError::NotAWebSocket { scheme } => concat3(
                "Session sharing relay URL must use ws:// or wss://, not ",
                scheme.as_str(),
                "://",
            ),
            SharingUrlError::Empty => "Session sharing relay URL cannot be empty".to_owned(),
        }
    }
}

/// What is said of an error.
pub open spec fn sharing_error_message(error: SharingErrorView) -> Seq<char> {
    match error {
        SharingErrorView::NotAUrl => {
            "Session sharing relay URL must be a websocket URL, for example ws://127.0.0.1:8788"@
        },
        SharingErrorView::NotAWebSocket { scheme } => {
            "Session sharing relay URL must use ws:// or wss://, not "@ + scheme + "://"@
        },
        SharingErrorView::Empty => "Session sharing relay URL cannot be empty"@,
    }
}

/// The relay's address that a text stands for: none where the text is blank.
pub open spec fn normalized_relay(text: Seq<char>) -> Result<Option<Seq<char>>, SharingErrorView> {
    match configured_url(text) {
        None => Ok(None),
        Some(address) => match url_parse(address) {
            Err(_) => Err(SharingErrorView::NotAUrl),
            Ok(url) => if url.scheme == "ws"@ || url.scheme == "wss"@ {
                Ok(Some(address))
            } else {
                Err(SharingErrorView::NotAWebSocket { scheme: url.scheme })
            },
        },
    }
}

/// The model of a relay's address that was read.
pub open spec fn relay_view(r: Result<Option<String>, SharingUrlError>) -> Result<
    Option<Seq<char>>,
    SharingErrorView,
> {
    match r {
        Ok(address) => Ok(opt_view(address)),
        Err(error) => Err(error@),
    }
}

/// The relay's address that a text stands for.
pub fn normalize_session_sharing_server_url(value: &str) -> (r: Result<
    Option<String>,
    SharingUrlError,
>)
    ensures
        relay_view(r) == normalized_relay(value@),
{
    let address = trimmed(value);
    if address.unicode_len() == 0 {
        return Ok(None);
    }
    let url = match parse_url(address) {
        Ok(url) => url,
        Err(_) => {
            return Err(SharingUrlError::NotAUrl);
        },
    };
    let scheme = url_parts(&url).scheme;
    if same(scheme.as_str(), "ws") || same(scheme.as_str(), "wss") {
        Ok(Some(address.to_owned()))
    } else {
        Err(SharingUrlError::NotAWebSocket { scheme })
    }
}

/// What is to be done about the relay that sessions are shared through.
#[derive(Debug, PartialEq, Eq)]
pub enum RelayChange {
    Keep,
    Use { address: String, enable_sharing: bool },
    Clear { disable_sharing: bool },
}

/// The model of a `RelayChange`.
pub enum RelayChangeView {
    Keep,
    Use { address: Seq<char>, enable_sharing: bool },
    Clear { disable_sharing: bool },
}

impl RelayChange {
    pub open spec fn view(&self) -> RelayChangeView {
        match self {
            RelayChange::Keep => RelayChangeView::Keep,
            RelayChange::Use { address, enable_sharing } => RelayChangeView::Use {
                address: address@,
                enable_sharing: *enable_sharing,
            },
            RelayChange::Clear { disable_sharing } => RelayChangeView::Clear {
                disable_sharing: *disable_sharing,
            },
        }
    }
}

/// The change that a new relay asks for. With the cloud in use the relay is the cloud's.
pub open spec fn relay_change(
    no_cloud_mode: bool,
    relay_url: Option<Seq<char>>,
    update_feature_flag: bool,
) -> Result<RelayChangeView, SharingErrorView> {
    if !no_cloud_mode {
        Ok(RelayChangeView::Keep)
    } else {
        match relay_url {
            None => Ok(RelayChangeView::Clear { disable_sharing: update_feature_flag }),
            Some(text) => match normalized_relay(text) {
                Err(error) => Err(error),
                Ok(None) => Err(SharingErrorView::Empty),
                Ok(Some(address)) => Ok(
                    RelayChangeView::Use { address, enable_sharing: update_feature_flag },
                ),
            },
        }
    }
}

/// The model of a change that was decided on.
pub open spec fn relay_change_view(r: Result<RelayChange, SharingUrlError>) -> Result<
    RelayChangeView,
    SharingErrorView,
> {
    match r {
        Ok(change) => Ok(change@),
        Err(error) => Err(error@),
    }
}

/// The change that a new relay asks for.
pub fn apply_session_sharing_server_url(
    no_cloud_mode: bool,
    relay_url: Option<&str>,
    update_feature_flag: bool,
) -> (r: Result<RelayChange, SharingUrlError>)
    ensures
        relay_change_view(r) == relay_change(
            no_cloud_mode,
            opt_str_view(relay_url),
            update_feature_flag,
        ),
{
    if !no_cloud_mode {
        return Ok(RelayChange::Keep);
    }
    match relay_url {
        None => Ok(RelayChange::Clear { disable_sharing: update_feature_flag }),
        Some(text) => match normalize_session_sharing_server_url(text) {
            Err(error) => Err(error),
            Ok(None) => Err(SharingUrlError::Empty),
            Ok(Some(address)) => Ok(
                RelayChange::Use { address, enable_sharing: update_feature_flag },
            ),
        },
    }
}

/// The change that the settings ask for when the app starts: none where a relay is in use already,
/// or none is configured.
pub fn apply_session_sharing_server_url_setting_on_startup(
    settings: &SharedSessionSettings,
    no_cloud_mode: bool,
    has_relay: bool,
) -> (r: Result<RelayChange, SharingUrlError>)
    ensures
        relay_change_view(r) == (match configured_url(settings.session_sharing_server_url@) {
            Some(url) => if no_cloud_mode && !has_relay {
                relay_change(no_cloud_mode, Some(url), true)
            } else {
                Ok(RelayChangeView::Keep)
            },
            None => Ok(RelayChangeView::Keep),
        }),
{
    if !no_cloud_mode || has_relay {
        return Ok(RelayChange::Keep);
    }
    match settings.configured_session_sharing_server_url() {
        Some(url) => apply_session_sharing_server_url(no_cloud_mode, Some(url), true),
        None => Ok(RelayChange::Keep),
    }
}

/// An address that was accepted is accepted again as it is.
pub proof fn law_relay_is_normal(text: Seq<char>, address: Seq<char>)
    requires
        normalized_relay(text) == Ok::<Option<Seq<char>>, SharingErrorView>(Some(address)),
    ensures
        normalized_relay(address) == Ok::<Option<Seq<char>>, SharingErrorView>(Some(address)),
{
    lemma_trim_idempotent(text);
}

} // verus!
