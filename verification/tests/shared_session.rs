//! The relay of shared sessions.
use slipstream::shared_session::{
    apply_session_sharing_server_url, normalize_session_sharing_server_url, RelayChange,
    SharedSessionSettings, SharingUrlError,
};

#[test]
fn normalize_session_sharing_server_url_accepts_ws_urls() {
    assert_eq!(
        normalize_session_sharing_server_url(" ws://127.0.0.1:8788 ").unwrap(),
        Some("ws://127.0.0.1:8788".to_owned())
    );
    assert_eq!(
        normalize_session_sharing_server_url("wss://relay.example.com").unwrap(),
        Some("wss://relay.example.com".to_owned())
    );
}

#[test]
fn normalize_session_sharing_server_url_allows_empty_values() {
    assert_eq!(normalize_session_sharing_server_url("   ").unwrap(), None);
}

#[test]
fn normalize_session_sharing_server_url_rejects_non_websocket_urls() {
    assert!(normalize_session_sharing_server_url("https://127.0.0.1:8788").is_err());
}

#[test]
fn rejected_relays_say_why() {
    assert_eq!(
        normalize_session_sharing_server_url("https://127.0.0.1:8788"),
        Err(SharingUrlError::NotAWebSocket {
            scheme: "https".to_owned()
        })
    );
    assert_eq!(
        normalize_session_sharing_server_url("not a url"),
        Err(SharingUrlError::NotAUrl)
    );
}

#[test]
fn a_normal_relay_stays_as_it_is() {
    let once = normalize_session_sharing_server_url("wss://relay.example.com/path/")
        .unwrap()
        .unwrap();
    let twice = normalize_session_sharing_server_url(&once).unwrap();
    assert_eq!(twice, Some(once));
}

#[test]
fn relay_changes_only_without_the_cloud() {
    assert_eq!(
        apply_session_sharing_server_url(false, Some("ws://127.0.0.1:8788"), true).unwrap(),
        RelayChange::Keep
    );
    assert_eq!(
        apply_session_sharing_server_url(true, Some("ws://127.0.0.1:8788"), true).unwrap(),
        RelayChange::Use {
            address: "ws://127.0.0.1:8788".to_owned(),
            enable_sharing: true,
        }
    );
    assert_eq!(
        apply_session_sharing_server_url(true, None, false).unwrap(),
        RelayChange::Clear {
            disable_sharing: false
        }
    );
}

#[test]
fn default_periods_are_ordered() {
    let settings = SharedSessionSettings::default();
    assert!(settings.has_ordered_periods());
    assert_eq!(settings.configured_session_sharing_server_url(), None);
}

#[test]
fn periods_between_the_steps() {
    let settings = SharedSessionSettings::default();
    assert_eq!(
        settings.inactivity_period_between_warning_and_ending_session()
            + settings.inactivity_period_before_warning,
        settings.inactivity_period_before_ending_session
    );
    assert_eq!(
        settings.inactivity_period_between_revoking_roles_and_warning()
            + settings.inactivity_period_before_revoking_roles,
        settings.inactivity_period_before_warning
    );
}
