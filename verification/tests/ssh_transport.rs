//! The server on a remote host.
use slipstream::ssh_transport::{
    classify_binary_check_success_with_client_version, classify_protocol_check_success,
    cleanup_remote_daemons_command, parse_remote_server_protocol_version,
    parse_remote_server_version, platform_output, preinstall_output, BinaryCheckStatus,
    BinaryUpdateReason, RemoteServerError, RemoteServerExitStatus, SshTransport,
    REMOTE_SERVER_PROTOCOL_VERSION,
};

#[test]
fn remote_proxy_command_quotes_identity_key() {
    let transport = SshTransport::new(
        "/tmp/control-master.sock".to_string(),
        "user id/with spaces".to_string(),
    );

    let command = transport.remote_proxy_command("~/.warp/remote-server/oz");

    assert!(command.contains("remote-server-proxy --identity-key"));
    assert!(command.contains("'user id/with spaces'"));
}

#[test]
fn transport_does_not_trust_tagged_server_for_untagged_client_by_default() {
    let transport = SshTransport::new(
        "/tmp/control-master.sock".to_string(),
        "user id/with spaces".to_string(),
    );

    assert!(!transport.allow_tagged_server_with_untagged_client());
}

#[test]
fn transport_can_trust_tagged_server_after_user_approved_install() {
    let transport = SshTransport::new(
        "/tmp/control-master.sock".to_string(),
        "user id/with spaces".to_string(),
    )
    .with_tagged_server_untagged_client_trust();

    assert!(transport.allow_tagged_server_with_untagged_client());
}

#[test]
fn parse_remote_server_version_from_oz_output() {
    assert_eq!(
        parse_remote_server_version("Oz v0.2026.05.20.09.21.stable_03\n"),
        Some("v0.2026.05.20.09.21.stable_03".to_string())
    );
}

#[test]
fn parse_remote_server_version_ignores_plain_version_word() {
    assert_eq!(parse_remote_server_version("Oz version dev\n"), None);
}

#[test]
fn parse_remote_server_protocol_version_from_output() {
    assert_eq!(
        parse_remote_server_protocol_version(
            "remote-server-protocol-2026-06-session-scoped-envelope\n"
        ),
        Some("remote-server-protocol-2026-06-session-scoped-envelope".to_string())
    );
}

#[test]
fn protocol_check_rejects_missing_protocol_output() {
    let result = classify_protocol_check_success("");

    assert!(matches!(
        result,
        Err(BinaryUpdateReason::ProtocolMismatch { found: None, .. })
    ));
}

#[test]
fn protocol_check_accepts_current_protocol_output() {
    assert!(classify_protocol_check_success(
        REMOTE_SERVER_PROTOCOL_VERSION
    )
    .is_ok());
}

#[test]
fn binary_check_accepts_matching_release_version() {
    let status = classify_binary_check_success_with_client_version(
        "Oz v0.2026.06.05.10.00.stable_01\n",
        Some("v0.2026.06.05.10.00.stable_01"),
    );

    assert_eq!(status, BinaryCheckStatus::Installed);
}

#[test]
fn binary_check_requires_update_for_mismatched_release_version() {
    let status = classify_binary_check_success_with_client_version(
        "Oz v0.2026.05.20.09.21.stable_03\n",
        Some("v0.2026.06.05.10.00.stable_01"),
    );

    assert!(matches!(
        status,
        BinaryCheckStatus::UpdateRequired {
            reason: BinaryUpdateReason::VersionMismatch { .. },
            installed_version: Some(_),
        }
    ));
}

#[test]
fn binary_check_requires_update_when_client_has_no_release_version() {
    let status = classify_binary_check_success_with_client_version(
        "Oz v0.2026.05.20.09.21.stable_03\n",
        None,
    );

    assert!(matches!(
        status,
        BinaryCheckStatus::UpdateRequired {
            reason: BinaryUpdateReason::MissingClientVersion,
            installed_version: Some(_),
        }
    ));
}

#[test]
fn binary_check_accepts_untagged_client_with_untagged_binary() {
    let status = classify_binary_check_success_with_client_version("Oz dev build\n", None);

    assert_eq!(status, BinaryCheckStatus::Installed);
}

#[test]
fn cleanup_daemons_command_covers_all_channel_dirs() {
    let command = cleanup_remote_daemons_command("user id/with spaces");

    assert!(command.contains("~/.warp/remote-server/"));
    assert!(command.contains("~/.warp-preview/remote-server/"));
    assert!(command.contains("~/.warp-dev/remote-server/"));
    assert!(command.contains("~/.warp-local/remote-server/"));
    assert!(command.contains("~/.slipstream/remote-server/"));
    assert!(command.contains("server*.pid"));
    assert!(command.contains("server*.sock"));
    assert!(command.contains("remote-server-daemon"));
}

#[test]
fn daemon_files_lie_in_its_directory() {
    let transport = SshTransport::new("/tmp/sock".to_string(), "key".to_string());
    assert_eq!(
        transport.remote_daemon_socket_path("~/.slipstream/remote-server/key", "server.sock"),
        "~/.slipstream/remote-server/key/server.sock"
    );
    assert_eq!(
        transport.remote_daemon_pid_path("~/.slipstream/remote-server/key", "server.pid"),
        "~/.slipstream/remote-server/key/server.pid"
    );
}

#[test]
fn dead_connections_are_not_taken_up_again() {
    let transport = SshTransport::new("/tmp/sock".to_string(), "key".to_string());
    let status = |code: Option<i32>, signal_killed: bool| RemoteServerExitStatus {
        code,
        signal_killed,
    };
    assert!(transport.is_reconnectable(None));
    assert!(transport.is_reconnectable(Some(&status(Some(1), false))));
    assert!(!transport.is_reconnectable(Some(&status(Some(255), false))));
    assert!(!transport.is_reconnectable(Some(&status(None, true))));
}

#[test]
fn failed_checks_tell_their_code() {
    assert_eq!(
        preinstall_output(Some(0), "ok\n", "noise"),
        Ok("ok\n".to_string())
    );
    assert_eq!(
        preinstall_output(Some(3), "ok", " no libc \n"),
        Err(RemoteServerError::ScriptFailed {
            exit_code: 3,
            stderr: "no libc".to_string()
        })
    );
    assert_eq!(
        preinstall_output(None, "", ""),
        Err(RemoteServerError::ScriptFailed {
            exit_code: -1,
            stderr: String::new()
        })
    );
    assert_eq!(
        platform_output(Some(0), "Linux x86_64\n", ""),
        Ok("Linux x86_64\n".to_string())
    );
    assert_eq!(
        platform_output(None, "", "gone\n"),
        Err(RemoteServerError::Other {
            message: "uname -sm exited with code -1: gone\n".to_string()
        })
    );
}
