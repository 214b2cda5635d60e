//! Settings of subshells and of SSH hosts.
use slipstream::warpify::WarpifySettings;

#[test]
fn test_wsl_subshell_detection_success() {
    [
        "wsl",
        "wsl.exe",
        "wsl -d Ubuntu",
        "wsl --distribution Ubuntu",
        "wsl -u user",
        "wsl --cd /home/user",
        "wsl --system",
        "wsl --shell-type login",
        "wsl -d Ubuntu --cd /home/user -u username",
        "wsl.exe -d Ubuntu --cd /home/user -u username",
    ]
    .iter()
    .for_each(|cmd| {
        assert!(
            WarpifySettings::is_built_in_subshell_match(cmd),
            "{} failed to match",
            *cmd
        )
    });
}

#[test]
fn test_wsl_subshell_detection_fail() {
    [
        "wsl --install",
        "wsl --status",
        "wsl --list",
        "wsl --export Ubuntu file.tar",
        "wsl --uninstall",
        "wsl --shutdown",
        "wslfetch",
        "nowsl",
        "wsl --help",
        "wsl --version",
        "wsl --terminate Ubuntu",
        "wsl --unregister Ubuntu",
        "wsl --update",
        "wsl --import-in-place Ubuntu",
        "wsl --default-user root",
        "wsl --mount \\device",
    ]
    .iter()
    .for_each(|cmd| {
        assert!(
            !WarpifySettings::is_built_in_subshell_match(cmd),
            "{} accidentally matched",
            *cmd
        )
    });
}

const PRODUCTION: &str = "https://app.example.com/download/cli";
const DEFAULT_BASE: &str = "https://releases.example.com/cli";

#[test]
fn test_enable_ssh_wrapper_false_migrates_to_enable_ssh_warpification_false() {
    let mut settings = WarpifySettings::new_with_defaults(DEFAULT_BASE, "stable");
    settings.enable_ssh_wrapper = false;
    settings.enable_ssh_wrapper_is_set = true;

    settings.migrate_ssh_wrapper();

    assert!(!settings.enable_ssh_warpification);
    assert!(settings.enable_ssh_wrapper);
}

#[test]
fn test_enable_ssh_wrapper_default_does_not_affect_enable_ssh_warpification() {
    let mut settings = WarpifySettings::new_with_defaults(DEFAULT_BASE, "stable");
    assert!(!settings.enable_ssh_wrapper_is_set);

    settings.migrate_ssh_wrapper();

    assert!(settings.enable_ssh_warpification);
}

#[test]
fn ssh_remote_server_is_disabled_by_default_even_when_flag_is_enabled() {
    let settings = WarpifySettings::new_with_defaults(DEFAULT_BASE, "stable");
    assert!(!settings.is_ssh_remote_server_enabled(true));
}

#[test]
fn ssh_remote_server_requires_user_setting_and_ssh_warpification() {
    let mut settings = WarpifySettings::new_with_defaults(DEFAULT_BASE, "stable");

    settings.enable_ssh_remote_server = true;
    assert!(settings.is_ssh_remote_server_enabled(true));

    settings.enable_ssh_warpification = false;
    assert!(!settings.is_ssh_remote_server_enabled(true));
}

#[test]
fn ssh_extension_download_settings_default_to_channel_values() {
    let settings = WarpifySettings::new_with_defaults(DEFAULT_BASE, "stable");

    assert_eq!(settings.ssh_extension_download_base_url, DEFAULT_BASE);
    assert_eq!(settings.ssh_extension_download_channel, "stable");
}

#[test]
fn ssh_extension_install_options_use_normalized_download_settings() {
    let mut settings = WarpifySettings::new_with_defaults(DEFAULT_BASE, "stable");
    settings.ssh_extension_download_base_url =
        "https://downloads.example.com/warp/cli/".to_string();
    settings.ssh_extension_download_channel = "preview".to_string();

    let options = settings.ssh_extension_install_options(PRODUCTION, DEFAULT_BASE);
    assert_eq!(
        options.download_base_url,
        "https://downloads.example.com/warp/cli"
    );
    assert_eq!(options.download_channel, "preview");
}

#[test]
fn ssh_extension_install_options_ignore_stale_production_default_for_oss() {
    let mut settings = WarpifySettings::new_with_defaults(DEFAULT_BASE, "stable");
    settings.ssh_extension_download_base_url = format!("{}/", PRODUCTION);

    let options = settings.ssh_extension_install_options(PRODUCTION, DEFAULT_BASE);
    assert_eq!(options.download_base_url, DEFAULT_BASE);
}
