//! Shells inside the terminal's shell: which commands start one, and the settings for those on
//! other machines.
use crate::text::{same, trim, trim_end_char, trimmed, trimmed_end_char, words, words_of};
use vstd::prelude::*;

verus! {

/// The flags with which `wsl` starts a shell.
pub open spec fn is_wsl_shell_flag(word: Seq<char>) -> bool {
    word == "-d"@ || word == "--distribution"@ || word == "-u"@ || word == "--cd"@ || word
        == "--system"@ || word == "--shell-type"@
}

/// The command starts a shell of the Windows Subsystem for Linux: `wsl` by itself, or with a flag
/// that says how the shell is to be started.
pub open spec fn starts_wsl_shell(command: Seq<char>) -> bool {
    let parts = words(command);
    parts.len() > 0 && (parts[0] == "wsl"@ || parts[0] == "wsl.exe"@) && (parts.len() == 1
        || is_wsl_shell_flag(parts[1]))
}

/// Where an extension for remote machines is downloaded from.
#[derive(Debug, PartialEq, Eq)]
pub struct InstallScriptOptions {
    pub download_base_url: String,
    pub download_channel: String,
}

/// The settings for shells inside the terminal's shell.
#[derive(Debug, PartialEq, Eq)]
pub struct WarpifySettings {
    pub enable_ssh_wrapper: bool,
    pub enable_ssh_wrapper_is_set: bool,
    pub enable_ssh_warpification: bool,
    pub enable_ssh_remote_server: bool,
    pub ssh_extension_download_base_url: String,
    pub ssh_extension_download_channel: String,
}

/// The address that an extension is downloaded from: the configured one without trailing slashes;
/// the default where none is configured, or where the configured one is the production address
/// that this build does not use.
pub open spec fn download_base(
    configured: Seq<char>,
    production: Seq<char>,
    default_base: Seq<char>,
) -> Seq<char> {
    let base = trim_end_char(trim(configured), '/');
    if base.len() == 0 || base == production {
        default_base
    } else {
        base
    }
}

impl WarpifySettings {
    /// The settings of a fresh install. The remote server is off until the user turns it on.
    pub fn new_with_defaults(download_base_url: &str, download_channel: &str) -> (r: Self)
        ensures
            r.enable_ssh_wrapper,
            !r.enable_ssh_wrapper_is_set,
            r.enable_ssh_warpification,
            !r.enable_ssh_remote_server,
            r.ssh_extension_download_base_url@ == download_base_url@,
            r.ssh_extension_download_channel@ == download_channel@,
    {
        WarpifySettings {
            enable_ssh_wrapper: true,
            enable_ssh_wrapper_is_set: false,
            enable_ssh_warpification: true,
            enable_ssh_remote_server: false,
            ssh_extension_download_base_url: download_base_url.to_owned(),
            ssh_extension_download_channel: download_channel.to_owned(),
        }
    }

    /// The command starts a shell of the Windows Subsystem for Linux.
    pub fn is_built_in_subshell_match(command: &str) -> (r: bool)
        ensures
            r == starts_wsl_shell(command@),
    {
        let parts = words_of(command);
        let ghost all = words(command@);
        assert(all.len() == parts@.len());
        if parts.len() == 0 {
            return false;
        }
        assert(all[0] == parts@[0]@);
        if !same(parts[0].as_str(), "wsl") && !same(parts[0].as_str(), "wsl.exe") {
            return false;
        }
        if parts.len() == 1 {
            return true;
        }
        assert(all[1] == parts@[1]@);
        let flag = parts[1].as_str();
        same(flag, "-d") || same(flag, "--distribution") || same(flag, "-u") || same(flag, "--cd")
            || same(flag, "--system") || same(flag, "--shell-type")
    }

    /// The remote server is used: the feature is there, the user turned it on, and shells on other
    /// machines are taken over at all.
    pub fn is_ssh_remote_server_enabled(&self, feature_enabled: bool) -> (r: bool)
        ensures
            r == (feature_enabled && self.enable_ssh_remote_server
                && self.enable_ssh_warpification),
    {
        feature_enabled && self.enable_ssh_remote_server && self.enable_ssh_warpification
    }

    /// Carries over that the user turned the old wrapper off. This happens once: the old setting
    /// then stands at its default.
    pub fn migrate_ssh_wrapper(&mut self)
        ensures
            *final(self) == (if old(self).enable_ssh_wrapper_is_set && !old(
                self,
            ).enable_ssh_wrapper {
                WarpifySettings {
                    enable_ssh_warpification: false,
                    enable_ssh_wrapper: true,
                    ..*old(self)
                }
            } else {
                *old(self)
            }),
    {
        if self.enable_ssh_wrapper_is_set && !self.enable_ssh_wrapper {
            self.enable_ssh_warpification = false;
            self.enable_ssh_wrapper = true;
        }
    }

    /// Where an extension for remote machines is downloaded from.
    pub fn ssh_extension_install_options(
        &self,
        production_base_url: &str,
        default_base_url: &str,
    ) -> (r: InstallScriptOptions)
        ensures
            r.download_base_url@ == download_base(
                self.ssh_extension_download_base_url@,
                production_base_url@,
                default_base_url@,
            ),
            r.download_channel@ == trim(self.ssh_extension_download_channel@),
    {
        let base = trimmed_end_char(
            trimmed(self.ssh_extension_download_base_url.as_str()),
            '/',
        );
        let download_base_url = if base.unicode_len() == 0 || same(base, production_base_url) {
            default_base_url.to_owned()
        } else {
            base.to_owned()
        };
        InstallScriptOptions {
            download_base_url,
            download_channel: trimmed(self.ssh_extension_download_channel.as_str()).to_owned(),
        }
    }
}

} // verus!
