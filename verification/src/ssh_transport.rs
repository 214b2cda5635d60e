//! The server that runs on a remote machine: whether it is installed there, whether it fits this
//! app, and how it is started, all through an existing SSH connection.
use crate::shell::{quote_for_shell, shell_quoted};
use crate::text::{
    chars_of, concat2, concat3, is_digit, join, joined, lines, lines_of, opt_str_view, opt_view,
    same, signed_decimal, signed_decimal_of, starts_with, trim, trimmed, views, words, words_of,
};
use vstd::prelude::*;

verus! {

/// The protocol that this app speaks with the remote server.
pub const REMOTE_SERVER_PROTOCOL_VERSION: &'static str =
    "remote-server-protocol-2026-06-session-scoped-envelope";

/// Why the installed server has to be replaced.
#[derive(Debug, PartialEq, Eq)]
pub enum BinaryUpdateReason {
    VersionMismatch { expected: String, found: String },
    MissingVersion { expected: String },
    MissingClientVersion,
    ProtocolMismatch { expected: String, found: Option<String> },
}

/// The model of a `BinaryUpdateReason`.
pub enum ReasonView {
    VersionMismatch { expected: Seq<char>, found: Seq<char> },
    MissingVersion { expected: Seq<char> },
    MissingClientVersion,
    ProtocolMismatch { expected: Seq<char>, found: Option<Seq<char>> },
}

impl BinaryUpdateReason {
    pub open spec fn view(&self) -> ReasonView {
        match self {
            BinaryUpdateReason::VersionMismatch { expected, found } => {
                ReasonView::VersionMismatch { expected: expected@, found: found@ }
            },
            BinaryUpdateReason::MissingVersion { expected } => ReasonView::MissingVersion {
                expected: expected@,
            },
            BinaryUpdateReason::MissingClientVersion => ReasonView::MissingClientVersion,
            BinaryUpdateReason::ProtocolMismatch { expected, found } => {
                ReasonView::ProtocolMismatch { expected: expected@, found: opt_view(*found) }
            },
        }
    }
}

/// How the installed server stands.
#[derive(Debug, PartialEq, Eq)]
pub enum BinaryCheckStatus {
    Installed,
    UpdateRequired { reason: BinaryUpdateReason, installed_version: Option<String> },
    Missing,
}

/// The model of a `BinaryCheckStatus`.
pub enum CheckView {
    Installed,
    UpdateRequired { reason: ReasonView, installed_version: Option<Seq<char>> },
    Missing,
}

impl BinaryCheckStatus {
    pub open spec fn view(&self) -> CheckView {
        match self {
            BinaryCheckStatus::Installed => CheckView::Installed,
            BinaryCheckStatus::UpdateRequired { reason, installed_version } => {
                CheckView::UpdateRequired {
                    reason: reason@,
                    installed_version: opt_view(*installed_version),
                }
            },
            BinaryCheckStatus::Missing => CheckView::Missing,
        }
    }
}

/// Why the remote server cannot be used.
#[derive(Debug, PartialEq, Eq)]
pub enum RemoteServerError {
    IncompatibleBinary { reason: BinaryUpdateReason },
    ScriptFailed { exit_code: i32, stderr: String },
    Other { message: String },
}

/// The model of a `RemoteServerError`.
pub enum RemoteErrorView {
    IncompatibleBinary { reason: ReasonView },
    ScriptFailed { exit_code: i32, stderr: Seq<char> },
    Other { message: Seq<char> },
}

impl RemoteServerError {
    pub open spec fn view(&self) -> RemoteErrorView {
        match self {
            RemoteServerError::IncompatibleBinary { reason } => {
                RemoteErrorView::IncompatibleBinary { reason: reason@ }
            },
            RemoteServerError::ScriptFailed { exit_code, stderr } => {
                RemoteErrorView::ScriptFailed { exit_code: *exit_code, stderr: stderr@ }
            },
            RemoteServerError::Other { message } => RemoteErrorView::Other { message: message@ },
        }
    }
}

/// The quotes and brackets that may surround a version.
pub open spec fn is_mark(c: char) -> bool {
    c == '"' || c == '\'' || c == ',' || c == ';' || c == '(' || c == ')' || c == '[' || c == ']'
}

/// `s` without leading marks.
pub open spec fn unmark_start(s: Seq<char>) -> Seq<char>
    decreases s.len(),
{
    if s.len() > 0 && is_mark(s[0]) {
        unmark_start(s.skip(1))
    } else {
        s
    }
}

/// `s` without trailing marks.
pub open spec fn unmark_end(s: Seq<char>) -> Seq<char>
    decreases s.len(),
{
    if s.len() > 0 && is_mark(s.last()) {
        unmark_end(s.drop_last())
    } else {
        s
    }
}

/// The word is a version: the letter `v` and a digit.
pub open spec fn is_version(word: Seq<char>) -> bool {
    word.len() >= 2 && word[0] == 'v' && is_digit(word[1])
}

/// The first version among the words.
pub open spec fn version_among(words: Seq<Seq<char>>) -> Option<Seq<char>>
    decreases words.len(),
{
    if words.len() == 0 {
        None
    } else {
        let word = unmark_end(unmark_start(words[0]));
        if is_version(word) {
            Some(word)
        } else {
            version_among(words.skip(1))
        }
    }
}

/// The version that the last of the lines with a version names first.
pub open spec fn version_in(lines: Seq<Seq<char>>) -> Option<Seq<char>>
    decreases lines.len(),
{
    if lines.len() == 0 {
        None
    } else {
        match version_among(words(lines.last())) {
            Some(version) => Some(version),
            None => version_in(lines.drop_last()),
        }
    }
}

/// The last of the lines that names a protocol.
pub open spec fn protocol_in(lines: Seq<Seq<char>>) -> Option<Seq<char>>
    decreases lines.len(),
{
    if lines.len() == 0 {
        None
    } else if "remote-server-protocol-"@.is_prefix_of(trim(lines.last())) {
        Some(trim(lines.last()))
    } else {
        protocol_in(lines.drop_last())
    }
}

fn is_mark_char(c: char) -> (r: bool)
    ensures
        r == is_mark(c),
{
    c == '"' || c == '\'' || c == ',' || c == ';' || c == '(' || c == ')' || c == '[' || c == ']'
}

/// The word without surrounding marks.
fn unmarked<'a>(s: &'a str) -> (r: &'a str)
    ensures
        r@ == unmark_end(unmark_start(s@)),
{
    let v = chars_of(s);
    let mut i: usize = 0;
    assert(v@.skip(0) =~= v@);
    while i < v.len() && is_mark_char(v[i])
        invariant
            i <= v@.len(),
            unmark_start(v@) == unmark_start(v@.skip(i as int)),
        decreases v@.len() - i,
    {
        assert(v@.skip(i as int).skip(1) =~= v@.skip(i as int + 1));
        i = i + 1;
    }
    let ghost rest = v@.skip(i as int);
    assert(unmark_start(v@) == rest);
    let mut j: usize = v.len();
    assert(v@.subrange(i as int, j as int) =~= rest);
    while j > i && is_mark_char(v[j - 1])
        invariant
            i <= j <= v@.len(),
            unmark_end(rest) == unmark_end(v@.subrange(i as int, j as int)),
        decreases j,
    {
        let ghost part = v@.subrange(i as int, j as int);
        assert(part.last() == v@[j - 1]);
        assert(part.drop_last() =~= v@.subrange(i as int, j - 1));
        j = j - 1;
    }
    assert(j > i ==> v@.subrange(i as int, j as int).last() == v@[j - 1]);
    s.substring_char(i, j)
}

fn find_version(parts: &Vec<String>) -> (r: Option<String>)
    ensures
        opt_view(r) == version_among(views(parts@)),
{
    let ghost all = views(parts@);
    let mut i: usize = 0;
    assert(all.skip(0) =~= all);
    while i < parts.len()
        invariant
            i <= parts@.len(),
            all == views(parts@),
            version_among(all) == version_among(all.skip(i as int)),
        decreases parts@.len() - i,
    {
        assert(all.skip(i as int)[0] == parts@[i as int]@);
        assert(all.skip(i as int).skip(1) =~= all.skip(i as int + 1));
        let word = unmarked(parts[i].as_str());
        let v = chars_of(word);
        if v.len() >= 2 && v[0] == 'v' && '0' <= v[1] && v[1] <= '9' {
            return Some(word.to_owned());
        }
        i = i + 1;
    }
    None
}

/// The version that the server's output names.
pub fn parse_remote_server_version(stdout: &str) -> (r: Option<String>)
    ensures
        opt_view(r) == version_in(lines(stdout@)),
{
    let lines_out = lines_of(stdout);
    let ghost all = lines(stdout@);
    let mut i: usize = lines_out.len();
    assert(all.take(all.len() as int) =~= all);
    assert(all.len() == lines_out@.len());
    while i > 0
        invariant
            i <= lines_out@.len(),
            all == views(lines_out@),
            all == lines(stdout@),
            version_in(all) == version_in(all.take(i as int)),
        decreases i,
    {
        assert(all.take(i as int).drop_last() =~= all.take(i - 1));
        assert(all.take(i as int).last() == lines_out@[i - 1]@);
        let parts = words_of(lines_out[i - 1].as_str());
        if let Some(version) = find_version(&parts) {
            return Some(version);
        }
        i = i - 1;
    }
    None
}

/// The protocol that the server's output names.
pub fn parse_remote_server_protocol_version(stdout: &str) -> (r: Option<String>)
    ensures
        opt_view(r) == protocol_in(lines(stdout@)),
{
    let lines_out = lines_of(stdout);
    let ghost all = lines(stdout@);
    let mut i: usize = lines_out.len();
    assert(all.take(all.len() as int) =~= all);
    assert(all.len() == lines_out@.len());
    while i > 0
        invariant
            i <= lines_out@.len(),
            all == views(lines_out@),
            all == lines(stdout@),
            protocol_in(all) == protocol_in(all.take(i as int)),
        decreases i,
    {
        assert(all.take(i as int).drop_last() =~= all.take(i - 1));
        assert(all.take(i as int).last() == lines_out@[i - 1]@);
        let line = trimmed(lines_out[i - 1].as_str());
        if starts_with(line, "remote-server-protocol-") {
            return Some(line.to_owned());
        }
        i = i - 1;
    }
    None
}

/// How an installed server stands whose output names `found`, for an app of version `expected`.
/// Builds without a version on both sides go together.
pub open spec fn version_verdict(
    expected: Option<Seq<char>>,
    found: Option<Seq<char>>,
) -> CheckView {
    match (expected, found) {
        (Some(expected), Some(version)) => if version == expected {
            CheckView::Installed
        } else {
            CheckView::UpdateRequired {
                reason: ReasonView::VersionMismatch { expected, found: version },
                installed_version: found,
            }
        },
        (Some(expected), None) => CheckView::UpdateRequired {
            reason: ReasonView::MissingVersion { expected },
            installed_version: None,
        },
        (None, None) => CheckView::Installed,
        (None, Some(_)) => CheckView::UpdateRequired {
            reason: ReasonView::MissingClientVersion,
            installed_version: found,
        },
    }
}

/// How the installed server stands whose version output is given.
pub fn classify_binary_check_success_with_client_version(
    version_stdout: &str,
    client_version: Option<&str>,
) -> (r: BinaryCheckStatus)
    ensures
        r@ == version_verdict(opt_str_view(client_version), version_in(lines(version_stdout@))),
{
    match (client_version, parse_remote_server_version(version_stdout)) {
        (Some(expected), Some(found)) => {
            if same(found.as_str(), expected) {
                BinaryCheckStatus::Installed
            } else {
                BinaryCheckStatus::UpdateRequired {
                    reason: BinaryUpdateReason::VersionMismatch {
                        expected: expected.to_owned(),
                        found: found.clone(),
                    },
                    installed_version: Some(found),
                }
            }
        },
        (Some(expected), None) => BinaryCheckStatus::UpdateRequired {
            reason: BinaryUpdateReason::MissingVersion { expected: expected.to_owned() },
            installed_version: None,
        },
        (None, None) => BinaryCheckStatus::Installed,
        (None, Some(found)) => BinaryCheckStatus::UpdateRequired {
            reason: BinaryUpdateReason::MissingClientVersion,
            installed_version: Some(found),
        },
    }
}

/// The reason that a server gives which speaks another protocol.
pub open spec fn other_protocol(found: Option<Seq<char>>) -> ReasonView {
    ReasonView::ProtocolMismatch {
        expected: "remote-server-protocol-2026-06-session-scoped-envelope"@,
        found,
    }
}

/// What an attempt to tell the protocol gave.
pub open spec fn protocol_view(r: Result<(), BinaryUpdateReason>) -> Result<(), ReasonView> {
    match r {
        Ok(_) => Ok(()),
        Err(reason) => Err(reason@),
    }
}

/// Whether the server speaks this app's protocol.
pub open spec fn protocol_verdict(exit_code: Option<i32>, stdout: Seq<char>) -> Result<
    (),
    ReasonView,
> {
    let found = protocol_in(lines(stdout));
    if exit_code == Some(0i32) && found == Some(
        "remote-server-protocol-2026-06-session-scoped-envelope"@,
    ) {
        Ok(())
    } else {
        Err(other_protocol(found))
    }
}

/// Whether the server speaks this app's protocol, by the output of a check that succeeded.
pub fn classify_protocol_check_success(protocol_stdout: &str) -> (r: Result<
    (),
    BinaryUpdateReason,
>)
    ensures
        protocol_view(r) == protocol_verdict(Some(0), protocol_stdout@),
{
    let found = parse_remote_server_protocol_version(protocol_stdout);
    let fits = match &found {
        Some(found) => same(found.as_str(), REMOTE_SERVER_PROTOCOL_VERSION),
        None => false,
    };
    if fits {
        Ok(())
    } else {
        Err(
            BinaryUpdateReason::ProtocolMismatch {
                expected: REMOTE_SERVER_PROTOCOL_VERSION.to_owned(),
                found,
            },
        )
    }
}

/// Whether the server speaks this app's protocol, by how the check ended.
pub fn check_remote_server_protocol(exit_code: Option<i32>, stdout: &str) -> (r: Result<
    (),
    BinaryUpdateReason,
>)
    ensures
        protocol_view(r) == protocol_verdict(exit_code, stdout@),
{
    let succeeded = match exit_code {
        Some(code) => code == 0,
        None => false,
    };
    if succeeded {
        classify_protocol_check_success(stdout)
    } else {
        Err(
            BinaryUpdateReason::ProtocolMismatch {
                expected: REMOTE_SERVER_PROTOCOL_VERSION.to_owned(),
                found: parse_remote_server_protocol_version(stdout),
            },
        )
    }
}

/// What a check of the installed server goes on with.
#[derive(Debug, PartialEq, Eq)]
pub enum BinaryCheckStep {
    CheckProtocol { status: BinaryCheckStatus },
    Done { result: Result<BinaryCheckStatus, RemoteServerError> },
}

/// The model of a `BinaryCheckStep`.
pub enum BinaryStepView {
    CheckProtocol { status: CheckView },
    Done { result: Result<CheckView, RemoteErrorView> },
}

/// The model of how a check ended.
pub open spec fn check_result_view(r: Result<BinaryCheckStatus, RemoteServerError>) -> Result<
    CheckView,
    RemoteErrorView,
> {
    match r {
        Ok(status) => Ok(status@),
        Err(error) => Err(error@),
    }
}

impl BinaryCheckStep {
    pub open spec fn view(&self) -> BinaryStepView {
        match self {
            BinaryCheckStep::CheckProtocol { status } => BinaryStepView::CheckProtocol {
                status: status@,
            },
            BinaryCheckStep::Done { result } => BinaryStepView::Done {
                result: check_result_view(*result),
            },
        }
    }
}

/// What the check of the version leads to. The shell's codes for a command that cannot be run or
/// is not there mean that no server is installed.
pub open spec fn version_check_step(
    exit_code: Option<i32>,
    stdout: Seq<char>,
    stderr: Seq<char>,
    client_version: Option<Seq<char>>,
) -> BinaryStepView {
    match exit_code {
        Some(code) => if code == 0 {
            BinaryStepView::CheckProtocol {
                status: version_verdict(client_version, version_in(lines(stdout))),
            }
        } else if code == 126 || code == 127 {
            BinaryStepView::Done { result: Ok(CheckView::Missing) }
        } else {
            BinaryStepView::Done {
                result: Err(
                    RemoteErrorView::Other {
                        message: "remote-server binary check exited with code "@ + signed_decimal(
                            code as int,
                        ) + ": "@ + stderr,
                    },
                ),
            }
        },
        None => BinaryStepView::Done {
            result: Err(
                RemoteErrorView::Other {
                    message: "remote-server binary check terminated without exit code: "@ + stderr,
                },
            ),
        },
    }
}

/// What the check of the version leads to.
pub fn check_installed_binary(
    exit_code: Option<i32>,
    stdout: &str,
    stderr: &str,
    client_version: Option<&str>,
) -> (r: BinaryCheckStep)
    ensures
        r@ == version_check_step(exit_code, stdout@, stderr@, opt_str_view(client_version)),
{
    match exit_code {
        Some(code) => {
            if code == 0 {
                BinaryCheckStep::CheckProtocol {
                    status: classify_binary_check_success_with_client_version(
                        stdout,
                        client_version,
                    ),
                }
            } else if code == 126 || code == 127 {
                BinaryCheckStep::Done { result: Ok(BinaryCheckStatus::Missing) }
            } else {
                let mut message = concat3(
                    "remote-server binary check exited with code ",
                    signed_decimal_of(code as i64).as_str(),
                    ": ",
                );
                message.append(stderr);
                BinaryCheckStep::Done { result: Err(RemoteServerError::Other { message }) }
            }
        },
        None => BinaryCheckStep::Done {
            result: Err(
                RemoteServerError::Other {
                    message: concat2(
                        "remote-server binary check terminated without exit code: ",
                        stderr,
                    ),
                },
            ),
        },
    }
}

/// The version calls for an update.
pub open spec fn is_outdated(status: CheckView) -> bool {
    match status {
        CheckView::UpdateRequired { reason, .. } => reason is VersionMismatch
            || reason is MissingVersion,
        _ => false,
    }
}

/// How the installed server stands after both checks. A server of another version is updated,
/// whatever protocol it speaks.
pub open spec fn combined_verdict(
    status: CheckView,
    protocol: Result<(), ReasonView>,
    has_client_version: bool,
) -> Result<CheckView, RemoteErrorView> {
    match protocol {
        Ok(_) => Ok(status),
        Err(reason) => if has_client_version && is_outdated(status) {
            Ok(status)
        } else {
            Err(RemoteErrorView::IncompatibleBinary { reason })
        },
    }
}

/// How the installed server stands after both checks.
pub fn check_installed_binary_status(
    status: BinaryCheckStatus,
    protocol: Result<(), BinaryUpdateReason>,
    has_client_version: bool,
) -> (r: Result<BinaryCheckStatus, RemoteServerError>)
    ensures
        check_result_view(r) == combined_verdict(
            status@,
            protocol_view(protocol),
            has_client_version,
        ),
{
    match protocol {
        Ok(_) => Ok(status),
        Err(reason) => {
            let outdated = match &status {
                BinaryCheckStatus::UpdateRequired {
                    reason: BinaryUpdateReason::VersionMismatch { .. },
                    ..
                } => true,
                BinaryCheckStatus::UpdateRequired {
                    reason: BinaryUpdateReason::MissingVersion { .. },
                    ..
                } => true,
                _ => false,
            };
            if has_client_version && outdated {
                Ok(status)
            } else {
                Err(RemoteServerError::IncompatibleBinary { reason })
            }
        },
    }
}

/// What an attempt gave that has no value of its own.
pub open spec fn unit_result_view(r: Result<(), RemoteServerError>) -> Result<
    (),
    RemoteErrorView,
> {
    match r {
        Ok(_) => Ok(()),
        Err(error) => Err(error@),
    }
}

/// Whether a server that was just installed can be used.
pub open spec fn install_verdict(check: Result<CheckView, RemoteErrorView>) -> Result<
    (),
    RemoteErrorView,
> {
    match check {
        Ok(CheckView::Installed) => Ok(()),
        Ok(CheckView::UpdateRequired { reason, .. }) => if reason is MissingClientVersion {
            Ok(())
        } else {
            Err(RemoteErrorView::IncompatibleBinary { reason })
        },
        Ok(CheckView::Missing) => Err(
            RemoteErrorView::Other {
                message: "post-install compatibility check unexpectedly reported missing binary"@,
            },
        ),
        Err(error) => Err(error),
    }
}

/// Whether a server that was just installed can be used.
pub fn verify_installed_binary_compatible(
    check: Result<BinaryCheckStatus, RemoteServerError>,
) -> (r: Result<(), RemoteServerError>)
    ensures
        unit_result_view(r) == install_verdict(check_result_view(check)),
{
    match check {
        Ok(BinaryCheckStatus::Installed) => Ok(()),
        Ok(BinaryCheckStatus::UpdateRequired { reason, .. }) => match reason {
            BinaryUpdateReason::MissingClientVersion => Ok(()),
            reason => Err(RemoteServerError::IncompatibleBinary { reason }),
        },
        Ok(BinaryCheckStatus::Missing) => Err(
            RemoteServerError::Other {
                message: "post-install compatibility check unexpectedly reported missing binary".to_owned(),
            },
        ),
        Err(error) => Err(error),
    }
}

/// What an installation came to: where it succeeded, what the check says; else its own error.
pub fn verify_install_outcome(
    outcome: Result<(), RemoteServerError>,
    check: Result<BinaryCheckStatus, RemoteServerError>,
) -> (r: Result<(), RemoteServerError>)
    ensures
        unit_result_view(r) == (match outcome {
            Ok(_) => install_verdict(check_result_view(check)),
            Err(error) => Err(error@),
        }),
{
    match outcome {
        Ok(_) => verify_installed_binary_compatible(check),
        Err(error) => Err(error),
    }
}

/// The directories in which any release channel installs the remote server.
pub open spec fn install_dirs() -> Seq<Seq<char>> {
    seq![
        "~/.warp/remote-server"@,
        "~/.warp-preview/remote-server"@,
        "~/.warp-dev/remote-server"@,
        "~/.warp-local/remote-server"@,
        "~/.slipstream/remote-server"@,
    ]
}

/// The directories in which any release channel installs the remote server.
pub fn known_remote_server_install_dirs() -> (r: Vec<String>)
    ensures
        views(r@) == install_dirs(),
{
    let mut r: Vec<String> = Vec::new();
    r.push("~/.warp/remote-server".to_owned());
    r.push("~/.warp-preview/remote-server".to_owned());
    r.push("~/.warp-dev/remote-server".to_owned());
    r.push("~/.warp-local/remote-server".to_owned());
    r.push("~/.slipstream/remote-server".to_owned());
    assert(views(r@) =~= install_dirs());
    r
}

/// The command that tells whether some channel's server was installed before.
pub fn old_binary_check_command() -> (r: String)
    ensures
        r@ == "for d in "@ + join(install_dirs(), " "@)
            + "; do if [ -d \"$d\" ]; then exit 0; fi; done; exit 1"@,
{
    let dirs = known_remote_server_install_dirs();
    concat3(
        "for d in ",
        joined(&dirs, " ").as_str(),
        "; do if [ -d \"$d\" ]; then exit 0; fi; done; exit 1",
    )
}

/// Whether some channel's server was installed before, by how the command ended.
pub open spec fn old_binary_verdict(exit_code: Option<i32>, stderr: Seq<char>) -> Result<
    bool,
    Seq<char>,
> {
    match exit_code {
        Some(code) => if code == 0 {
            Ok(true)
        } else if code == 1 {
            Ok(false)
        } else {
            Err(
                "remote-server dir check exited with code "@ + signed_decimal(code as int) + ": "@
                    + stderr,
            )
        },
        None => Err("remote-server dir check terminated by signal"@),
    }
}

/// Whether some channel's server was installed before, by how the command ended.
pub fn check_has_old_binary(exit_code: Option<i32>, stderr: &str) -> (r: Result<bool, String>)
    ensures
        match r {
            Ok(found) => old_binary_verdict(exit_code, stderr@) == Ok::<bool, Seq<char>>(found),
            Err(message) => old_binary_verdict(exit_code, stderr@) == Err::<bool, Seq<char>>(
                message@,
            ),
        },
{
    match exit_code {
        Some(code) => {
            if code == 0 {
                Ok(true)
            } else if code == 1 {
                Ok(false)
            } else {
                let mut message = concat3(
                    "remote-server dir check exited with code ",
                    signed_decimal_of(code as i64).as_str(),
                    ": ",
                );
                message.append(stderr);
                Err(message)
            }
        },
        None => Err("remote-server dir check terminated by signal".to_owned()),
    }
}

/// The directories of an identity's daemons.
pub open spec fn daemon_dirs(dirs: Seq<Seq<char>>, identity_dir: Seq<char>) -> Seq<Seq<char>> {
    dirs.map_values(|d: Seq<char>| d + "/"@ + identity_dir)
}

/// What the cleaning up does in each directory: it ends the daemons that their files name, and
/// only those, and removes the files.
pub open spec fn cleanup_steps() -> Seq<char> {
    "; do [ -d \"$d\" ] || continue; for p in \"$d\"/server*.pid; do [ -e \"$p\" ] || continue; pid=$(cat \"$p\" 2>/dev/null || true); case \"$pid\" in ''|*[!0-9]*) continue ;; esac; cmdline=$(ps -p \"$pid\" -o args= 2>/dev/null || true); case \"$cmdline\" in *remote-server-daemon*) kill \"$pid\" 2>/dev/null || true ;; esac; done; rm -f \"$d\"/server*.pid \"$d\"/server*.sock 2>/dev/null || true; done"@
}

/// The command that ends an identity's daemons, of any release channel.
pub fn cleanup_remote_daemons_command(identity_dir: &str) -> (r: String)
    ensures
        r@ == "for d in "@ + join(daemon_dirs(install_dirs(), identity_dir@), " "@)
            + cleanup_steps(),
{
    let dirs = known_remote_server_install_dirs();
    let ghost all = install_dirs();
    let mut daemons: Vec<String> = Vec::new();
    let mut i: usize = 0;
    while i < dirs.len()
        invariant
            i <= dirs@.len(),
            all == views(dirs@),
            views(daemons@) == daemon_dirs(all, identity_dir@).take(i as int),
        decreases dirs@.len() - i,
    {
        let ghost done = views(daemons@);
        daemons.push(concat3(dirs[i].as_str(), "/", identity_dir));
        proof {
            assert(all[i as int] == dirs@[i as int]@);
            assert(views(daemons@) =~= done.push(all[i as int] + "/"@ + identity_dir@));
            assert(daemon_dirs(all, identity_dir@).take(i as int + 1) =~= done.push(
                daemon_dirs(all, identity_dir@)[i as int],
            ));
        }
        i = i + 1;
    }
    assert(daemon_dirs(all, identity_dir@).take(i as int) =~= daemon_dirs(all, identity_dir@));
    concat3(
        "for d in ",
        joined(&daemons, " ").as_str(),
        "; do [ -d \"$d\" ] || continue; for p in \"$d\"/server*.pid; do [ -e \"$p\" ] || continue; pid=$(cat \"$p\" 2>/dev/null || true); case \"$pid\" in ''|*[!0-9]*) continue ;; esac; cmdline=$(ps -p \"$pid\" -o args= 2>/dev/null || true); case \"$cmdline\" in *remote-server-daemon*) kill \"$pid\" 2>/dev/null || true ;; esac; done; rm -f \"$d\"/server*.pid \"$d\"/server*.sock 2>/dev/null || true; done",
    )
}

/// What is said of a command on the remote machine that failed; a command that a signal ended
/// counts as code -1.
pub open spec fn failure_text(what: Seq<char>, exit_code: Option<i32>, stderr: Seq<char>) -> Seq<
    char,
> {
    what + " exited with code "@ + signed_decimal(
        match exit_code {
            Some(code) => code as int,
            None => -1,
        },
    ) + ": "@ + stderr
}

/// How a command on the remote machine ended.
pub fn remote_command_result(what: &str, exit_code: Option<i32>, stderr: &str) -> (r: Result<
    (),
    RemoteServerError,
>)
    ensures
        unit_result_view(r) == (if exit_code == Some(0i32) {
            Ok(())
        } else {
            Err(RemoteErrorView::Other { message: failure_text(what@, exit_code, stderr@) })
        }),
{
    let code: i32 = match exit_code {
        Some(code) => code,
        None => -1,
    };
    if code == 0 {
        return Ok(());
    }
    let mut message = concat3(
        what,
        " exited with code ",
        signed_decimal_of(code as i64).as_str(),
    );
    message.append(": ");
    message.append(stderr);
    Err(RemoteServerError::Other { message })
}

/// The model of an attempt to get the output of a command.
pub open spec fn output_view(r: Result<String, RemoteServerError>) -> Result<
    Seq<char>,
    RemoteErrorView,
> {
    match r {
        Ok(output) => Ok(output@),
        Err(error) => Err(error@),
    }
}

/// What `uname -sm` said of the remote machine, where it succeeded.
pub fn platform_output(exit_code: Option<i32>, stdout: &str, stderr: &str) -> (r: Result<
    String,
    RemoteServerError,
>)
    ensures
        output_view(r) == (if exit_code == Some(0i32) {
            Ok(stdout@)
        } else {
            Err(RemoteErrorView::Other { message: failure_text("uname -sm"@, exit_code, stderr@) })
        }),
{
    match remote_command_result("uname -sm", exit_code, stderr) {
        Ok(_) => Ok(stdout.to_owned()),
        Err(error) => Err(error),
    }
}

/// What the check before an installation said, where it succeeded; a check that a signal ended
/// counts as code -1.
pub fn preinstall_output(exit_code: Option<i32>, stdout: &str, stderr: &str) -> (r: Result<
    String,
    RemoteServerError,
>)
    ensures
        output_view(r) == (if exit_code == Some(0i32) {
            Ok(stdout@)
        } else {
            Err(
                RemoteErrorView::ScriptFailed {
                    exit_code: match exit_code {
                        Some(code) => code,
                        None => -1i32,
                    },
                    stderr: trim(stderr@),
                },
            )
        }),
{
    let exit_code: i32 = match exit_code {
        Some(code) => code,
        None => -1,
    };
    if exit_code == 0 {
        Ok(stdout.to_owned())
    } else {
        Err(RemoteServerError::ScriptFailed { exit_code, stderr: trimmed(stderr).to_owned() })
    }
}

/// How the process that carries the connection ended.
#[derive(Debug, Clone, Copy, PartialEq, Eq, Structural)]
pub struct RemoteServerExitStatus {
    pub code: Option<i32>,
    pub signal_killed: bool,
}

/// A transport that reaches the remote server through the socket of an SSH connection.
#[derive(Debug)]
pub struct SshTransport {
    socket_path: String,
    identity_key: String,
    allow_tagged_server_with_untagged_client: bool,
}

impl SshTransport {
    /// The socket of the SSH connection.
    pub closed spec fn socket(&self) -> Seq<char> {
        self.socket_path@
    }

    /// The identity for which the server runs.
    pub closed spec fn identity(&self) -> Seq<char> {
        self.identity_key@
    }

    /// A server with a release version is trusted by an app without one.
    pub closed spec fn trusts_tagged_server(&self) -> bool {
        self.allow_tagged_server_with_untagged_client
    }

    /// A transport through the socket.
    pub fn new(socket_path: String, identity_key: String) -> (r: Self)
        ensures
            r.socket() == socket_path@,
            r.identity() == identity_key@,
            !r.trusts_tagged_server(),
    {
        SshTransport {
            socket_path,
            identity_key,
            allow_tagged_server_with_untagged_client: false,
        }
    }

    /// The transport, trusting a server with a release version although the app has none.
    pub fn with_tagged_server_untagged_client_trust(self) -> (r: Self)
        ensures
            r.socket() == self.socket(),
            r.identity() == self.identity(),
            r.trusts_tagged_server(),
    {
        SshTransport { allow_tagged_server_with_untagged_client: true, ..self }
    }

    /// The socket of the SSH connection.
    pub fn socket_path(&self) -> (r: &str)
        ensures
            r@ == self.socket(),
    {
        self.socket_path.as_str()
    }

    /// A server with a release version is trusted by an app without one.
    pub fn allow_tagged_server_with_untagged_client(&self) -> (r: bool)
        ensures
            r == self.trusts_tagged_server(),
    {
        self.allow_tagged_server_with_untagged_client
    }

    /// The path of the daemon's socket on the remote machine.
    pub fn remote_daemon_socket_path(&self, daemon_dir: &str, socket_name: &str) -> (r: String)
        ensures
            r@ == daemon_dir@ + "/"@ + socket_name@,
    {
        concat3(daemon_dir, "/", socket_name)
    }

    /// The path of the file that names the daemon's process.
    pub fn remote_daemon_pid_path(&self, daemon_dir: &str, pid_name: &str) -> (r: String)
        ensures
            r@ == daemon_dir@ + "/"@ + pid_name@,
    {
        concat3(daemon_dir, "/", pid_name)
    }

    /// The command that starts the server on the remote machine.
    pub fn remote_proxy_command(&self, binary: &str) -> (r: String)
        ensures
            r@ == binary@ + " remote-server-proxy --identity-key "@ + shell_quoted(
                self.identity(),
            ),
    {
        concat3(
            binary,
            " remote-server-proxy --identity-key ",
            quote_for_shell(self.identity_key.as_str()).as_str(),
        )
    }

    /// A new attempt through the same SSH connection makes sense: the connection did not break,
    /// and its process was not killed.
    pub fn is_reconnectable(&self, exit_status: Option<&RemoteServerExitStatus>) -> (r: bool)
        ensures
            r == (match exit_status {
                Some(status) => status.code != Some(255i32) && !status.signal_killed,
                None => true,
            }),
    {
        match exit_status {
            Some(status) => {
                let broken = match status.code {
                    Some(code) => code == 255,
                    None => false,
                };
                !broken && !status.signal_killed
            },
            None => true,
        }
    }
}

/// A server that was checked and found installed is usable, and a missing one is not.
pub proof fn law_installed_server_is_usable(version: Option<Seq<char>>)
    ensures
        install_verdict(
            combined_verdict(version_verdict(version, version), Ok(()), version is Some)
        )
            == Ok::<(), RemoteErrorView>(()),
        install_verdict(Ok(CheckView::Missing)) is Err,
{
}

/// A server of another version is always updated, never refused, where this app has a version.
pub proof fn law_outdated_server_is_updated(
    expected: Seq<char>,
    found: Option<Seq<char>>,
    protocol: Result<(), ReasonView>,
)
    requires
        found != Some(expected),
    ensures
        combined_verdict(version_verdict(Some(expected), found), protocol, true) == Ok::<
            CheckView,
            RemoteErrorView,
        >(version_verdict(Some(expected), found)),
        version_verdict(Some(expected), found) is UpdateRequired,
{
}

} // verus!
