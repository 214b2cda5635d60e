//! What holds of the checks of a remote server, whatever the remote machine says.
use crate::ssh_transport::{
    BinaryStepView, CheckView, ReasonView, RemoteErrorView, combined_verdict, daemon_dirs,
    install_dirs, install_verdict, is_mark, old_binary_verdict, protocol_in, protocol_verdict,
    unmark_end, unmark_start, version_among, version_check_step, version_in, version_verdict,
};
use crate::text::{lines, trim, words};
use vstd::prelude::*;

verus! {

/// A server counts as missing exactly where the shell says that its command is not there or cannot
/// be run, whatever was printed and whatever version this app has. Where the command ran, the
/// protocol is asked next; any other end is an error that tells what was printed.
pub proof fn law_missing_server(
    exit_code: Option<i32>,
    stdout: Seq<char>,
    stderr: Seq<char>,
    client_version: Option<Seq<char>>,
)
    ensures
        version_check_step(exit_code, stdout, stderr, client_version) == (BinaryStepView::Done {
            result: Ok(CheckView::Missing),
        }) <==> exit_code == Some(126i32) || exit_code == Some(127i32),
        version_check_step(
            exit_code,
            stdout,
            stderr,
            client_version,
        ) is CheckProtocol <==> exit_code
            == Some(0i32),
        exit_code != Some(0i32) && exit_code != Some(126i32) && exit_code != Some(127i32) ==> (
        version_check_step(exit_code, stdout, stderr, client_version) matches BinaryStepView::Done {
            result: Err(RemoteErrorView::Other { message }),
        } && stderr.is_suffix_of(message)),
        version_check_step(exit_code, stdout, stderr, client_version) matches
            BinaryStepView::CheckProtocol { status } ==> !(status is Missing),
{
    match version_check_step(exit_code, stdout, stderr, client_version) {
        BinaryStepView::Done { result: Err(RemoteErrorView::Other { message }) } => {
            assert(message.subrange(message.len() - stderr.len(), message.len() as int)
                =~= stderr);
        },
        _ => {},
    }
}

/// An installed server fits exactly where it has the version of this app, or where neither has one;
/// otherwise it is to be updated, and the version that it has is told.
pub proof fn law_version_fits(expected: Option<Seq<char>>, found: Option<Seq<char>>)
    ensures
        version_verdict(expected, found) is Installed <==> expected == found,
        expected != found ==> (version_verdict(expected, found) matches CheckView::UpdateRequired {
            reason,
            installed_version,
        } && installed_version == found && match expected {
            None => reason is MissingClientVersion,
            Some(wanted) => match found {
                None => reason == (ReasonView::MissingVersion { expected: wanted }),
                Some(other) => reason == (ReasonView::VersionMismatch {
                    expected: wanted,
                    found: other,
                }),
            },
        }),
{
}

/// Of several lines the last that names a version counts, and no line that names none does.
pub proof fn law_last_version_counts(a: Seq<Seq<char>>, b: Seq<Seq<char>>, line: Seq<char>)
    ensures
        version_in(a + b) == (if version_in(b) is Some {
            version_in(b)
        } else {
            version_in(a)
        }),
        version_in(seq![line]) == version_among(words(line)),
        version_in(Seq::empty()) is None,
    decreases b.len(),
{
    reveal_with_fuel(version_in, 2);
    assert(seq![line].drop_last() =~= Seq::empty());
    if b.len() == 0 {
        assert(a + b =~= a);
    } else {
        law_last_version_counts(a, b.drop_last(), line);
        assert((a + b).drop_last() =~= a + b.drop_last());
        assert((a + b).last() == b.last());
    }
}

/// Of several words the first that is a version counts, without the marks around it; a word is a
/// version where it is the letter `v` and a digit.
pub proof fn law_first_version_counts(a: Seq<Seq<char>>, b: Seq<Seq<char>>, word: Seq<char>)
    ensures
        version_among(a + b) == (if version_among(a) is Some {
            version_among(a)
        } else {
            version_among(b)
        }),
        version_among(Seq::empty()) is None,
        word.len() >= 2 && word[0] == 'v' && '0' <= word[1] <= '9' && !is_mark(word.last())
            ==> version_among(seq![word]) == Some(word),
        version_among(a) matches Some(version) ==> version.len() >= 2 && version[0] == 'v' && '0'
            <= version[1] <= '9',
        (forall|i: int| 0 <= i < word.len() ==> #[trigger] word[i] != 'v') ==> version_among(
            seq![word],
        ) is None,
    decreases a.len(),
{
    reveal_with_fuel(version_among, 2);
    assert(seq![word].skip(1) =~= Seq::empty());
    lemma_unmarked(word);
    if a.len() == 0 {
        assert(a + b =~= b);
    } else {
        law_first_version_counts(a.skip(1), b, word);
        assert((a + b).skip(1) =~= a.skip(1) + b);
        assert((a + b)[0] == a[0]);
    }
    if forall|i: int| 0 <= i < word.len() ==> #[trigger] word[i] != 'v' {
        let core = unmark_end(unmark_start(word));
        if core.len() > 0 {
            let k = choose|k: int| 0 <= k < word.len() && word[k] == core[0];
            assert(word[k] != 'v');
        }
    }
}

proof fn lemma_unmarked(s: Seq<char>)
    ensures
        s.len() > 0 && !is_mark(s[0]) && !is_mark(s.last()) ==> unmark_end(unmark_start(s)) == s,
        unmark_end(unmark_start(s)).len() > 0 ==> exists|k: int|
            0 <= k < s.len() && s[k] == unmark_end(unmark_start(s))[0],
    decreases s.len(),
{
    if s.len() > 0 && is_mark(s[0]) {
        lemma_unmarked(s.skip(1));
        let core = unmark_end(unmark_start(s));
        if core.len() > 0 {
            let k = choose|k: int| 0 <= k < s.skip(1).len() && s.skip(1)[k] == core[0];
            assert(s[k + 1] == core[0]);
        }
    } else {
        lemma_unmark_end(s);
        let core = unmark_end(s);
        if core.len() > 0 {
            assert(s[0] == core[0]);
        }
    }
}

proof fn lemma_unmark_end(s: Seq<char>)
    ensures
        unmark_end(s).len() <= s.len(),
        unmark_end(s) == s.take(unmark_end(s).len() as int),
    decreases s.len(),
{
    if s.len() > 0 && is_mark(s.last()) {
        lemma_unmark_end(s.drop_last());
        assert(s.drop_last().take(unmark_end(s).len() as int) =~= s.take(
            unmark_end(s).len() as int,
        ));
    } else {
        assert(s.take(s.len() as int) =~= s);
    }
}

/// Of several lines the last that names a protocol counts, without the space around it.
pub proof fn law_last_protocol_counts(a: Seq<Seq<char>>, b: Seq<Seq<char>>, line: Seq<char>)
    ensures
        protocol_in(a + b) == (if protocol_in(b) is Some {
            protocol_in(b)
        } else {
            protocol_in(a)
        }),
        protocol_in(Seq::empty()) is None,
        "remote-server-protocol-"@.is_prefix_of(trim(line)) ==> protocol_in(seq![line]) == Some(
            trim(line),
        ),
        !"remote-server-protocol-"@.is_prefix_of(trim(line)) ==> protocol_in(seq![line]) is None,
    decreases b.len(),
{
    reveal_with_fuel(protocol_in, 2);
    assert(seq![line].drop_last() =~= Seq::empty());
    if b.len() == 0 {
        assert(a + b =~= a);
    } else {
        law_last_protocol_counts(a, b.drop_last(), line);
        assert((a + b).drop_last() =~= a + b.drop_last());
        assert((a + b).last() == b.last());
    }
}

/// A server speaks the protocol of this app only where its command succeeded and the protocol that
/// it names is that one; otherwise what it names is told.
pub proof fn law_protocol_fits(exit_code: Option<i32>, stdout: Seq<char>)
    ensures
        protocol_verdict(exit_code, stdout) is Ok <==> exit_code == Some(0i32) && protocol_in(
            lines(stdout),
        ) == Some("remote-server-protocol-2026-06-session-scoped-envelope"@),
        protocol_verdict(exit_code, stdout) matches Err(reason) ==> reason == (
        ReasonView::ProtocolMismatch {
            expected: "remote-server-protocol-2026-06-session-scoped-envelope"@,
            found: protocol_in(lines(stdout)),
        }),
{
}

/// Where the protocol fits, what the version says stands. Where it does not, the server is refused,
/// unless this app has a version and the server another or none: then it is updated.
pub proof fn law_both_checks(
    status: CheckView,
    protocol: Result<(), ReasonView>,
    has_client_version: bool,
)
    ensures
        protocol is Ok ==> combined_verdict(status, protocol, has_client_version) == Ok::<
            CheckView,
            RemoteErrorView,
        >(status),
        protocol matches Err(reason) ==> (combined_verdict(status, protocol, has_client_version)
            == Err::<CheckView, RemoteErrorView>(RemoteErrorView::IncompatibleBinary { reason })
            <==> !(has_client_version && (status matches CheckView::UpdateRequired {
            reason: version,
            ..
        } && (version is VersionMismatch || version is MissingVersion)))),
        combined_verdict(status, protocol, has_client_version) matches Ok(kept) ==> kept == status,
{
}

/// A server that was just installed is used exactly where it fits or this app has no version of its
/// own; every other finding refuses it, and a failed check keeps its error.
pub proof fn law_fresh_server(check: Result<CheckView, RemoteErrorView>)
    ensures
        install_verdict(check) is Ok <==> check == Ok::<CheckView, RemoteErrorView>(
            CheckView::Installed,
        ) || (check matches Ok(CheckView::UpdateRequired { reason, .. }) && reason
            is MissingClientVersion),
        check matches Err(error) ==> install_verdict(check) == Err::<(), RemoteErrorView>(error),
        check matches Ok(CheckView::UpdateRequired { reason, .. }) ==> (!(reason
            is MissingClientVersion) ==> install_verdict(check) == Err::<(), RemoteErrorView>(
            RemoteErrorView::IncompatibleBinary { reason },
        )),
{
}

/// An older installation is there exactly where the command that looks for one succeeds, and not
/// there exactly where it ends with one; any other end tells nothing.
pub proof fn law_old_installation(exit_code: Option<i32>, stderr: Seq<char>)
    ensures
        old_binary_verdict(exit_code, stderr) == Ok::<bool, Seq<char>>(true) <==> exit_code == Some(
            0i32,
        ),
        old_binary_verdict(exit_code, stderr) == Ok::<bool, Seq<char>>(false) <==> exit_code
            == Some(1i32),
        exit_code is Some && old_binary_verdict(exit_code, stderr) is Err ==> stderr.is_suffix_of(
            old_binary_verdict(exit_code, stderr)->Err_0,
        ),
{
    if let Err(message) = old_binary_verdict(exit_code, stderr) {
        if exit_code is Some {
            assert(message.subrange(message.len() - stderr.len(), message.len() as int)
                =~= stderr);
        }
    }
}

/// The daemons of an identity are looked for below every directory in which a server may be.
pub proof fn law_daemons_everywhere(identity_dir: Seq<char>, i: int)
    requires
        0 <= i < install_dirs().len(),
    ensures
        daemon_dirs(install_dirs(), identity_dir).len() == install_dirs().len(),
        daemon_dirs(install_dirs(), identity_dir)[i] == install_dirs()[i] + "/"@ + identity_dir,
        install_dirs().len() == 5,
        install_dirs().contains("~/.slipstream/remote-server"@),
        install_dirs().contains("~/.warp/remote-server"@),
        install_dirs().contains("~/.warp-preview/remote-server"@),
        install_dirs().contains("~/.warp-dev/remote-server"@),
        install_dirs().contains("~/.warp-local/remote-server"@),
{
    let dirs = install_dirs();
    assert(dirs[0] == "~/.warp/remote-server"@);
    assert(dirs[1] == "~/.warp-preview/remote-server"@);
    assert(dirs[2] == "~/.warp-dev/remote-server"@);
    assert(dirs[3] == "~/.warp-local/remote-server"@);
    assert(dirs[4] == "~/.slipstream/remote-server"@);
}

} // verus!
