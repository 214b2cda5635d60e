//! Laws of what is known of the servers that configuration files name.
use crate::mcp::registry::{
    FileBasedMCPServerType, InstallView, MCPProvider, McpEnvironment, RefView, RegistryView,
    ScanView, config_at, difference, has_ref, has_source, hashes_of, ids_of, is_global_ref,
    is_referenced, is_warp_ref, of_source, orphans_removed, scanned, server_named, server_type,
    server_with, servers_to_start, starts_by_itself, third_party_servers, with_config, with_pending,
    with_ref, without_config, without_id, without_pending, without_refs, without_server,
};
use crate::path::{PathStyle, components};
use vstd::prelude::*;

verus! {

/// The servers have hashes, each its own.
pub open spec fn servers_apart(servers: Seq<InstallView>) -> bool {
    &&& forall|i: int| 0 <= i < servers.len() ==> (#[trigger] servers[i]).hash is Some
    &&& forall|i: int, j: int|
        0 <= i < j < servers.len() ==> (#[trigger] servers[i]).hash != (#[trigger] servers[j]).hash
}

/// Every source names known servers.
pub open spec fn names_known(servers: Seq<InstallView>, refs: Seq<RefView>) -> bool {
    forall|i: int|
        0 <= i < refs.len() ==> server_with(servers, (#[trigger] refs[i]).hash) is Some
}

/// Every server is named by some source.
pub open spec fn all_named(servers: Seq<InstallView>, refs: Seq<RefView>) -> bool {
    forall|i: int|
        0 <= i < servers.len() && (#[trigger] servers[i]).hash is Some ==> is_referenced(
            refs,
            servers[i].hash->0,
        )
}

/// What is known fits together: a server is known exactly as long as some source names it.
pub open spec fn is_consistent(registry: RegistryView) -> bool {
    &&& servers_apart(registry.servers)
    &&& names_known(registry.servers, registry.refs)
    &&& all_named(registry.servers, registry.refs)
}

proof fn lemma_server_with(servers: Seq<InstallView>, hash: u64)
    ensures
        server_with(servers, hash) is Some <==> exists|i: int|
            0 <= i < servers.len() && (#[trigger] servers[i]).hash == Some(hash),
        server_with(servers, hash) matches Some(server) ==> server.hash == Some(hash),
    decreases servers.len(),
{
    if servers.len() > 0 {
        let rest = servers.skip(1);
        lemma_server_with(rest, hash);
        if servers[0].hash != Some(hash) {
            if exists|i: int| 0 <= i < servers.len() && (#[trigger] servers[i]).hash == Some(hash) {
                let i = choose|i: int|
                    0 <= i < servers.len() && (#[trigger] servers[i]).hash == Some(hash);
                assert(rest[i - 1] == servers[i]);
            }
            if exists|i: int| 0 <= i < rest.len() && (#[trigger] rest[i]).hash == Some(hash) {
                let i = choose|i: int|
                    0 <= i < rest.len() && (#[trigger] rest[i]).hash == Some(hash);
                assert(servers[i + 1] == rest[i]);
            }
        }
    }
}

proof fn lemma_push_server(servers: Seq<InstallView>, refs: Seq<RefView>, new: InstallView)
    requires
        servers_apart(servers),
        new.hash is Some,
        server_with(servers, new.hash->0) is None,
    ensures
        servers_apart(servers.push(new)),
        names_known(servers, refs) ==> names_known(servers.push(new), refs),
        server_with(servers.push(new), new.hash->0) is Some,
{
    let all = servers.push(new);
    lemma_server_with(servers, new.hash->0);
    lemma_server_with(all, new.hash->0);
    assert(all[servers.len() as int] == new);
    assert forall|i: int, j: int| 0 <= i < j < all.len() implies (#[trigger] all[i]).hash != (
    #[trigger] all[j]).hash by {
        assert(all[i] == servers[i]);
        if j < servers.len() {
            assert(all[j] == servers[j]);
        }
    }
    assert forall|i: int| 0 <= i < all.len() implies (#[trigger] all[i]).hash is Some by {
        if i < servers.len() {
            assert(all[i] == servers[i]);
        }
    }
    if names_known(servers, refs) {
        assert forall|i: int| 0 <= i < refs.len() implies server_with(
            all,
            (#[trigger] refs[i]).hash,
        ) is Some by {
            lemma_server_with(servers, refs[i].hash);
            lemma_server_with(all, refs[i].hash);
            let k = choose|k: int|
                0 <= k < servers.len() && (#[trigger] servers[k]).hash == Some(refs[i].hash);
            assert(all[k] == servers[k]);
        }
    }
}

proof fn lemma_with_ref(style: PathStyle, refs: Seq<RefView>, r: RefView)
    ensures
        is_referenced(with_ref(style, refs, r), r.hash),
        has_ref(style, with_ref(style, refs, r), r.root, r.provider, r.hash),
        forall|h: u64| is_referenced(refs, h) ==> #[trigger] is_referenced(
            with_ref(style, refs, r),
            h,
        ),
        forall|i: int|
            0 <= i < with_ref(style, refs, r).len() ==> (
                #[trigger] with_ref(style, refs, r)[i]
            ) == r || (i
                < refs.len() && with_ref(style, refs, r)[i] == refs[i]),
{
    let all = with_ref(style, refs, r);
    if has_ref(style, refs, r.root, r.provider, r.hash) {
        let i = choose|i: int|
            0 <= i < refs.len() && of_source(style, #[trigger] refs[i], r.root, r.provider)
                && refs[i].hash == r.hash;
        assert(all[i].hash == r.hash);
    } else {
        assert(all[refs.len() as int] == r);
        assert(of_source(style, all[refs.len() as int], r.root, r.provider));
        assert forall|h: u64| is_referenced(refs, h) implies #[trigger] is_referenced(all, h) by {
            let i = choose|i: int| 0 <= i < refs.len() && (#[trigger] refs[i]).hash == h;
            assert(all[i].hash == h);
        }
    }
}

proof fn lemma_named_with_ref(
    style: PathStyle,
    servers: Seq<InstallView>,
    refs: Seq<RefView>,
    r: RefView,
)
    requires
        names_known(servers, refs),
        server_with(servers, r.hash) is Some,
    ensures
        names_known(servers, with_ref(style, refs, r)),
        all_named(servers, refs) ==> all_named(servers, with_ref(style, refs, r)),
{
    let all = with_ref(style, refs, r);
    lemma_with_ref(style, refs, r);
    assert forall|i: int| 0 <= i < all.len() implies server_with(
        servers,
        (#[trigger] all[i]).hash,
    ) is Some by {
        if all[i] != r {
            assert(all[i] == refs[i]);
        }
    }
}

proof fn lemma_scan_consistent(
    style: PathStyle,
    start: ScanView,
    root: Seq<char>,
    provider: MCPProvider,
    parsed: Seq<Option<InstallView>>,
)
    requires
        servers_apart(start.servers),
        names_known(start.servers, start.refs),
        all_named(start.servers, start.refs),
    ensures
        ({
            let end = scanned(style, start, root, provider, parsed);
            servers_apart(end.servers) && names_known(end.servers, end.refs) && all_named(
                end.servers,
                end.refs,
            )
        }),
    decreases parsed.len(),
{
    if parsed.len() > 0 {
        lemma_scan_consistent(style, start, root, provider, parsed.drop_last());
        let before = scanned(style, start, root, provider, parsed.drop_last());
        if let Some(installation) = parsed.last() {
            if let Some(hash) = installation.hash {
                let r = RefView { root, provider, hash };
                lemma_with_ref(style, before.refs, r);
                if server_with(before.servers, hash) is None {
                    lemma_push_server(before.servers, before.refs, installation);
                    let servers = before.servers.push(installation);
                    lemma_named_with_ref(style, servers, before.refs, r);
                    let refs = with_ref(style, before.refs, r);
                    assert forall|i: int|
                        0 <= i < servers.len() && (
                        #[trigger] servers[i]).hash is Some implies is_referenced(
                        refs,
                        servers[i].hash->0,
                    ) by {
                        if i < before.servers.len() {
                            assert(servers[i] == before.servers[i]);
                        }
                    }
                } else {
                    lemma_named_with_ref(style, before.servers, before.refs, r);
                }
            }
        }
    }
}

proof fn lemma_without_refs(
    style: PathStyle,
    refs: Seq<RefView>,
    root: Seq<char>,
    provider: MCPProvider,
    hashes: Seq<u64>,
    other: RefView,
)
    ensures
        without_refs(
            style,
            refs,
            root,
            provider,
            hashes,
        ).contains(other) <==> refs.contains(other) && !(
        of_source(style, other, root, provider) && hashes.contains(other.hash)),
    decreases refs.len(),
{
    if refs.len() > 0 {
        let front = refs.drop_last();
        lemma_without_refs(style, front, root, provider, hashes, other);
        let before = without_refs(style, front, root, provider, hashes);
        let r = without_refs(style, refs, root, provider, hashes);
        let last = refs.last();
        assert(refs.contains(last));
        if before.contains(other) {
            let i = choose|i: int| 0 <= i < before.len() && before[i] == other;
            assert(r[i] == other);
        }
        if front.contains(other) {
            let i = choose|i: int| 0 <= i < front.len() && front[i] == other;
            assert(refs[i] == other);
        }
        if refs.contains(other) && !front.contains(other) {
            let i = choose|i: int| 0 <= i < refs.len() && refs[i] == other;
            if i < front.len() {
                assert(front[i] == other);
            }
            assert(last == other);
        }
        if !(of_source(style, last, root, provider) && hashes.contains(last.hash)) {
            assert(r.last() == last);
            assert(r.contains(last));
            if r.contains(other) && !before.contains(other) {
                let i = choose|i: int| 0 <= i < r.len() && r[i] == other;
                if i < before.len() {
                    assert(before[i] == other);
                }
            }
        }
    }
}

proof fn lemma_without_server(servers: Seq<InstallView>, hash: u64)
    requires
        servers_apart(servers),
    ensures
        servers_apart(without_server(servers, hash)),
        forall|s: InstallView|
            #[trigger] without_server(servers, hash).contains(s) <==> servers.contains(s) && s.hash
                != Some(hash),
    decreases servers.len(),
{
    if servers.len() > 0 {
        let front = servers.drop_last();
        let last = servers.last();
        assert(servers_apart(front)) by {
            assert forall|i: int, j: int| 0 <= i < j < front.len() implies (
            #[trigger] front[i]).hash != (#[trigger] front[j]).hash by {
                assert(front[i] == servers[i] && front[j] == servers[j]);
            }
        }
        lemma_without_server(front, hash);
        let before = without_server(front, hash);
        let r = without_server(servers, hash);
        assert forall|s: InstallView| #[trigger] r.contains(s) <==> servers.contains(s) && s.hash
            != Some(hash) by {
            if before.contains(s) {
                let i = choose|i: int| 0 <= i < before.len() && before[i] == s;
                assert(r[i] == s);
            }
            if front.contains(s) {
                let i = choose|i: int| 0 <= i < front.len() && front[i] == s;
                assert(servers[i] == s);
            }
            if servers.contains(s) && !front.contains(s) {
                let i = choose|i: int| 0 <= i < servers.len() && servers[i] == s;
                if i < front.len() {
                    assert(front[i] == s);
                }
                assert(last == s);
            }
            assert(servers.contains(last));
            if last.hash != Some(hash) {
                assert(r.last() == last);
                assert(r.contains(last));
                if r.contains(s) && !before.contains(s) {
                    let i = choose|i: int| 0 <= i < r.len() && r[i] == s;
                    if i < before.len() {
                        assert(before[i] == s);
                    }
                }
            }
        }
        if last.hash != Some(hash) {
            assert forall|i: int, j: int| 0 <= i < j < r.len() implies (#[trigger] r[i]).hash != (
            #[trigger] r[j]).hash by {
                assert(r[i] == before[i]);
                if j < before.len() {
                    assert(r[j] == before[j]);
                } else {
                    assert(before.contains(before[i]));
                    let k = choose|k: int| 0 <= k < front.len() && front[k] == before[i];
                    assert(servers[k] == before[i]);
                    assert(servers[servers.len() - 1] == last);
                }
            }
            assert forall|i: int| 0 <= i < r.len() implies (#[trigger] r[i]).hash is Some by {
                if i < before.len() {
                    assert(r[i] == before[i]);
                }
            }
        }
    }
}

proof fn lemma_orphans_removed(servers: Seq<InstallView>, refs: Seq<RefView>, hashes: Seq<u64>)
    requires
        servers_apart(servers),
        names_known(servers, refs),
    ensures
        ({
            let kept = orphans_removed(servers, refs, hashes).0;
            &&& servers_apart(kept)
            &&& names_known(kept, refs)
            &&& forall|s: InstallView| #[trigger] kept.contains(s) ==> servers.contains(s)
            &&& forall|s: InstallView|
                servers.contains(s) && is_referenced(
                    refs,
                    s.hash->0,
                ) ==> #[trigger] kept.contains(s)
            &&& forall|s: InstallView|
                #[trigger] kept.contains(s) && hashes.contains(s.hash->0) ==> is_referenced(
                    refs,
                    s.hash->0,
                )
        }),
    decreases hashes.len(),
{
    if hashes.len() > 0 {
        let front = hashes.drop_last();
        lemma_orphans_removed(servers, refs, front);
        let (before, removed) = orphans_removed(servers, refs, front);
        let hash = hashes.last();
        let kept = orphans_removed(servers, refs, hashes).0;
        lemma_server_with(before, hash);
        lemma_without_server(before, hash);
        if server_with(before, hash) is Some && !is_referenced(refs, hash) {
            assert forall|i: int| 0 <= i < refs.len() implies server_with(
                kept,
                (#[trigger] refs[i]).hash,
            ) is Some by {
                lemma_server_with(before, refs[i].hash);
                lemma_server_with(kept, refs[i].hash);
                let k = choose|k: int|
                    0 <= k < before.len() && (#[trigger] before[k]).hash == Some(refs[i].hash);
                assert(before.contains(before[k]));
                assert(kept.contains(before[k]));
                let m = choose|m: int| 0 <= m < kept.len() && kept[m] == before[k];
                assert(kept[m].hash == Some(refs[i].hash));
            }
        }
        assert forall|s: InstallView|
            #[trigger] kept.contains(s) && hashes.contains(s.hash->0) implies is_referenced(
            refs,
            s.hash->0,
        ) by {
            assert(before.contains(s));
            let i = choose|i: int| 0 <= i < hashes.len() && hashes[i] == s.hash->0;
            if i < front.len() {
                assert(front[i] == s.hash->0);
                assert(front.contains(s.hash->0));
            } else {
                assert(s.hash->0 == hash);
                let k = choose|k: int| 0 <= k < kept.len() && kept[k] == s;
                assert(kept[k].hash is Some);
                let b = choose|b: int| 0 <= b < before.len() && before[b] == s;
                assert(before[b].hash == Some(hash));
            }
        }
    }
}

proof fn lemma_forget(registry: RegistryView, hashes: Seq<u64>)
    requires
        servers_apart(registry.servers),
        names_known(registry.servers, registry.refs),
        forall|i: int|
            0 <= i < registry.servers.len() ==> is_referenced(
                registry.refs,
                (#[trigger] registry.servers[i]).hash->0,
            ) || hashes.contains(registry.servers[i].hash->0),
    ensures
        is_consistent(registry.orphans_forgotten(hashes).0),
        registry.orphans_forgotten(hashes).0.refs == registry.refs,
{
    lemma_orphans_removed(registry.servers, registry.refs, hashes);
    let kept = orphans_removed(registry.servers, registry.refs, hashes).0;
    assert forall|i: int|
        0 <= i < kept.len() && (#[trigger] kept[i]).hash is Some implies is_referenced(
        registry.refs,
        kept[i].hash->0,
    ) by {
        assert(kept.contains(kept[i]));
        let k = choose|k: int|
            0 <= k < registry.servers.len() && registry.servers[k] == kept[i];
        assert(is_referenced(registry.refs, registry.servers[k].hash->0) || hashes.contains(
            registry.servers[k].hash->0,
        ));
    }
}

/// A fresh manager knows of nothing, and that fits together.
pub proof fn law_fresh_is_consistent(path_style: PathStyle, activated: Seq<u128>)
    ensures
        is_consistent(
            RegistryView {
                servers: Seq::empty(),
                refs: Seq::empty(),
                config_paths: Seq::empty(),
                pending: Seq::empty(),
                activated,
                path_style,
            },
        ),
{
}

proof fn lemma_dropped_refs(
    style: PathStyle,
    servers: Seq<InstallView>,
    refs: Seq<RefView>,
    root: Seq<char>,
    provider: MCPProvider,
    hashes: Seq<u64>,
)
    requires
        servers_apart(servers),
        names_known(servers, refs),
        all_named(servers, refs),
    ensures
        names_known(servers, without_refs(style, refs, root, provider, hashes)),
        forall|i: int|
            0 <= i < servers.len() ==> is_referenced(
                without_refs(style, refs, root, provider, hashes),
                (#[trigger] servers[i]).hash->0,
            ) || hashes.contains(servers[i].hash->0),
{
    let left = without_refs(style, refs, root, provider, hashes);
    assert forall|i: int| 0 <= i < left.len() implies server_with(
        servers,
        (#[trigger] left[i]).hash,
    ) is Some by {
        assert(left.contains(left[i]));
        lemma_without_refs(style, refs, root, provider, hashes, left[i]);
        let k = choose|k: int| 0 <= k < refs.len() && refs[k] == left[i];
        assert(server_with(servers, refs[k].hash) is Some);
    }
    assert forall|i: int| 0 <= i < servers.len() implies is_referenced(
        left,
        (#[trigger] servers[i]).hash->0,
    ) || hashes.contains(servers[i].hash->0) by {
        let hash = servers[i].hash->0;
        assert(is_referenced(refs, hash));
        let k = choose|k: int| 0 <= k < refs.len() && (#[trigger] refs[k]).hash == hash;
        assert(refs.contains(refs[k]));
        lemma_without_refs(style, refs, root, provider, hashes, refs[k]);
        if !hashes.contains(hash) {
            let m = choose|m: int| 0 <= m < left.len() && left[m] == refs[k];
            assert(left[m].hash == hash);
        }
    }
}

/// After a configuration was read, what is known fits together: servers that no source names any
/// more are gone, and every server that a source names is known.
pub proof fn law_reading_keeps_consistent(
    registry: RegistryView,
    env: McpEnvironment,
    enabled: bool,
    root: Seq<char>,
    provider: MCPProvider,
    config_path: Seq<char>,
    parsed: Seq<Option<InstallView>>,
)
    requires
        is_consistent(registry),
    ensures
        is_consistent(
            registry.config_read(env, enabled, root, provider, config_path, parsed).0,
        ),
{
    let start = ScanView {
        servers: registry.servers,
        refs: registry.refs,
        fresh: Seq::empty(),
        scanned: Seq::empty(),
    };
    let scan = scanned(registry.path_style, start, root, provider, parsed);
    lemma_scan_consistent(registry.path_style, start, root, provider, parsed);
    let gone = difference(
        hashes_of(registry.path_style, registry.refs, root, provider),
        scan.scanned,
    );
    lemma_dropped_refs(registry.path_style, scan.servers, scan.refs, root, provider, gone);
    let refs = without_refs(registry.path_style, scan.refs, root, provider, gone);
    let paths = with_config(
        registry.path_style,
        registry.config_paths,
        root,
        provider,
        config_path,
    );
    let started = servers_to_start(
        registry.path_style,
        env,
        scan.refs,
        registry.activated,
        enabled,
        scan.fresh,
    );
    lemma_forget(
        RegistryView {
            servers: scan.servers,
            refs,
            config_paths: if has_source(registry.path_style, refs, root, provider) {
                paths
            } else {
                without_config(registry.path_style, paths, root, provider)
            },
            pending: with_pending(
                without_pending(registry.path_style, registry.pending, root, provider),
                root,
                provider,
                ids_of(started),
            ),
            activated: registry.activated,
            path_style: registry.path_style,
        },
        gone,
    );
}

/// After a configuration was removed, what is known fits together.
pub proof fn law_removal_keeps_consistent(
    registry: RegistryView,
    root: Seq<char>,
    provider: MCPProvider,
    config_path: Seq<char>,
)
    requires
        is_consistent(registry),
    ensures
        is_consistent(registry.config_gone(root, provider, config_path).0),
{
    let hashes = hashes_of(registry.path_style, registry.refs, root, provider);
    lemma_dropped_refs(
        registry.path_style,
        registry.servers,
        registry.refs,
        root,
        provider,
        hashes,
    );
    let stored = config_at(registry.path_style, registry.config_paths, root, provider);
    lemma_forget(
        RegistryView {
            refs: without_refs(registry.path_style, registry.refs, root, provider, hashes),
            config_paths: if stored is Some && components(
                registry.path_style,
                stored->0,
            ) == components(registry.path_style, config_path) {
                without_config(registry.path_style, registry.config_paths, root, provider)
            } else {
                registry.config_paths
            },
            ..registry
        },
        hashes,
    );
}

/// After a server was copied to the terminal's own configuration, what is known fits together, and
/// that configuration names it.
pub proof fn law_copy_keeps_consistent(
    registry: RegistryView,
    root: Seq<char>,
    config_path: Seq<char>,
    installation: InstallView,
)
    requires
        is_consistent(registry),
    ensures
        is_consistent(registry.copied(root, config_path, installation)),
        installation.hash matches Some(hash) ==> has_ref(
            registry.path_style,
            registry.copied(root, config_path, installation).refs,
            root,
            MCPProvider::Warp,
            hash,
        ),
{
    if let Some(hash) = installation.hash {
        let r = RefView { root, provider: MCPProvider::Warp, hash };
        lemma_with_ref(registry.path_style, registry.refs, r);
        if server_with(registry.servers, hash) is None {
            lemma_push_server(registry.servers, registry.refs, installation);
            let servers = registry.servers.push(installation);
            lemma_named_with_ref(registry.path_style, servers, registry.refs, r);
            let refs = with_ref(registry.path_style, registry.refs, r);
            assert forall|i: int|
                0 <= i < servers.len() && (
                #[trigger] servers[i]).hash is Some implies is_referenced(
                refs,
                servers[i].hash->0,
            ) by {
                if i < registry.servers.len() {
                    assert(servers[i] == registry.servers[i]);
                }
            }
        } else {
            lemma_named_with_ref(registry.path_style, registry.servers, registry.refs, r);
        }
    }
}

proof fn lemma_hashes_of(
    style: PathStyle,
    refs: Seq<RefView>,
    root: Seq<char>,
    provider: MCPProvider,
    hash: u64,
)
    ensures
        hashes_of(style, refs, root, provider).contains(hash) <==> has_ref(
            style,
            refs,
            root,
            provider,
            hash,
        ),
    decreases refs.len(),
{
    if refs.len() > 0 {
        let front = refs.drop_last();
        lemma_hashes_of(style, front, root, provider, hash);
        let before = hashes_of(style, front, root, provider);
        let r = hashes_of(style, refs, root, provider);
        let last = refs.last();
        if before.contains(hash) {
            let i = choose|i: int| 0 <= i < before.len() && before[i] == hash;
            assert(r[i] == hash);
        }
        if has_ref(style, front, root, provider, hash) {
            let i = choose|i: int|
                0 <= i < front.len() && of_source(style, #[trigger] front[i], root, provider)
                    && front[i].hash == hash;
            assert(of_source(style, refs[i], root, provider) && refs[i].hash == hash);
        }
        if has_ref(style, refs, root, provider, hash) && !has_ref(
            style,
            front,
            root,
            provider,
            hash,
        ) {
            let i = choose|i: int|
                0 <= i < refs.len() && of_source(style, #[trigger] refs[i], root, provider)
                    && refs[i].hash == hash;
            if i < front.len() {
                assert(of_source(style, front[i], root, provider) && front[i].hash == hash);
            }
            assert(last.hash == hash && of_source(style, last, root, provider));
            assert(r.last() == hash);
        }
        if of_source(style, last, root, provider) {
            assert(r.last() == last.hash);
            assert(of_source(style, refs[refs.len() - 1], root, provider));
            if r.contains(hash) && !before.contains(hash) {
                let i = choose|i: int| 0 <= i < r.len() && r[i] == hash;
                if i < before.len() {
                    assert(before[i] == hash);
                }
            }
        }
    }
}

proof fn lemma_difference(a: Seq<u64>, b: Seq<u64>, hash: u64)
    ensures
        difference(a, b).contains(hash) <==> a.contains(hash) && !b.contains(hash),
    decreases a.len(),
{
    if a.len() > 0 {
        let front = a.drop_last();
        lemma_difference(front, b, hash);
        let before = difference(front, b);
        let r = difference(a, b);
        if before.contains(hash) {
            let i = choose|i: int| 0 <= i < before.len() && before[i] == hash;
            assert(r[i] == hash);
        }
        if front.contains(hash) {
            let i = choose|i: int| 0 <= i < front.len() && front[i] == hash;
            assert(a[i] == hash);
        }
        if a.contains(hash) && !front.contains(hash) {
            let i = choose|i: int| 0 <= i < a.len() && a[i] == hash;
            if i < front.len() {
                assert(front[i] == hash);
            }
        }
        assert(a.contains(a.last()));
        if !b.contains(a.last()) {
            assert(r.last() == a.last());
            if r.contains(hash) && !before.contains(hash) {
                let i = choose|i: int| 0 <= i < r.len() && r[i] == hash;
                if i < before.len() {
                    assert(before[i] == hash);
                }
            }
        }
    }
}

/// The hashes that a configuration names.
pub open spec fn parsed_hashes(parsed: Seq<Option<InstallView>>) -> Set<u64> {
    Set::new(
        |hash: u64|
            exists|i: int|
                0 <= i < parsed.len() && (#[trigger] parsed[i]) is Some && parsed[i]->0.hash
                    == Some(hash),
    )
}

proof fn lemma_scan(
    style: PathStyle,
    start: ScanView,
    root: Seq<char>,
    provider: MCPProvider,
    parsed: Seq<Option<InstallView>>,
    other_root: Seq<char>,
    other_provider: MCPProvider,
    hash: u64,
)
    ensures
        ({
            let end = scanned(style, start, root, provider, parsed);
            &&& end.scanned.contains(hash) <==> start.scanned.contains(hash) || parsed_hashes(
                parsed,
            ).contains(hash)
            &&& has_ref(style, end.refs, other_root, other_provider, hash) <==> has_ref(
                style,
                start.refs,
                other_root,
                other_provider,
                hash,
            ) || (components(
                style,
                other_root,
            ) == components(style, root) && other_provider == provider
                && parsed_hashes(parsed).contains(hash))
        }),
    decreases parsed.len(),
{
    if parsed.len() > 0 {
        let front = parsed.drop_last();
        lemma_scan(style, start, root, provider, front, other_root, other_provider, hash);
        let before = scanned(style, start, root, provider, front);
        let end = scanned(style, start, root, provider, parsed);
        let last = parsed.last();
        assert(parsed_hashes(parsed).contains(hash) <==> parsed_hashes(front).contains(hash) || (
        last is Some && last->0.hash == Some(hash))) by {
            if parsed_hashes(front).contains(hash) {
                let i = choose|i: int|
                    0 <= i < front.len() && (#[trigger] front[i]) is Some && front[i]->0.hash
                        == Some(hash);
                assert(parsed[i] is Some && parsed[i]->0.hash == Some(hash));
            }
            if parsed_hashes(parsed).contains(hash) {
                let i = choose|i: int|
                    0 <= i < parsed.len() && (#[trigger] parsed[i]) is Some && parsed[i]->0.hash
                        == Some(hash);
                if i < front.len() {
                    assert(front[i] is Some && front[i]->0.hash == Some(hash));
                }
            }
            if last is Some && last->0.hash == Some(hash) {
                assert(parsed[parsed.len() - 1] is Some);
            }
        }
        if let Some(installation) = last {
            if let Some(found) = installation.hash {
                let r = RefView { root, provider, hash: found };
                assert(end.scanned == before.scanned.push(found));
                if before.scanned.contains(hash) {
                    let i = choose|i: int|
                        0 <= i < before.scanned.len() && before.scanned[i] == hash;
                    assert(end.scanned[i] == hash);
                }
                if found == hash {
                    assert(end.scanned.last() == hash);
                }
                if end.scanned.contains(hash) && found != hash {
                    let i = choose|i: int| 0 <= i < end.scanned.len() && end.scanned[i] == hash;
                    assert(before.scanned[i] == hash);
                }
                lemma_with_ref(style, before.refs, r);
                assert(end.refs == with_ref(style, before.refs, r));
                if has_ref(style, end.refs, other_root, other_provider, hash) {
                    let i = choose|i: int|
                        0 <= i < end.refs.len() && of_source(
                            style,
                            #[trigger] end.refs[i],
                            other_root,
                            other_provider,
                        ) && end.refs[i].hash == hash;
                    if end.refs[i] != r {
                        assert(of_source(style, before.refs[i], other_root, other_provider));
                    }
                }
                if has_ref(style, before.refs, other_root, other_provider, hash) {
                    let i = choose|i: int|
                        0 <= i < before.refs.len() && of_source(
                            style,
                            #[trigger] before.refs[i],
                            other_root,
                            other_provider,
                        ) && before.refs[i].hash == hash;
                    assert(end.refs[i] == before.refs[i]);
                    assert(of_source(style, end.refs[i], other_root, other_provider));
                }
                if found == hash && components(
                    style,
                    other_root,
                ) == components(style, root) && other_provider
                    == provider {
                    let i = choose|i: int|
                        0 <= i < end.refs.len() && of_source(
                            style,
                            #[trigger] end.refs[i],
                            root,
                            provider,
                        ) && end.refs[i].hash == hash;
                    assert(of_source(style, end.refs[i], other_root, other_provider));
                }
            }
        }
    }
}

proof fn lemma_has_ref_without(
    style: PathStyle,
    refs: Seq<RefView>,
    root: Seq<char>,
    provider: MCPProvider,
    hashes: Seq<u64>,
    other_root: Seq<char>,
    other_provider: MCPProvider,
    hash: u64,
)
    ensures
        has_ref(
            style,
            without_refs(style, refs, root, provider, hashes),
            other_root,
            other_provider,
            hash,
        )
            <==> has_ref(
                style,
                refs,
                other_root,
                other_provider,
                hash,
            ) && !(components(style, other_root)
            == components(style, root) && other_provider == provider && hashes.contains(hash)),
{
    let left = without_refs(style, refs, root, provider, hashes);
    if has_ref(style, left, other_root, other_provider, hash) {
        let i = choose|i: int|
            0 <= i < left.len() && of_source(style, #[trigger] left[i], other_root, other_provider)
                && left[i].hash == hash;
        assert(left.contains(left[i]));
        lemma_without_refs(style, refs, root, provider, hashes, left[i]);
        let k = choose|k: int| 0 <= k < refs.len() && refs[k] == left[i];
        assert(of_source(style, refs[k], other_root, other_provider));
    }
    if has_ref(style, refs, other_root, other_provider, hash) {
        let k = choose|k: int|
            0 <= k < refs.len() && of_source(style, #[trigger] refs[k], other_root, other_provider)
                && refs[k].hash == hash;
        assert(refs.contains(refs[k]));
        lemma_without_refs(style, refs, root, provider, hashes, refs[k]);
        if left.contains(refs[k]) {
            let i = choose|i: int| 0 <= i < left.len() && left[i] == refs[k];
            assert(of_source(style, left[i], other_root, other_provider));
        }
    }
}

/// After a configuration was read, its source names exactly the servers in it, and every other
/// source names what it named before.
pub proof fn law_reading_replaces_names(
    registry: RegistryView,
    env: McpEnvironment,
    enabled: bool,
    root: Seq<char>,
    provider: MCPProvider,
    config_path: Seq<char>,
    parsed: Seq<Option<InstallView>>,
    other_root: Seq<char>,
    other_provider: MCPProvider,
    hash: u64,
)
    ensures
        has_ref(
            registry.path_style,
            registry.config_read(env, enabled, root, provider, config_path, parsed).0.refs,
            other_root,
            other_provider,
            hash,
        ) <==> (if components(
            registry.path_style,
            other_root,
        ) == components(registry.path_style, root) && other_provider == provider {
            parsed_hashes(parsed).contains(hash)
        } else {
            has_ref(registry.path_style, registry.refs, other_root, other_provider, hash)
        }),
{
    let start = ScanView {
        servers: registry.servers,
        refs: registry.refs,
        fresh: Seq::empty(),
        scanned: Seq::empty(),
    };
    let scan = scanned(registry.path_style, start, root, provider, parsed);
    lemma_scan(
        registry.path_style,
        start,
        root,
        provider,
        parsed,
        other_root,
        other_provider,
        hash,
    );
    let previous = hashes_of(registry.path_style, registry.refs, root, provider);
    let gone = difference(previous, scan.scanned);
    lemma_hashes_of(registry.path_style, registry.refs, root, provider, hash);
    lemma_difference(previous, scan.scanned, hash);
    lemma_has_ref_without(
        registry.path_style,
        scan.refs,
        root,
        provider,
        gone,
        other_root,
        other_provider,
        hash,
    );
    if components(
        registry.path_style,
        other_root,
    ) == components(registry.path_style, root) && other_provider == provider {
        assert(has_ref(
            registry.path_style,
            registry.refs,
            other_root,
            other_provider,
            hash,
        ) <==> has_ref(
            registry.path_style,
            registry.refs,
            root,
            provider,
            hash,
        )) by {
            if has_ref(registry.path_style, registry.refs, other_root, other_provider, hash) {
                let i = choose|i: int|
                    0 <= i < registry.refs.len() && of_source(
                        registry.path_style,
                        #[trigger] registry.refs[i],
                        other_root,
                        other_provider,
                    ) && registry.refs[i].hash == hash;
                assert(of_source(registry.path_style, registry.refs[i], root, provider));
            }
            if has_ref(registry.path_style, registry.refs, root, provider, hash) {
                let i = choose|i: int|
                    0 <= i < registry.refs.len() && of_source(
                        registry.path_style,
                        #[trigger] registry.refs[i],
                        root,
                        provider,
                    ) && registry.refs[i].hash == hash;
                assert(of_source(
                    registry.path_style,
                    registry.refs[i],
                    other_root,
                    other_provider,
                ));
            }
        }
    }
}

/// A server that only configurations of projects name is never started by itself.
pub proof fn law_project_servers_wait(
    style: PathStyle,
    env: McpEnvironment,
    refs: Seq<RefView>,
    hash: u64,
    enabled: bool,
)
    requires
        forall|i: int|
            0 <= i < refs.len() && (#[trigger] refs[i]).hash == hash ==> !is_global_ref(
                style,
                env,
                refs[i],
            ),
    ensures
        !starts_by_itself(style, env, refs, hash, enabled),
{
}

/// A server that the terminal's own configuration names is always started by itself; one that
/// others' configurations outside projects name, where that is enabled.
pub proof fn law_global_servers_start(
    style: PathStyle,
    env: McpEnvironment,
    refs: Seq<RefView>,
    hash: u64,
    i: int,
    enabled: bool,
)
    requires
        0 <= i < refs.len(),
        refs[i].hash == hash,
        is_global_ref(style, env, refs[i]),
    ensures
        enabled || refs[i].provider == MCPProvider::Warp ==> starts_by_itself(
            style,
            env,
            refs,
            hash,
            enabled,
        ),
{
    if refs[i].provider == MCPProvider::Warp {
        assert(is_warp_ref(style, env, refs[i]));
    }
}

/// Enabling or disabling the servers of others touches no server of a project, and none that the
/// terminal's own configuration names.
pub proof fn law_toggle_spares_others(
    style: PathStyle,
    env: McpEnvironment,
    refs: Seq<RefView>,
    servers: Seq<InstallView>,
    k: int,
)
    requires
        0 <= k < third_party_servers(style, env, refs, servers).len(),
    ensures
        ({
            let server = third_party_servers(style, env, refs, servers)[k];
            server.hash is Some && server_type(style, env, refs, server.hash->0)
                == FileBasedMCPServerType::GlobalThirdParty && servers.contains(server)
        }),
    decreases servers.len(),
{
    if servers.len() > 0 {
        let front = servers.drop_last();
        let before = third_party_servers(style, env, refs, front);
        if k < before.len() {
            law_toggle_spares_others(style, env, refs, front, k);
            let i = choose|i: int| 0 <= i < front.len() && front[i] == before[k];
            assert(servers[i] == before[k]);
        } else {
            assert(servers[servers.len() - 1] == servers.last());
        }
    }
}

proof fn lemma_without_id(ids: Seq<u128>, id: u128)
    ensures
        !without_id(ids, id).contains(id),
    decreases ids.len(),
{
    if ids.len() > 0 {
        lemma_without_id(ids.drop_last(), id);
        let before = without_id(ids.drop_last(), id);
        let r = without_id(ids, id);
        if r.contains(id) {
            let i = choose|i: int| 0 <= i < r.len() && r[i] == id;
            assert(before[i] == id);
        }
    }
}

/// A server is activated once the user asked for it, where it is known, and no longer once the user
/// asked for that.
pub proof fn law_activation(registry: RegistryView, env: McpEnvironment, uuid: u128, copy: bool)
    ensures
        server_named(registry.servers, uuid) is Some ==> registry.activation_set(
            env,
            uuid,
            true,
            copy,
        ).0.activated.contains(uuid),
        !registry.activation_set(env, uuid, false, copy).0.activated.contains(uuid),
{
    let ids = registry.activated;
    lemma_without_id(ids, uuid);
    if !ids.contains(uuid) {
        assert(ids.push(uuid).last() == uuid);
    }
}

} // verus!
