//! What holds of the lists of servers that the manager of MCP servers keeps.
use crate::json::{JsonView, json_parse};
use crate::mcp::config::{
    ServersPlace, config_of_file, is_some_object, resolved_server, servers_place,
};
use crate::mcp::registry::{
    ConfigPathView, FileBasedMCPServerType, InstallView, MCPProvider, McpEffectView, McpEnvironment,
    PendingView, RefView, RegistryView, ScanServerView, ScanView, config_at, default_config_path,
    detected_at, difference, has_ref, hashes_in, hashes_of, is_home, is_warp_root, pending_of_root,
    provider_paths, scanned, server_named, server_type, server_with, servers_at, servers_to_start,
    starts_by_itself, third_party_servers, with_config, without_config, without_id, without_pending,
    without_pending_root, without_refs, without_server, without_servers,
};
use crate::path::{PathStyle, components, joined_path};
use crate::text::is_blank;
use vstd::prelude::*;

verus! {

/// Of the servers, those that start by themselves or that the user activated are started, all of them, in order.
pub proof fn law_servers_that_start(
    style: PathStyle,
    env: McpEnvironment,
    refs: Seq<RefView>,
    activated: Seq<u128>,
    enabled: bool,
    items: Seq<InstallView>,
)
    ensures
        servers_to_start(style, env, refs, activated, enabled, items) == items.filter(
            |x: InstallView| x.hash is Some && (
                starts_by_itself(style, env, refs, x.hash->0, enabled) || activated.contains(x.uuid)
            )
        ),
    decreases items.len(),
{
    reveal(Seq::filter);
    let keep = |x: InstallView| x.hash is Some && (
        starts_by_itself(style, env, refs, x.hash->0, enabled) || activated.contains(x.uuid)
    );
    if items.len() > 0 {
        law_servers_that_start(style, env, refs, activated, enabled, items.drop_last());
        assert(items.filter(keep) =~= servers_to_start(
            style,
            env,
            refs,
            activated,
            enabled,
            items,
        ));
    } else {
        assert(items.filter(keep) =~= Seq::empty());
    }
}

/// The servers of others outside projects are found, all of them, in order.
pub proof fn law_servers_of_others(
    style: PathStyle,
    env: McpEnvironment,
    refs: Seq<RefView>,
    items: Seq<InstallView>,
)
    ensures
        third_party_servers(style, env, refs, items) == items.filter(
            |x: InstallView| x.hash is Some && server_type(
                style,
                env,
                refs,
                x.hash->0,
            ) == FileBasedMCPServerType::GlobalThirdParty
        ),
    decreases items.len(),
{
    reveal(Seq::filter);
    let keep = |x: InstallView| x.hash is Some && server_type(
        style,
        env,
        refs,
        x.hash->0,
    ) == FileBasedMCPServerType::GlobalThirdParty;
    if items.len() > 0 {
        law_servers_of_others(style, env, refs, items.drop_last());
        assert(items.filter(keep) =~= third_party_servers(style, env, refs, items));
    } else {
        assert(items.filter(keep) =~= Seq::empty());
    }
}

/// A source that no longer names some servers keeps its other names, and every other source all of its own.
pub proof fn law_other_names_stay(
    style: PathStyle,
    root: Seq<char>,
    provider: MCPProvider,
    hashes: Seq<u64>,
    items: Seq<RefView>,
)
    ensures
        without_refs(style, items, root, provider, hashes) == items.filter(
            |x: RefView| !(
                components(
                    style,
                    x.root,
                ) == components(style, root) && x.provider == provider && hashes.contains(x.hash)
            )
        ),
    decreases items.len(),
{
    reveal(Seq::filter);
    let keep = |x: RefView| !(
        components(
            style,
            x.root,
        ) == components(style, root) && x.provider == provider && hashes.contains(x.hash)
    );
    if items.len() > 0 {
        law_other_names_stay(style, root, provider, hashes, items.drop_last());
        assert(items.filter(keep) =~= without_refs(style, items, root, provider, hashes));
    } else {
        assert(items.filter(keep) =~= Seq::empty());
    }
}

/// What was named before and is not named now is gone, and nothing else.
pub proof fn law_hashes_that_are_gone(now: Seq<u64>, items: Seq<u64>)
    ensures
        difference(items, now) == items.filter(|x: u64| !now.contains(x)),
    decreases items.len(),
{
    reveal(Seq::filter);
    let keep = |x: u64| !now.contains(x);
    if items.len() > 0 {
        law_hashes_that_are_gone(now, items.drop_last());
        assert(items.filter(keep) =~= difference(items, now));
    } else {
        assert(items.filter(keep) =~= Seq::empty());
    }
}

/// A server that is forgotten goes alone.
pub proof fn law_other_servers_stay(hash: u64, items: Seq<InstallView>)
    ensures
        without_server(items, hash) == items.filter(|x: InstallView| x.hash != Some(hash)),
    decreases items.len(),
{
    reveal(Seq::filter);
    let keep = |x: InstallView| x.hash != Some(hash);
    if items.len() > 0 {
        law_other_servers_stay(hash, items.drop_last());
        assert(items.filter(keep) =~= without_server(items, hash));
    } else {
        assert(items.filter(keep) =~= Seq::empty());
    }
}

/// The place of a configuration that is forgotten goes alone.
pub proof fn law_other_configurations_stay(
    style: PathStyle,
    root: Seq<char>,
    provider: MCPProvider,
    items: Seq<ConfigPathView>,
)
    ensures
        without_config(style, items, root, provider) == items.filter(
            |x: ConfigPathView| !(
                components(style, x.root) == components(style, root) && x.provider == provider
            )
        ),
    decreases items.len(),
{
    reveal(Seq::filter);
    let keep = |x: ConfigPathView| !(
        components(style, x.root) == components(style, root) && x.provider == provider
    );
    if items.len() > 0 {
        law_other_configurations_stay(style, root, provider, items.drop_last());
        assert(items.filter(keep) =~= without_config(style, items, root, provider));
    } else {
        assert(items.filter(keep) =~= Seq::empty());
    }
}

/// What a source waits for is forgotten alone.
pub proof fn law_other_sources_wait(
    style: PathStyle,
    root: Seq<char>,
    provider: MCPProvider,
    items: Seq<PendingView>,
)
    ensures
        without_pending(style, items, root, provider) == items.filter(
            |x: PendingView| !(
                components(style, x.root) == components(style, root) && x.provider == provider
            )
        ),
    decreases items.len(),
{
    reveal(Seq::filter);
    let keep = |x: PendingView| !(
        components(style, x.root) == components(style, root) && x.provider == provider
    );
    if items.len() > 0 {
        law_other_sources_wait(style, root, provider, items.drop_last());
        assert(items.filter(keep) =~= without_pending(style, items, root, provider));
    } else {
        assert(items.filter(keep) =~= Seq::empty());
    }
}

/// What a directory waits for is forgotten alone.
pub proof fn law_other_roots_wait(style: PathStyle, root: Seq<char>, items: Seq<PendingView>)
    ensures
        without_pending_root(style, items, root) == items.filter(
            |x: PendingView| components(style, x.root) != components(style, root)
        ),
    decreases items.len(),
{
    reveal(Seq::filter);
    let keep = |x: PendingView| components(style, x.root) != components(style, root);
    if items.len() > 0 {
        law_other_roots_wait(style, root, items.drop_last());
        assert(items.filter(keep) =~= without_pending_root(style, items, root));
    } else {
        assert(items.filter(keep) =~= Seq::empty());
    }
}

/// An identifier that is taken out goes alone.
pub proof fn law_other_ids_stay(id: u128, items: Seq<u128>)
    ensures
        without_id(items, id) == items.filter(|x: u128| x != id),
    decreases items.len(),
{
    reveal(Seq::filter);
    let keep = |x: u128| x != id;
    if items.len() > 0 {
        law_other_ids_stay(id, items.drop_last());
        assert(items.filter(keep) =~= without_id(items, id));
    } else {
        assert(items.filter(keep) =~= Seq::empty());
    }
}

/// The hashes of servers are those of all that have one, in order.
pub proof fn law_hashes_of_servers(items: Seq<InstallView>)
    ensures
        hashes_in(items) == items.filter(|x: InstallView| x.hash is Some).map_values(
            |x: InstallView| x.hash->0,
        ),
    decreases items.len(),
{
    reveal(Seq::filter);
    let keep = |x: InstallView| x.hash is Some;
    let make = |x: InstallView| x.hash->0;
    if items.len() > 0 {
        law_hashes_of_servers(items.drop_last());
        assert(items.filter(keep).map_values(make) =~= hashes_in(items));
    } else {
        assert(items.filter(keep).map_values(make) =~= Seq::empty());
    }
}

/// What a source names are the hashes of all of its names, in order.
pub proof fn law_hashes_of_a_source(
    style: PathStyle,
    root: Seq<char>,
    provider: MCPProvider,
    items: Seq<RefView>,
)
    ensures
        hashes_of(style, items, root, provider) == items.filter(
            |x: RefView| components(
                style,
                x.root,
            ) == components(style, root) && x.provider == provider
        ).map_values(
            |x: RefView| x.hash,
        ),
    decreases items.len(),
{
    reveal(Seq::filter);
    let keep = |x: RefView| components(
        style,
        x.root,
    ) == components(style, root) && x.provider == provider;
    let make = |x: RefView| x.hash;
    if items.len() > 0 {
        law_hashes_of_a_source(style, root, provider, items.drop_last());
        assert(items.filter(keep).map_values(make) =~= hashes_of(style, items, root, provider));
    } else {
        assert(items.filter(keep).map_values(make) =~= Seq::empty());
    }
}

/// A directory waits for all that its sources wait for, in order.
pub proof fn law_what_a_directory_waits_for(
    style: PathStyle,
    root: Seq<char>,
    items: Seq<PendingView>,
)
    ensures
        pending_of_root(style, items, root) == items.filter(
            |x: PendingView| components(style, x.root) == components(style, root)
        ).map_values(
            |x: PendingView| x.uuid,
        ),
    decreases items.len(),
{
    reveal(Seq::filter);
    let keep = |x: PendingView| components(style, x.root) == components(style, root);
    let make = |x: PendingView| x.uuid;
    if items.len() > 0 {
        law_what_a_directory_waits_for(style, root, items.drop_last());
        assert(items.filter(keep).map_values(make) =~= pending_of_root(style, items, root));
    } else {
        assert(items.filter(keep).map_values(make) =~= Seq::empty());
    }
}

/// The servers of a directory are all those that its sources name and that are known, in order.
pub proof fn law_servers_of_a_directory(
    style: PathStyle,
    servers: Seq<InstallView>,
    root: Seq<char>,
    items: Seq<RefView>,
)
    ensures
        servers_at(style, servers, items, root) == items.filter(
            |x: RefView| server_with(
                servers,
                x.hash,
            ) is Some && components(style, x.root) == components(style, root)
        ).map_values(
            |x: RefView| server_with(servers, x.hash)->0,
        ),
    decreases items.len(),
{
    reveal(Seq::filter);
    let keep = |x: RefView| server_with(
        servers,
        x.hash,
    ) is Some && components(style, x.root) == components(style, root);
    let make = |x: RefView| server_with(servers, x.hash)->0;
    if items.len() > 0 {
        law_servers_of_a_directory(style, servers, root, items.drop_last());
        assert(items.filter(keep).map_values(make) =~= servers_at(style, servers, items, root));
    } else {
        assert(items.filter(keep).map_values(make) =~= Seq::empty());
    }
}

/// All servers that the sources of a directory name and that are known are told of, each with whether it starts by itself, in order.
pub proof fn law_detected_servers(
    style: PathStyle,
    env: McpEnvironment,
    servers: Seq<InstallView>,
    all: Seq<RefView>,
    root: Seq<char>,
    enabled: bool,
    items: Seq<RefView>,
)
    ensures
        detected_at(style, env, servers, all, items, root, enabled) == items.filter(
            |x: RefView| server_with(
                servers,
                x.hash,
            ) is Some && components(style, x.root) == components(style, root)
        ).map_values(
            |x: RefView| (ScanServerView { uuid: server_with(
                servers,
                x.hash,
            )->0.uuid, name: server_with(
                servers,
                x.hash,
            )->0.name, provider: x.provider, hash: x.hash, auto_start_eligible: starts_by_itself(
                style,
                env,
                all,
                x.hash,
                enabled,
            ) }),
        ),
    decreases items.len(),
{
    reveal(Seq::filter);
    let keep = |x: RefView| server_with(
        servers,
        x.hash,
    ) is Some && components(style, x.root) == components(style, root);
    let make = |x: RefView| (
        ScanServerView { uuid: server_with(
            servers,
            x.hash,
        )->0.uuid, name: server_with(
            servers,
            x.hash,
        )->0.name, provider: x.provider, hash: x.hash, auto_start_eligible: starts_by_itself(
            style,
            env,
            all,
            x.hash,
            enabled,
        ) }
    );
    if items.len() > 0 {
        law_detected_servers(style, env, servers, all, root, enabled, items.drop_last());
        assert(items.filter(keep).map_values(make) =~= detected_at(
            style,
            env,
            servers,
            all,
            items,
            root,
            enabled,
        ));
    } else {
        assert(items.filter(keep).map_values(make) =~= Seq::empty());
    }
}

/// A server is found by its hash where one has it.
pub proof fn law_server_by_hash(hash: u64, items: Seq<InstallView>)
    ensures
        match server_with(items, hash) {
            Some(found) => exists|i: int|
                0 <= i < items.len() && (
                    #[trigger] items[i]
                ).hash == Some(hash) && found == items[i],
            None => forall|i: int| 0 <= i < items.len() ==> !(
                (#[trigger] items[i]).hash == Some(hash)
            ),
        },
    decreases items.len(),
{
    if items.len() > 0 {
        let rest = items.skip(1);
        law_server_by_hash(hash, rest);
        assert(items[0] == items[0]);
        match server_with(rest, hash) {
            Some(found) => {
                let i = choose|i: int|
                    0 <= i < rest.len() && (
                        #[trigger] rest[i]
                    ).hash == Some(hash) && found == rest[i];
                assert(items[i + 1] == rest[i]);
            },
            None => {
                if !(items[0].hash == Some(hash)) {
                    assert forall|i: int| 0 <= i < items.len() implies !(
                        (#[trigger] items[i]).hash == Some(hash)
                    ) by {
                        if i > 0 {
                            assert(rest[i - 1] == items[i]);
                        }
                    }
                }
            },
        }
    }
}

/// A server is found by its identifier where one has it.
pub proof fn law_server_by_id(uuid: u128, items: Seq<InstallView>)
    ensures
        match server_named(items, uuid) {
            Some(found) => exists|i: int|
                0 <= i < items.len() && (#[trigger] items[i]).uuid == uuid && found == items[i],
            None => forall|i: int| 0 <= i < items.len() ==> !((#[trigger] items[i]).uuid == uuid),
        },
    decreases items.len(),
{
    if items.len() > 0 {
        let rest = items.skip(1);
        law_server_by_id(uuid, rest);
        assert(items[0] == items[0]);
        match server_named(rest, uuid) {
            Some(found) => {
                let i = choose|i: int|
                    0 <= i < rest.len() && (#[trigger] rest[i]).uuid == uuid && found == rest[i];
                assert(items[i + 1] == rest[i]);
            },
            None => {
                if !(items[0].uuid == uuid) {
                    assert forall|i: int| 0 <= i < items.len() implies !(
                        (#[trigger] items[i]).uuid == uuid
                    ) by {
                        if i > 0 {
                            assert(rest[i - 1] == items[i]);
                        }
                    }
                }
            },
        }
    }
}

/// The place of a configuration is found by its directory and its provider.
pub proof fn law_place_of_a_configuration(
    style: PathStyle,
    root: Seq<char>,
    provider: MCPProvider,
    items: Seq<ConfigPathView>,
)
    ensures
        match config_at(style, items, root, provider) {
            Some(found) => exists|i: int|
                0 <= i < items.len() && components(
                    style,
                    (#[trigger] items[i]).root,
                ) == components(style, root) && (
                    #[trigger] items[i]
                ).provider == provider && found == items[i].path,
            None => forall|i: int| 0 <= i < items.len() ==> !(
                components(
                    style,
                    (#[trigger] items[i]).root,
                ) == components(style, root) && (#[trigger] items[i]).provider == provider
            ),
        },
    decreases items.len(),
{
    if items.len() > 0 {
        let rest = items.skip(1);
        law_place_of_a_configuration(style, root, provider, rest);
        assert(items[0] == items[0]);
        match config_at(style, rest, root, provider) {
            Some(found) => {
                let i = choose|i: int|
                    0 <= i < rest.len() && components(
                        style,
                        (#[trigger] rest[i]).root,
                    ) == components(style, root) && (
                        #[trigger] rest[i]
                    ).provider == provider && found == rest[i].path;
                assert(items[i + 1] == rest[i]);
            },
            None => {
                if !(
                    components(
                        style,
                        items[0].root,
                    ) == components(style, root) && items[0].provider == provider
                ) {
                    assert forall|i: int| 0 <= i < items.len() implies !(
                        components(
                            style,
                            (#[trigger] items[i]).root,
                        ) == components(style, root) && (#[trigger] items[i]).provider == provider
                    ) by {
                        if i > 0 {
                            assert(rest[i - 1] == items[i]);
                        }
                    }
                }
            },
        }
    }
}

/// The place of a configuration is the one that was told last, and every other place stays.
pub proof fn law_configuration_is_found_again(
    style: PathStyle,
    paths: Seq<ConfigPathView>,
    root: Seq<char>,
    provider: MCPProvider,
    path: Seq<char>,
    other: ConfigPathView,
)
    ensures
        config_at(style, with_config(style, paths, root, provider, path), root, provider) == Some(
            path,
        ),
        paths.contains(other) && !(components(style, other.root) == components(style, root)
            && other.provider == provider) ==> with_config(
            style,
            paths,
            root,
            provider,
            path,
        ).contains(other),
{
    let kept = without_config(style, paths, root, provider);
    let keep = |x: ConfigPathView|
        !(components(style, x.root) == components(style, root) && x.provider == provider);
    law_other_configurations_stay(style, root, provider, paths);
    let all = with_config(style, paths, root, provider, path);
    assert forall|i: int| 0 <= i < kept.len() implies keep(#[trigger] kept[i]) by {
        paths.lemma_filter_pred(keep, i);
    }
    law_place_of_a_configuration(style, root, provider, all);
    let n = kept.len() as int;
    assert(all[n] == (ConfigPathView { root, provider, path }));
    let found = config_at(style, all, root, provider);
    if found is None {
        assert(components(style, all[n].root) == components(style, root));
    } else {
        let i = choose|i: int|
            0 <= i < all.len() && components(style, (#[trigger] all[i]).root) == components(
                style,
                root,
            ) && all[i].provider == provider && found->0 == all[i].path;
        if i < n {
            assert(all[i] == kept[i]);
            assert(keep(kept[i]));
        }
    }
    if paths.contains(other) && keep(other) {
        let i = choose|i: int| 0 <= i < paths.len() && paths[i] == other;
        paths.lemma_filter_contains(keep, i);
        assert(kept.contains(other));
        let k = choose|k: int| 0 <= k < kept.len() && kept[k] == other;
        assert(all[k] == other);
    }
}

proof fn lemma_without_id(ids: Seq<u128>, gone: u128, id: u128)
    ensures
        without_id(ids, gone).contains(id) <==> ids.contains(id) && id != gone,
    decreases ids.len(),
{
    if ids.len() > 0 {
        let front = ids.drop_last();
        let n = ids.len() - 1;
        lemma_without_id(front, gone, id);
        let before = without_id(front, gone);
        let after = without_id(ids, gone);
        if ids.contains(id) {
            let k = choose|k: int| 0 <= k < ids.len() && ids[k] == id;
            if k < n {
                assert(front[k] == id);
            }
        }
        if front.contains(id) {
            let k = choose|k: int| 0 <= k < front.len() && front[k] == id;
            assert(ids[k] == id);
        }
        if before.contains(id) {
            let k = choose|k: int| 0 <= k < before.len() && before[k] == id;
            assert(after[k] == id);
        }
        assert(ids[n] == ids.last());
        if ids.last() != gone {
            assert(after[before.len() as int] == ids.last());
            if after.contains(id) {
                let k = choose|k: int| 0 <= k < after.len() && after[k] == id;
                if k < before.len() {
                    assert(before[k] == id);
                }
            }
        }
    }
}

/// Activated servers that were forgotten are not activated any more, and every other is.
pub proof fn law_forgotten_servers_are_not_activated(
    ids: Seq<u128>,
    servers: Seq<InstallView>,
    id: u128,
)
    ensures
        without_servers(ids, servers).contains(id) <==> ids.contains(id) && forall|i: int|
            0 <= i < servers.len() ==> (#[trigger] servers[i]).uuid != id,
    decreases servers.len(),
{
    if servers.len() > 0 {
        let front = servers.drop_last();
        law_forgotten_servers_are_not_activated(ids, front, id);
        lemma_without_id(without_servers(ids, front), servers.last().uuid, id);
        let n = servers.len() - 1;
        assert(servers[n] == servers.last());
        if forall|i: int| 0 <= i < servers.len() ==> (#[trigger] servers[i]).uuid != id {
            assert forall|i: int| 0 <= i < front.len() implies (#[trigger] front[i]).uuid
                != id by {
                assert(servers[i].uuid != id);
            }
        }
        if (forall|i: int| 0 <= i < front.len() ==> (#[trigger] front[i]).uuid != id)
            && servers.last().uuid != id {
            assert forall|i: int| 0 <= i < servers.len() implies (#[trigger] servers[i]).uuid
                != id by {
                if i < n {
                    assert(front[i].uuid != id);
                }
            }
        }
    }
}

/// Every server of a configuration that was not known before is known afterwards, and is among the
/// fresh ones; those known before stay, and are not fresh.
pub proof fn law_scanned_servers(
    style: PathStyle,
    start: ScanView,
    root: Seq<char>,
    provider: MCPProvider,
    parsed: Seq<Option<InstallView>>,
    last: InstallView,
    hash: u64,
)
    requires
        last.hash == Some(hash),
    ensures
        ({
            let before = scanned(style, start, root, provider, parsed);
            let after = scanned(style, start, root, provider, parsed.push(Some(last)));
            &&& after.scanned == before.scanned.push(hash)
            &&& has_ref(style, after.refs, root, provider, hash)
            &&& before.refs.is_prefix_of(after.refs)
            &&& (server_with(before.servers, hash) is None ==> after.servers == before.servers.push(
                last,
            ) && after.fresh == before.fresh.push(last))
            &&& (server_with(before.servers, hash) is Some ==> after.servers == before.servers
                && after.fresh == before.fresh)
        }),
        scanned(style, start, root, provider, parsed.push(None)) == scanned(
            style,
            start,
            root,
            provider,
            parsed,
        ),
        scanned(style, start, root, provider, Seq::empty()) == start,
{
    assert(parsed.push(Some(last)).drop_last() =~= parsed);
    assert(parsed.push(None).drop_last() =~= parsed);
    let before = scanned(style, start, root, provider, parsed);
    let after = scanned(style, start, root, provider, parsed.push(Some(last)));
    assert(before.refs =~= after.refs.subrange(0, before.refs.len() as int));
    if !has_ref(style, before.refs, root, provider, hash) {
        assert(after.refs[before.refs.len() as int] == (RefView { root, provider, hash }));
    }
}

/// Where a configuration was read, exactly its fresh servers that are to start are started, and
/// where none is, none.
pub proof fn law_reading_starts_servers(
    registry: RegistryView,
    env: McpEnvironment,
    enabled: bool,
    root: Seq<char>,
    provider: MCPProvider,
    config_path: Seq<char>,
    parsed: Seq<Option<InstallView>>,
)
    ensures
        ({
            let scan = scanned(
                registry.path_style,
                ScanView {
                    servers: registry.servers,
                    refs: registry.refs,
                    fresh: Seq::empty(),
                    scanned: Seq::empty(),
                },
                root,
                provider,
                parsed,
            );
            let started = scan.fresh.filter(
                |x: InstallView|
                    x.hash is Some && (starts_by_itself(
                        registry.path_style,
                        env,
                        scan.refs,
                        x.hash->0,
                        enabled,
                    ) || registry.activated.contains(x.uuid)),
            );
            let told = registry.config_read(env, enabled, root, provider, config_path, parsed).1;
            started.len() > 0 ==> told.contains(
                McpEffectView::SpawnServers { installations: started },
            )
        }),
{
    let scan = scanned(
        registry.path_style,
        ScanView {
            servers: registry.servers,
            refs: registry.refs,
            fresh: Seq::empty(),
            scanned: Seq::empty(),
        },
        root,
        provider,
        parsed,
    );
    law_servers_that_start(
        registry.path_style,
        env,
        scan.refs,
        registry.activated,
        enabled,
        scan.fresh,
    );
    let told = registry.config_read(env, enabled, root, provider, config_path, parsed).1;
    let started = servers_to_start(
        registry.path_style,
        env,
        scan.refs,
        registry.activated,
        enabled,
        scan.fresh,
    );
    if started.len() > 0 {
        assert(told[0] == (McpEffectView::SpawnServers { installations: started }));
    }
}

/// Enabling the servers of others starts them, and disabling stops them, all of them.
pub proof fn law_toggle(registry: RegistryView, env: McpEnvironment)
    ensures
        ({
            let servers = registry.servers.filter(
                |x: InstallView|
                    x.hash is Some && server_type(
                        registry.path_style,
                        env,
                        registry.refs,
                        x.hash->0,
                    ) == FileBasedMCPServerType::GlobalThirdParty,
            );
            &&& registry.toggled(env, true) == (McpEffectView::SpawnServers {
                installations: servers,
            })
            &&& registry.toggled(env, false) == (McpEffectView::DespawnServers {
                uuids: servers.map_values(|i: InstallView| i.uuid),
            })
        }),
{
    law_servers_of_others(registry.path_style, env, registry.refs, registry.servers);
}

/// A server that the user activates is started and remembered so; one that the user deactivates is
/// stopped and remembered so.
pub proof fn law_activation_is_carried_out(
    registry: RegistryView,
    env: McpEnvironment,
    uuid: u128,
    copy: bool,
    installation: InstallView,
)
    ensures
        registry.activation_set(env, uuid, false, copy).1.contains(
            McpEffectView::Persist { uuid, active: false },
        ),
        registry.activation_set(env, uuid, false, copy).1.contains(
            McpEffectView::DespawnServers { uuids: seq![uuid] },
        ),
        server_named(registry.servers, uuid) == Some(installation) ==> registry.activation_set(
            env,
            uuid,
            true,
            copy,
        ).1.contains(McpEffectView::Persist { uuid, active: true }) && registry.activation_set(
            env,
            uuid,
            true,
            copy,
        ).1.contains(McpEffectView::SpawnServers { installations: seq![installation] }),
        server_named(registry.servers, uuid) is None ==> registry.activation_set(
            env,
            uuid,
            true,
            copy,
        ) == (registry, Seq::<McpEffectView>::empty()),
{
    let off = registry.activation_set(env, uuid, false, copy).1;
    assert(off[0] == (McpEffectView::Persist { uuid, active: false }));
    assert(off[1] == (McpEffectView::DespawnServers { uuids: seq![uuid] }));
    if server_named(registry.servers, uuid) == Some(installation) {
        let on = registry.activation_set(env, uuid, true, copy).1;
        let n = on.len() as int;
        assert(on[n - 2] == (McpEffectView::Persist { uuid, active: true }));
        assert(on[n - 1] == (McpEffectView::SpawnServers { installations: seq![installation] }));
    }
}

/// The usual place of a configuration lies under its directory, but for the terminal's own.
pub proof fn law_usual_place(
    style: PathStyle,
    env: McpEnvironment,
    root: Seq<char>,
    provider: MCPProvider,
)
    ensures
        provider == MCPProvider::Warp && is_warp_root(style, env, root) ==> default_config_path(
            style,
            env,
            root,
            provider,
        ) == env.warp_config@,
        provider != MCPProvider::Warp && is_home(style, env, root) ==> default_config_path(
            style,
            env,
            root,
            provider,
        ) == joined_path(style, root, provider_paths(env, provider).home_config_path@),
        !is_home(style, env, root) && !is_warp_root(style, env, root) ==> default_config_path(
            style,
            env,
            root,
            provider,
        ) == joined_path(style, root, provider_paths(env, provider).project_config_path@),
{
}

/// The servers for a prompt are those of the home directory, then those of the project.
pub proof fn law_servers_for_a_prompt(
    registry: RegistryView,
    home: Seq<char>,
    repo: Seq<char>,
)
    ensures
        registry.servers_for(Some(home), Some(repo)) == registry.servers_for(Some(home), None)
            + registry.servers_for(None, Some(repo)),
        registry.servers_for(None, None).len() == 0,
        registry.servers_for(Some(home), None) == registry.servers_for(None, Some(home)),
{
    assert(registry.servers_for(Some(home), Some(repo)) =~= registry.servers_for(Some(home), None)
        + registry.servers_for(None, Some(repo)));
    assert(registry.servers_for(Some(home), None) =~= registry.servers_for(None, Some(home)));
}

/// A configuration that is not there, or is blank, is an empty one; any other is what its text says.
pub proof fn law_configuration_of_a_file(text: Seq<char>)
    ensures
        config_of_file(None) == Ok::<JsonView, Seq<char>>(JsonView::Object(Seq::empty())),
        is_blank(text) ==> config_of_file(Some(text)) == config_of_file(None),
        !is_blank(text) ==> config_of_file(Some(text)) == json_parse(text),
{
}

/// The server of an installation is taken exactly where its text holds one server and no other.
pub proof fn law_one_server_is_taken(name: Seq<char>, resolved: Seq<char>)
    ensures
        resolved_server(name, resolved) is Ok <==> (json_parse(resolved) matches Ok(
            JsonView::Object(entries),
        ) && entries.len() == 1),
        resolved_server(name, resolved) matches Ok(entries) ==> json_parse(resolved) == Ok::<
            JsonView,
            Seq<char>,
        >(JsonView::Object(entries)),
{
}

/// The servers of a configuration are kept where it keeps them already, the nested place first, else
/// under the usual key; a configuration that is no object, or has no object there, is refused.
pub proof fn law_place_of_servers(config: JsonView, inner: JsonView)
    ensures
        config.get("mcp"@) == Some(inner) && (inner.get("servers"@) matches Some(servers) && servers
            is Object) ==> servers_place(config) == Ok::<ServersPlace, Seq<char>>(
            ServersPlace::Nested,
        ),
        config.get("mcp"@) is None && is_some_object(config.get("servers"@)) ==> servers_place(
            config,
        ) == Ok::<ServersPlace, Seq<char>>(ServersPlace::Under { key: "servers"@ }),
        config.get("mcp"@) is None && config.get("servers"@) is None && is_some_object(
            config.get("mcpServers"@),
        ) ==> servers_place(config) == Ok::<ServersPlace, Seq<char>>(
            ServersPlace::Under { key: "mcpServers"@ },
        ),
        config.get("mcp"@) is None && config.get("servers"@) is None && config.get("mcpServers"@)
            is None && is_some_object(config.get("mcp_servers"@)) ==> servers_place(config) == Ok::<
            ServersPlace,
            Seq<char>,
        >(ServersPlace::Under { key: "mcp_servers"@ }),
        config is Object && config.get("mcp"@) is None && config.get("servers"@) is None
            && config.get("mcpServers"@) is None && config.get("mcp_servers"@) is None
            ==> servers_place(config) == Ok::<ServersPlace, Seq<char>>(
            ServersPlace::Under { key: "mcpServers"@ },
        ),
        !(config is Object) && config.get("mcp"@) is None && config.get("servers"@) is None
            && config.get("mcpServers"@) is None && config.get("mcp_servers"@) is None
            ==> servers_place(config) is Err,
{
}

} // verus!
