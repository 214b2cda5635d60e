//! What holds of what the manager of MCP servers does: which servers it forgets, where it starts
//! them, and what it tells.
use crate::json::{JsonView, canonical, insert_entry, lookup, pretty_text};
use crate::mcp::config::{
    ServersPlace, config_of_file, extended, merged_config, resolved_server, servers_place,
    with_servers,
};
use crate::mcp::list_laws::{
    law_configuration_is_found_again, law_hashes_of_servers, law_other_configurations_stay,
    law_other_roots_wait, law_place_of_a_configuration, law_server_by_hash,
    law_what_a_directory_waits_for,
};
use crate::mcp::registry::{
    ConfigPathView, FileBasedMCPServerType, InstallView, MCPProvider, McpEffectView, McpEnvironment,
    PendingView, RefView, RegistryView, config_at, copies_asked, default_config_path, detected_at,
    hashes_in, hashes_of, id_order, ids_of, is_global_warp, is_home, is_referenced, is_warp_root,
    of_source, orphans_removed, pending_of_root, roots_naming, server_named, server_type,
    server_with, with_config, without_config, without_refs, without_server,
};
use crate::ordered::{law_sorting_keeps_items, sorted_by};
use crate::path::{PathStyle, components, lemma_with_path, lists_path, path_order};
use crate::text::text_lt;
use vstd::prelude::*;

verus! {

proof fn lemma_server_found(servers: Seq<InstallView>, hash: u64)
    ensures
        server_with(servers, hash) is Some <==> exists|i: int|
            0 <= i < servers.len() && (#[trigger] servers[i]).hash == Some(hash),
        server_with(servers, hash) matches Some(server) ==> servers.contains(server) && server.hash
            == Some(hash),
{
    law_server_by_hash(hash, servers);
}

/// A server is forgotten exactly where it was named before and no source names it any more; every
/// other stays.
pub proof fn law_forgotten_servers(
    servers: Seq<InstallView>,
    refs: Seq<RefView>,
    hashes: Seq<u64>,
    server: InstallView,
    hash: u64,
)
    requires
        server.hash == Some(hash),
    ensures
        orphans_removed(
            servers,
            refs,
            hashes,
        ).0.contains(server) <==> servers.contains(server) && !(
        hashes.contains(hash) && !is_referenced(refs, hash)),
        orphans_removed(servers, refs, hashes).1.contains(server) ==> servers.contains(server)
            && hashes.contains(hash) && !is_referenced(refs, hash),
        (forall|i: int|
            0 <= i < servers.len() && (#[trigger] servers[i]).hash == Some(hash) ==> servers[i]
                == server) && servers.contains(server) && hashes.contains(hash) && !is_referenced(
            refs,
            hash,
        ) ==> orphans_removed(servers, refs, hashes).1.contains(server),
    decreases hashes.len(),
{
    if hashes.len() > 0 {
        let front = hashes.drop_last();
        let last = hashes.last();
        law_forgotten_servers(servers, refs, front, server, hash);
        let (kept, removed) = orphans_removed(servers, refs, front);
        lemma_server_found(kept, last);
        lemma_without_server(kept, last, server);
        assert(hashes.contains(hash) <==> front.contains(hash) || hash == last) by {
            if hashes.contains(hash) {
                let k = choose|k: int| 0 <= k < hashes.len() && hashes[k] == hash;
                if k < front.len() {
                    assert(front[k] == hash);
                }
            }
            if front.contains(hash) {
                let k = choose|k: int| 0 <= k < front.len() && front[k] == hash;
                assert(hashes[k] == hash);
            }
            assert(hashes[hashes.len() - 1] == last);
        }
        if hash == last && kept.contains(server) {
            let k = choose|k: int| 0 <= k < kept.len() && kept[k] == server;
            assert(kept[k].hash == Some(last));
        }
        if let Some(found) = server_with(kept, last) {
            if !is_referenced(refs, last) {
                let after = removed.push(found);
                assert(after[removed.len() as int] == found);
                if removed.contains(server) {
                    let k = choose|k: int| 0 <= k < removed.len() && removed[k] == server;
                    assert(after[k] == server);
                }
                if hash == last && (forall|i: int|
                    0 <= i < servers.len() && (#[trigger] servers[i]).hash == Some(hash)
                        ==> servers[i] == server) {
                    law_forgotten_servers(servers, refs, front, found, hash);
                    let k = choose|k: int| 0 <= k < servers.len() && servers[k] == found;
                    assert(servers[k].hash == Some(hash));
                }
                if after.contains(server) {
                    let k = choose|k: int| 0 <= k < after.len() && after[k] == server;
                    if k < removed.len() {
                        assert(removed[k] == server);
                    } else {
                        assert(found == server);
                        assert(kept.contains(server));
                    }
                }
            }
        }
    } else {
        assert(!hashes.contains(hash));
        assert(!orphans_removed(servers, refs, hashes).1.contains(server));
    }
}

proof fn lemma_without_server(servers: Seq<InstallView>, hash: u64, server: InstallView)
    ensures
        without_server(servers, hash).contains(server) <==> servers.contains(server) && server.hash
            != Some(hash),
    decreases servers.len(),
{
    if servers.len() > 0 {
        let front = servers.drop_last();
        let n = servers.len() - 1;
        lemma_without_server(front, hash, server);
        let before = without_server(front, hash);
        let after = without_server(servers, hash);
        assert(servers[n] == servers.last());
        if servers.contains(server) {
            let k = choose|k: int| 0 <= k < servers.len() && servers[k] == server;
            if k < n {
                assert(front[k] == server);
            }
        }
        if front.contains(server) {
            let k = choose|k: int| 0 <= k < front.len() && front[k] == server;
            assert(servers[k] == server);
        }
        if servers.last().hash != Some(hash) {
            assert(after[before.len() as int] == servers.last());
            if before.contains(server) {
                let k = choose|k: int| 0 <= k < before.len() && before[k] == server;
                assert(after[k] == server);
            }
            if after.contains(server) {
                let k = choose|k: int| 0 <= k < after.len() && after[k] == server;
                if k < before.len() {
                    assert(before[k] == server);
                }
            }
        }
    }
}

/// The forgotten servers are stopped, and their credentials are dropped; where none is, nothing is
/// done.
pub proof fn law_forgotten_servers_are_stopped(registry: RegistryView, hashes: Seq<u64>)
    ensures
        ({
            let (kept, removed) = orphans_removed(registry.servers, registry.refs, hashes);
            let (next, told) = registry.orphans_forgotten(hashes);
            &&& next.servers == kept
            &&& next.refs == registry.refs
            &&& (removed.len() == 0 ==> told.len() == 0)
            &&& (removed.len() > 0 ==> told.contains(
                McpEffectView::DespawnServers {
                    uuids: removed.map_values(|i: InstallView| i.uuid),
                },
            ) && told.contains(
                McpEffectView::PurgeCredentials {
                    hashes: removed.filter(|x: InstallView| x.hash is Some).map_values(
                        |x: InstallView| x.hash->0,
                    ),
                },
            ))
        }),
{
    let (kept, removed) = orphans_removed(registry.servers, registry.refs, hashes);
    let told = registry.orphans_forgotten(hashes).1;
    law_hashes_of_servers(removed);
    if removed.len() > 0 {
        let n = told.len() as int;
        assert(told[n - 2] == (McpEffectView::DespawnServers { uuids: ids_of(removed) }));
        assert(told[n - 1] == (McpEffectView::PurgeCredentials { hashes: hashes_in(removed) }));
    }
}

/// A configuration that is gone names nothing any more; what only it named is forgotten, and the
/// names of other sources stay.
pub proof fn law_configuration_is_gone(
    registry: RegistryView,
    root: Seq<char>,
    provider: MCPProvider,
    config_path: Seq<char>,
)
    ensures
        registry.config_gone(root, provider, config_path).0.refs == without_refs(
            registry.path_style,
            registry.refs,
            root,
            provider,
            hashes_of(registry.path_style, registry.refs, root, provider),
        ),
        registry.config_gone(root, provider, config_path).0.pending == registry.pending,
{
}

/// A server is named in all directories whose sources of a wanted kind name it, each once, and in no
/// other.
pub proof fn law_directories_of_a_server(
    style: PathStyle,
    refs: Seq<RefView>,
    hash: u64,
    wanted: spec_fn(MCPProvider) -> bool,
    r: RefView,
)
    ensures
        r.hash == hash && wanted(r.provider) ==> lists_path(
            style,
            roots_naming(style, refs.push(r), hash, wanted),
            r.root,
        ),
        r.hash != hash || !wanted(r.provider) ==> roots_naming(style, refs.push(r), hash, wanted)
            == roots_naming(style, refs, hash, wanted),
        forall|other: Seq<char>|
            lists_path(style, roots_naming(style, refs, hash, wanted), other)
                ==> #[trigger] lists_path(
                style,
                roots_naming(style, refs.push(r), hash, wanted),
                other,
            ),
        roots_naming(style, Seq::empty(), hash, wanted).len() == 0,
{
    assert(refs.push(r).drop_last() =~= refs);
    lemma_with_path(style, roots_naming(style, refs, hash, wanted), r.root);
}

/// When the sources of a directory have been read, all that they name is told, with what is still
/// waited for; then nothing is waited for there any more.
pub proof fn law_scan_is_told(
    registry: RegistryView,
    env: McpEnvironment,
    enabled: bool,
    repo_path: Seq<char>,
)
    ensures
        ({
            let (next, told) = registry.scan_complete(env, enabled, repo_path);
            let waited = registry.pending.filter(
                |x: PendingView|
                    components(registry.path_style, x.root) == components(
                        registry.path_style,
                        repo_path,
                    ),
            ).map_values(|x: PendingView| x.uuid);
            &&& told.len() == 1
            &&& told[0] matches McpEffectView::CloudEnvMcpScanComplete {
                repo_path: path,
                detected,
                wait_for,
            } && path == repo_path && detected == detected_at(
                registry.path_style,
                env,
                registry.servers,
                registry.refs,
                registry.refs,
                repo_path,
                enabled,
            ) && wait_for.to_multiset() == waited.to_multiset()
            &&& next.pending == registry.pending.filter(
                |x: PendingView|
                    components(registry.path_style, x.root) != components(
                        registry.path_style,
                        repo_path,
                    ),
            )
            &&& next.servers == registry.servers
        }),
{
    law_what_a_directory_waits_for(registry.path_style, repo_path, registry.pending);
    law_other_roots_wait(registry.path_style, repo_path, registry.pending);
    law_sorting_keeps_items(
        pending_of_root(registry.path_style, registry.pending, repo_path),
        id_order(),
    );
}

/// A server is started in the home directory where the terminal's own configuration names it, else
/// in the first directory that names it; one that is not known, or named nowhere, in none.
pub proof fn law_place_to_start(registry: RegistryView, env: McpEnvironment, uuid: u128)
    ensures
        server_named(registry.servers, uuid) is None ==> registry.spawn_root(env, uuid) is None,
        registry.hash_of(uuid) matches Some(hash) ==> (is_global_warp(
            registry.path_style,
            env,
            registry.refs,
            hash,
        ) && env.home_dir is Some && registry.spawn_root(env, uuid) is Some ==> registry.spawn_root(
            env,
            uuid,
        ) == Some(env.home_dir->0@)),
        registry.hash_of(uuid) matches Some(hash) ==> (!is_global_warp(
            registry.path_style,
            env,
            registry.refs,
            hash,
        ) ==> (registry.spawn_root(env, uuid) matches Some(root) ==> roots_naming(
            registry.path_style,
            registry.refs,
            hash,
            |p: MCPProvider| true,
        ).contains(root))),
{
    if let Some(hash) = registry.hash_of(uuid) {
        let roots = roots_naming(registry.path_style, registry.refs, hash, |p: MCPProvider| true);
        let sorted = sorted_by(roots, path_order(registry.path_style));
        law_sorting_keeps_items(roots, path_order(registry.path_style));
        if sorted.len() > 0 {
            sorted.to_multiset_ensures();
            roots.to_multiset_ensures();
            assert(sorted.contains(sorted[0]));
            assert(sorted.to_multiset().count(sorted[0]) > 0);
            assert(roots.contains(sorted[0]));
        }
    }
}

/// Where a server was named is one of three: by the terminal's own configuration, by that of others
/// in the home directory, or by projects alone.
pub proof fn law_kind_of_a_server(
    style: PathStyle,
    env: McpEnvironment,
    refs: Seq<RefView>,
    hash: u64,
    i: int,
)
    requires
        0 <= i < refs.len(),
        refs[i].hash == hash,
    ensures
        refs[i].provider == MCPProvider::Warp && is_warp_root(style, env, refs[i].root)
            ==> server_type(style, env, refs, hash) == FileBasedMCPServerType::GlobalWarp,
        refs[i].provider != MCPProvider::Warp && is_home(style, env, refs[i].root) ==> server_type(
            style,
            env,
            refs,
            hash,
        ) != FileBasedMCPServerType::ProjectScoped,
        (forall|j: int|
            0 <= j < refs.len() && (#[trigger] refs[j]).hash == hash ==> !is_home(
                style,
                env,
                refs[j].root,
            ) && !is_warp_root(style, env, refs[j].root)) ==> server_type(style, env, refs, hash)
            == FileBasedMCPServerType::ProjectScoped,
{
}

/// A server is copied to the terminal's own configuration of each directory that others name it in.
pub proof fn law_copies(
    style: PathStyle,
    env: McpEnvironment,
    installation: InstallView,
    roots: Seq<Seq<char>>,
    i: int,
)
    requires
        0 <= i < roots.len(),
    ensures
        copies_asked(style, env, installation, roots).len() == roots.len(),
        copies_asked(style, env, installation, roots)[i] == (McpEffectView::CopyToConfig {
            installation,
            root: roots[i],
            config_path: default_config_path(style, env, roots[i], MCPProvider::Warp),
        }),
{
}

/// A server is added to a configuration exactly where both can be read and the configuration has a
/// place for it; the file then ends in a line break.
pub proof fn law_merged_configuration(
    contents: Option<Seq<char>>,
    name: Seq<char>,
    resolved: Seq<char>,
    server: Seq<(Seq<char>, JsonView)>,
    config: JsonView,
    place: ServersPlace,
)
    ensures
        resolved_server(name, resolved) matches Err(error) ==> merged_config(
            contents,
            name,
            resolved,
        ) == Err::<Seq<char>, Seq<char>>(error),
        resolved_server(name, resolved) is Ok ==> (config_of_file(contents) matches Err(error)
            ==> merged_config(contents, name, resolved) == Err::<Seq<char>, Seq<char>>(error)),
        resolved_server(name, resolved) == Ok::<Seq<(Seq<char>, JsonView)>, Seq<char>>(server)
            && config_of_file(contents) == Ok::<JsonView, Seq<char>>(config) && servers_place(config)
            == Ok::<ServersPlace, Seq<char>>(place) ==> merged_config(contents, name, resolved)
            == Ok::<Seq<char>, Seq<char>>(
            pretty_text(canonical(with_servers(config, place, server))) + "\n"@,
        ),
{
}

/// A server that is there in a configuration under the same name is replaced, and every other stays.
pub proof fn law_added_entries(
    entries: Seq<(Seq<char>, JsonView)>,
    more: Seq<(Seq<char>, JsonView)>,
    last: (Seq<char>, JsonView),
)
    ensures
        extended(entries, more.push(last)) == insert_entry(extended(entries, more), last),
        extended(entries, Seq::empty()) == entries,
        lookup(insert_entry(entries, last), last.0) == Some(last.1),
    decreases entries.len(),
{
    assert(more.push(last).drop_last() =~= more);
    lemma_inserted(entries, last);
}

proof fn lemma_inserted(entries: Seq<(Seq<char>, JsonView)>, e: (Seq<char>, JsonView))
    ensures
        lookup(insert_entry(entries, e), e.0) == Some(e.1),
    decreases entries.len(),
{
    let r = insert_entry(entries, e);
    if entries.len() == 0 || entries[0].0 == e.0 || text_lt(e.0, entries[0].0) {
        assert(r[0] == e);
    } else {
        lemma_inserted(entries.skip(1), e);
        assert(r[0] == entries[0]);
        assert(r.skip(1) =~= insert_entry(entries.skip(1), e));
    }
}

/// The place of a configuration is kept exactly as long as the configuration names something, and
/// the places of the others stay.
pub proof fn law_place_is_kept(
    registry: RegistryView,
    env: McpEnvironment,
    enabled: bool,
    root: Seq<char>,
    provider: MCPProvider,
    config_path: Seq<char>,
    parsed: Seq<Option<InstallView>>,
    i: int,
)
    ensures
        ({
            let next = registry.config_read(
                env,
                enabled,
                root,
                provider,
                config_path,
                parsed,
            ).0;
            &&& (0 <= i < next.refs.len() && components(registry.path_style, next.refs[i].root)
                == components(registry.path_style, root) && next.refs[i].provider == provider
                ==> config_at(registry.path_style, next.config_paths, root, provider) == Some(
                config_path,
            ))
            &&& ((forall|j: int|
                0 <= j < next.refs.len() ==> !(components(
                    registry.path_style,
                    (#[trigger] next.refs[j]).root,
                ) == components(registry.path_style, root) && next.refs[j].provider == provider))
                ==> config_at(registry.path_style, next.config_paths, root, provider) is None)
        }),
{
    let style = registry.path_style;
    let next = registry.config_read(env, enabled, root, provider, config_path, parsed).0;
    let paths = with_config(style, registry.config_paths, root, provider, config_path);
    law_configuration_is_found_again(
        style,
        registry.config_paths,
        root,
        provider,
        config_path,
        ConfigPathView { root, provider, path: config_path },
    );
    lemma_no_place(style, paths, root, provider);
    if 0 <= i < next.refs.len() && components(style, next.refs[i].root) == components(style, root)
        && next.refs[i].provider == provider {
        assert(of_source(style, next.refs[i], root, provider));
    }
}

proof fn lemma_no_place(
    style: PathStyle,
    paths: Seq<ConfigPathView>,
    root: Seq<char>,
    provider: MCPProvider,
)
    ensures
        config_at(style, without_config(style, paths, root, provider), root, provider) is None,
{
    let kept = without_config(style, paths, root, provider);
    let keep = |x: ConfigPathView|
        !(components(style, x.root) == components(style, root) && x.provider == provider);
    law_other_configurations_stay(style, root, provider, paths);
    law_place_of_a_configuration(style, root, provider, kept);
    if config_at(style, kept, root, provider) is Some {
        let i = choose|i: int|
            0 <= i < kept.len() && components(style, (#[trigger] kept[i]).root) == components(
                style,
                root,
            ) && kept[i].provider == provider && config_at(style, kept, root, provider)->0
                == kept[i].path;
        paths.lemma_filter_pred(keep, i);
        assert(keep(kept[i]));
    }
}

/// The place of a configuration that is gone is forgotten where it is the place that is known, and
/// stays where the configuration was kept elsewhere.
pub proof fn law_place_of_a_gone_configuration(
    registry: RegistryView,
    root: Seq<char>,
    provider: MCPProvider,
    config_path: Seq<char>,
    stored: Seq<char>,
)
    requires
        config_at(registry.path_style, registry.config_paths, root, provider) == Some(stored),
    ensures
        components(registry.path_style, stored) == components(registry.path_style, config_path)
            ==> config_at(
            registry.path_style,
            registry.config_gone(root, provider, config_path).0.config_paths,
            root,
            provider,
        ) is None,
        components(registry.path_style, stored) != components(registry.path_style, config_path)
            ==> registry.config_gone(root, provider, config_path).0.config_paths
            == registry.config_paths,
{
    lemma_no_place(registry.path_style, registry.config_paths, root, provider);
}

/// A configuration that is no object, or whose usual key holds no object, is refused in its own
/// words.
pub proof fn law_refused_configurations(config: JsonView)
    requires
        config.get("mcp"@) is None,
        config.get("servers"@) is None,
        config.get("mcp_servers"@) is None,
    ensures
        !(config is Object) && config.get("mcpServers"@) is None ==> servers_place(config) == Err::<
            ServersPlace,
            Seq<char>,
        >("Warp MCP config is not a JSON object"@),
        config is Object && (config.get("mcpServers"@) matches Some(member) && !(member is Object))
            ==> servers_place(config) == Err::<ServersPlace, Seq<char>>(
            "mcpServers is not a JSON object"@,
        ),
{
}

} // verus!
