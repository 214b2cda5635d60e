//! What is known of the servers that configuration files name: the specification of the manager.
use crate::ordered::sorted_by;
use crate::path::{PathStyle, components, joined_path, path_order, with_path};
use vstd::prelude::*;

verus! {

/// Whose configuration names a server.
#[derive(Clone, Copy, Debug, PartialEq, Eq, Hash, Structural)]
pub enum MCPProvider {
    Warp,
    Claude,
    Codex,
    Agents,
}

/// A server as a configuration file describes it. Its hash is made of its name, its template and
/// the values of its variables; without one it cannot be kept apart from others.
#[derive(Debug, PartialEq, Eq)]
pub struct TemplatableMCPServerInstallation {
    pub uuid: u128,
    pub name: String,
    pub hash: Option<u64>,
    pub resolved_json: String,
}

/// The model of a `TemplatableMCPServerInstallation`.
pub struct InstallView {
    pub uuid: u128,
    pub name: Seq<char>,
    pub hash: Option<u64>,
    pub resolved_json: Seq<char>,
}

impl TemplatableMCPServerInstallation {
    pub open spec fn view(&self) -> InstallView {
        InstallView {
            uuid: self.uuid,
            name: self.name@,
            hash: self.hash,
            resolved_json: self.resolved_json@,
        }
    }
}

impl Clone for TemplatableMCPServerInstallation {
    fn clone(&self) -> (r: Self)
        ensures
            r@ == self@,
    {
        TemplatableMCPServerInstallation {
            uuid: self.uuid,
            name: self.name.clone(),
            hash: self.hash,
            resolved_json: self.resolved_json.clone(),
        }
    }
}

/// The models of a list of installations.
pub open spec fn install_views(installations: Seq<TemplatableMCPServerInstallation>) -> Seq<
    InstallView,
> {
    installations.map_values(|i: TemplatableMCPServerInstallation| i@)
}

/// Where the configuration files of a provider lie: below the home directory, and below a project.
#[derive(Debug, PartialEq, Eq)]
pub struct ProviderPaths {
    pub home_config_path: String,
    pub project_config_path: String,
}

/// The directories that the manager has to know.
#[derive(Debug, PartialEq, Eq)]
pub struct McpEnvironment {
    pub home_dir: Option<String>,
    pub warp_root: Option<String>,
    pub warp_config: String,
    pub warp: ProviderPaths,
    pub claude: ProviderPaths,
    pub codex: ProviderPaths,
    pub agents: ProviderPaths,
}

/// The paths of a provider.
pub open spec fn provider_paths(env: McpEnvironment, provider: MCPProvider) -> ProviderPaths {
    match provider {
        MCPProvider::Warp => env.warp,
        MCPProvider::Claude => env.claude,
        MCPProvider::Codex => env.codex,
        MCPProvider::Agents => env.agents,
    }
}

/// The root is that of the terminal's own configuration.
pub open spec fn is_warp_root(style: PathStyle, env: McpEnvironment, root: Seq<char>) -> bool {
    env.warp_root is Some && components(style, env.warp_root->0@) == components(style, root)
}

/// The root is the home directory.
pub open spec fn is_home(style: PathStyle, env: McpEnvironment, root: Seq<char>) -> bool {
    env.home_dir is Some && components(style, env.home_dir->0@) == components(style, root)
}

/// Where the configuration of a provider is, by default, for a root.
pub open spec fn default_config_path(
    style: PathStyle,
    env: McpEnvironment,
    root: Seq<char>,
    provider: MCPProvider,
) -> Seq<
    char,
> {
    if provider == MCPProvider::Warp && is_warp_root(style, env, root) {
        env.warp_config@
    } else if is_home(style, env, root) {
        joined_path(style, root, provider_paths(env, provider).home_config_path@)
    } else {
        joined_path(style, root, provider_paths(env, provider).project_config_path@)
    }
}

/// A server is named by the configuration of a provider for a root.
pub struct RefView {
    pub root: Seq<char>,
    pub provider: MCPProvider,
    pub hash: u64,
}

/// The configuration file of a provider for a root.
pub struct ConfigPathView {
    pub root: Seq<char>,
    pub provider: MCPProvider,
    pub path: Seq<char>,
}

/// A server that was started while the configuration of a provider for a root was read.
pub struct PendingView {
    pub root: Seq<char>,
    pub provider: MCPProvider,
    pub uuid: u128,
}

/// What is known of the servers.
pub struct RegistryView {
    pub servers: Seq<InstallView>,
    pub refs: Seq<RefView>,
    pub config_paths: Seq<ConfigPathView>,
    pub pending: Seq<PendingView>,
    pub activated: Seq<u128>,
    pub path_style: PathStyle,
}

/// What kind of configuration names a server.
#[derive(Clone, Copy, Debug, PartialEq, Eq, Structural)]
pub enum FileBasedMCPServerType {
    GlobalWarp,
    GlobalThirdParty,
    ProjectScoped,
}

/// A server that a scan of a repository found.
pub struct ScanServerView {
    pub uuid: u128,
    pub name: Seq<char>,
    pub provider: MCPProvider,
    pub hash: u64,
    pub auto_start_eligible: bool,
}

/// What the manager tells those who watch it, and asks of its surroundings.
pub enum McpEffectView {
    /// Note that a server is activated, or that it is not.
    Persist { uuid: u128, active: bool },
    /// Add a server to a configuration file of the terminal.
    CopyToConfig { installation: InstallView, root: Seq<char>, config_path: Seq<char> },
    SpawnServers { installations: Seq<InstallView> },
    DespawnServers { uuids: Seq<u128> },
    PurgeCredentials { hashes: Seq<u64> },
    CloudEnvMcpScanComplete {
        repo_path: Seq<char>,
        detected: Seq<ScanServerView>,
        wait_for: Seq<u128>,
    },
}

/// The entry is of the source: its root and its provider.
pub open spec fn of_source(
    style: PathStyle,
    r: RefView,
    root: Seq<char>,
    provider: MCPProvider,
) -> bool {
    components(style, r.root) == components(style, root) && r.provider == provider
}

/// The source names the server.
pub open spec fn has_ref(
    style: PathStyle,
    refs: Seq<RefView>,
    root: Seq<char>,
    provider: MCPProvider,
    hash: u64,
) -> bool {
    exists|i: int|
        0 <= i < refs.len() && of_source(
            style,
            #[trigger] refs[i],
            root,
            provider,
        ) && refs[i].hash == hash
}

/// Some source names the server.
pub open spec fn is_referenced(refs: Seq<RefView>, hash: u64) -> bool {
    exists|i: int| 0 <= i < refs.len() && (#[trigger] refs[i]).hash == hash
}

/// The source names some server.
pub open spec fn has_source(
    style: PathStyle,
    refs: Seq<RefView>,
    root: Seq<char>,
    provider: MCPProvider,
) -> bool {
    exists|i: int| 0 <= i < refs.len() && of_source(style, #[trigger] refs[i], root, provider)
}

/// The sources with a further name, unless it is there.
pub open spec fn with_ref(style: PathStyle, refs: Seq<RefView>, r: RefView) -> Seq<RefView> {
    if has_ref(style, refs, r.root, r.provider, r.hash) {
        refs
    } else {
        refs.push(r)
    }
}

/// The servers that a source names.
pub open spec fn hashes_of(
    style: PathStyle,
    refs: Seq<RefView>,
    root: Seq<char>,
    provider: MCPProvider,
) -> Seq<u64>
    decreases refs.len(),
{
    if refs.len() == 0 {
        Seq::empty()
    } else {
        let before = hashes_of(style, refs.drop_last(), root, provider);
        if of_source(style, refs.last(), root, provider) {
            before.push(refs.last().hash)
        } else {
            before
        }
    }
}

/// The sources without what one of them names of a list of servers.
pub open spec fn without_refs(
    style: PathStyle,
    refs: Seq<RefView>,
    root: Seq<char>,
    provider: MCPProvider,
    hashes: Seq<u64>,
) -> Seq<RefView>
    decreases refs.len(),
{
    if refs.len() == 0 {
        Seq::empty()
    } else {
        let before = without_refs(style, refs.drop_last(), root, provider, hashes);
        if of_source(style, refs.last(), root, provider) && hashes.contains(refs.last().hash) {
            before
        } else {
            before.push(refs.last())
        }
    }
}

/// The numbers of the first list that the second does not hold.
pub open spec fn difference(a: Seq<u64>, b: Seq<u64>) -> Seq<u64>
    decreases a.len(),
{
    if a.len() == 0 {
        Seq::empty()
    } else {
        let before = difference(a.drop_last(), b);
        if b.contains(a.last()) {
            before
        } else {
            before.push(a.last())
        }
    }
}

/// The first server with a hash.
pub open spec fn server_with(servers: Seq<InstallView>, hash: u64) -> Option<InstallView>
    decreases servers.len(),
{
    if servers.len() == 0 {
        None
    } else if servers[0].hash == Some(hash) {
        Some(servers[0])
    } else {
        server_with(servers.skip(1), hash)
    }
}

/// The first server with an identifier.
pub open spec fn server_named(servers: Seq<InstallView>, uuid: u128) -> Option<InstallView>
    decreases servers.len(),
{
    if servers.len() == 0 {
        None
    } else if servers[0].uuid == uuid {
        Some(servers[0])
    } else {
        server_named(servers.skip(1), uuid)
    }
}

/// The servers without that of a hash.
pub open spec fn without_server(servers: Seq<InstallView>, hash: u64) -> Seq<InstallView>
    decreases servers.len(),
{
    if servers.len() == 0 {
        Seq::empty()
    } else {
        let before = without_server(servers.drop_last(), hash);
        if servers.last().hash == Some(hash) {
            before
        } else {
            before.push(servers.last())
        }
    }
}

/// The configuration files without that of a source.
pub open spec fn without_config(
    style: PathStyle,
    paths: Seq<ConfigPathView>,
    root: Seq<char>,
    provider: MCPProvider,
) -> Seq<ConfigPathView>
    decreases paths.len(),
{
    if paths.len() == 0 {
        Seq::empty()
    } else {
        let before = without_config(style, paths.drop_last(), root, provider);
        let last = paths.last();
        if components(style, last.root) == components(style, root) && last.provider == provider {
            before
        } else {
            before.push(last)
        }
    }
}

/// The configuration files with that of a source.
pub open spec fn with_config(
    style: PathStyle,
    paths: Seq<ConfigPathView>,
    root: Seq<char>,
    provider: MCPProvider,
    path: Seq<char>,
) -> Seq<ConfigPathView> {
    without_config(style, paths, root, provider).push(ConfigPathView { root, provider, path })
}

/// The configuration file of a source.
pub open spec fn config_at(
    style: PathStyle,
    paths: Seq<ConfigPathView>,
    root: Seq<char>,
    provider: MCPProvider,
) -> Option<Seq<char>>
    decreases paths.len(),
{
    if paths.len() == 0 {
        None
    } else if components(
        style,
        paths[0].root,
    ) == components(style, root) && paths[0].provider == provider {
        Some(paths[0].path)
    } else {
        config_at(style, paths.skip(1), root, provider)
    }
}

/// The started servers without those of a source.
pub open spec fn without_pending(
    style: PathStyle,
    pending: Seq<PendingView>,
    root: Seq<char>,
    provider: MCPProvider,
) -> Seq<PendingView>
    decreases pending.len(),
{
    if pending.len() == 0 {
        Seq::empty()
    } else {
        let before = without_pending(style, pending.drop_last(), root, provider);
        let last = pending.last();
        if components(style, last.root) == components(style, root) && last.provider == provider {
            before
        } else {
            before.push(last)
        }
    }
}

/// The started servers with one of a source, unless it is there.
pub open spec fn with_pending(
    pending: Seq<PendingView>,
    root: Seq<char>,
    provider: MCPProvider,
    uuids: Seq<u128>,
) -> Seq<PendingView>
    decreases uuids.len(),
{
    if uuids.len() == 0 {
        pending
    } else {
        let before = with_pending(pending, root, provider, uuids.drop_last());
        if uuids.drop_last().contains(uuids.last()) {
            before
        } else {
            before.push(PendingView { root, provider, uuid: uuids.last() })
        }
    }
}

/// The started servers without those of a root.
pub open spec fn without_pending_root(
    style: PathStyle,
    pending: Seq<PendingView>,
    root: Seq<char>,
) -> Seq<PendingView>
    decreases pending.len(),
{
    if pending.len() == 0 {
        Seq::empty()
    } else {
        let before = without_pending_root(style, pending.drop_last(), root);
        if components(style, pending.last().root) == components(style, root) {
            before
        } else {
            before.push(pending.last())
        }
    }
}

/// The servers that were started for a root.
pub open spec fn pending_of_root(
    style: PathStyle,
    pending: Seq<PendingView>,
    root: Seq<char>,
) -> Seq<u128>
    decreases pending.len(),
{
    if pending.len() == 0 {
        Seq::empty()
    } else {
        let before = pending_of_root(style, pending.drop_last(), root);
        if components(style, pending.last().root) == components(style, root) {
            before.push(pending.last().uuid)
        } else {
            before
        }
    }
}

/// The identifiers without one of them.
pub open spec fn without_id(ids: Seq<u128>, id: u128) -> Seq<u128>
    decreases ids.len(),
{
    if ids.len() == 0 {
        Seq::empty()
    } else {
        let before = without_id(ids.drop_last(), id);
        if ids.last() == id {
            before
        } else {
            before.push(ids.last())
        }
    }
}

/// The identifiers with one more, unless it is there.
pub open spec fn with_id(ids: Seq<u128>, id: u128) -> Seq<u128> {
    if ids.contains(id) {
        ids
    } else {
        ids.push(id)
    }
}

/// The order of identifiers, which is that of their texts.
pub open spec fn id_order() -> spec_fn(u128, u128) -> bool {
    |a: u128, b: u128| a < b
}

/// The name comes from the terminal's own configuration.
pub open spec fn is_warp_ref(style: PathStyle, env: McpEnvironment, r: RefView) -> bool {
    r.provider == MCPProvider::Warp && is_warp_root(style, env, r.root)
}

/// The name comes from a configuration that belongs to no project.
pub open spec fn is_global_ref(style: PathStyle, env: McpEnvironment, r: RefView) -> bool {
    if r.provider == MCPProvider::Warp {
        is_warp_root(style, env, r.root)
    } else {
        is_home(style, env, r.root)
    }
}

/// The terminal's own configuration names the server.
pub open spec fn is_global_warp(
    style: PathStyle,
    env: McpEnvironment,
    refs: Seq<RefView>,
    hash: u64,
) -> bool {
    exists|i: int|
        0 <= i < refs.len() && (#[trigger] refs[i]).hash == hash && is_warp_ref(style, env, refs[i])
}

/// A configuration that belongs to no project names the server.
pub open spec fn is_global(
    style: PathStyle,
    env: McpEnvironment,
    refs: Seq<RefView>,
    hash: u64,
) -> bool {
    exists|i: int|
        0 <= i < refs.len() && (#[trigger] refs[i]).hash == hash && is_global_ref(
            style,
            env,
            refs[i],
        )
}

/// What kind of configuration names the server.
pub open spec fn server_type(
    style: PathStyle,
    env: McpEnvironment,
    refs: Seq<RefView>,
    hash: u64,
) -> FileBasedMCPServerType {
    if is_global_warp(style, env, refs, hash) {
        FileBasedMCPServerType::GlobalWarp
    } else if is_global(style, env, refs, hash) {
        FileBasedMCPServerType::GlobalThirdParty
    } else {
        FileBasedMCPServerType::ProjectScoped
    }
}

/// The server is started without being asked for: always where the terminal's own configuration
/// names it, and of other configurations outside projects where that is enabled.
pub open spec fn starts_by_itself(
    style: PathStyle,
    env: McpEnvironment,
    refs: Seq<RefView>,
    hash: u64,
    enabled: bool,
) -> bool {
    match server_type(style, env, refs, hash) {
        FileBasedMCPServerType::GlobalWarp => true,
        FileBasedMCPServerType::GlobalThirdParty => enabled,
        FileBasedMCPServerType::ProjectScoped => false,
    }
}

/// Of a list of servers those that are to be started: by themselves, or because the user activated
/// them.
pub open spec fn servers_to_start(
    style: PathStyle,
    env: McpEnvironment,
    refs: Seq<RefView>,
    activated: Seq<u128>,
    enabled: bool,
    servers: Seq<InstallView>,
) -> Seq<InstallView>
    decreases servers.len(),
{
    if servers.len() == 0 {
        Seq::empty()
    } else {
        let before = servers_to_start(style, env, refs, activated, enabled, servers.drop_last());
        let last = servers.last();
        if last.hash is Some && (starts_by_itself(style, env, refs, last.hash->0, enabled)
            || activated.contains(last.uuid)) {
            before.push(last)
        } else {
            before
        }
    }
}

/// The identifiers of servers.
pub open spec fn ids_of(servers: Seq<InstallView>) -> Seq<u128> {
    servers.map_values(|i: InstallView| i.uuid)
}

/// What reading a configuration has come to.
pub struct ScanView {
    pub servers: Seq<InstallView>,
    pub refs: Seq<RefView>,
    pub fresh: Seq<InstallView>,
    pub scanned: Seq<u64>,
}

/// The servers that a configuration names are taken up. One that is not known yet is fresh; one
/// without a hash is passed over.
pub open spec fn scanned(
    style: PathStyle,
    start: ScanView,
    root: Seq<char>,
    provider: MCPProvider,
    parsed: Seq<Option<InstallView>>,
) -> ScanView
    decreases parsed.len(),
{
    if parsed.len() == 0 {
        start
    } else {
        let before = scanned(style, start, root, provider, parsed.drop_last());
        match parsed.last() {
            Some(installation) => match installation.hash {
                Some(hash) => {
                    let known = server_with(before.servers, hash) is Some;
                    ScanView {
                        servers: if known {
                            before.servers
                        } else {
                            before.servers.push(installation)
                        },
                        refs: with_ref(style, before.refs, RefView { root, provider, hash }),
                        fresh: if known {
                            before.fresh
                        } else {
                            before.fresh.push(installation)
                        },
                        scanned: before.scanned.push(hash),
                    }
                },
                None => before,
            },
            None => before,
        }
    }
}

/// The servers of a list of hashes that no source names are taken away.
pub open spec fn orphans_removed(
    servers: Seq<InstallView>,
    refs: Seq<RefView>,
    hashes: Seq<u64>,
) -> (Seq<InstallView>, Seq<InstallView>)
    decreases hashes.len(),
{
    if hashes.len() == 0 {
        (servers, Seq::empty())
    } else {
        let (kept, removed) = orphans_removed(servers, refs, hashes.drop_last());
        let hash = hashes.last();
        match server_with(kept, hash) {
            Some(server) => if is_referenced(refs, hash) {
                (kept, removed)
            } else {
                (without_server(kept, hash), removed.push(server))
            },
            None => (kept, removed),
        }
    }
}

/// The identifiers without those of servers.
pub open spec fn without_servers(ids: Seq<u128>, servers: Seq<InstallView>) -> Seq<u128>
    decreases servers.len(),
{
    if servers.len() == 0 {
        ids
    } else {
        without_id(without_servers(ids, servers.drop_last()), servers.last().uuid)
    }
}

/// It is noted of each server that it is not activated.
pub open spec fn deactivations(servers: Seq<InstallView>) -> Seq<McpEffectView> {
    servers.map_values(|i: InstallView| McpEffectView::Persist { uuid: i.uuid, active: false })
}

/// The hashes of servers.
pub open spec fn hashes_in(servers: Seq<InstallView>) -> Seq<u64>
    decreases servers.len(),
{
    if servers.len() == 0 {
        Seq::empty()
    } else {
        match servers.last().hash {
            Some(hash) => hashes_in(servers.drop_last()).push(hash),
            None => hashes_in(servers.drop_last()),
        }
    }
}

/// One provider alone.
pub open spec fn only(provider: MCPProvider) -> spec_fn(MCPProvider) -> bool {
    |p: MCPProvider| p == provider
}

/// The roots of the sources that name a server, of one provider, or of all but the terminal's own,
/// or of all.
pub open spec fn roots_naming(
    style: PathStyle,
    refs: Seq<RefView>,
    hash: u64,
    wanted: spec_fn(MCPProvider) -> bool,
) -> Seq<Seq<char>>
    decreases refs.len(),
{
    if refs.len() == 0 {
        Seq::empty()
    } else {
        let before = roots_naming(style, refs.drop_last(), hash, wanted);
        if refs.last().hash == hash && wanted(refs.last().provider) {
            with_path(style, before, refs.last().root)
        } else {
            before
        }
    }
}

/// The servers that the sources of a root name.
pub open spec fn servers_at(
    style: PathStyle,
    servers: Seq<InstallView>,
    refs: Seq<RefView>,
    root: Seq<char>,
) -> Seq<
    InstallView,
>
    decreases refs.len(),
{
    if refs.len() == 0 {
        Seq::empty()
    } else {
        let before = servers_at(style, servers, refs.drop_last(), root);
        let last = refs.last();
        match server_with(servers, last.hash) {
            Some(server) => if components(style, last.root) == components(style, root) {
                before.push(server)
            } else {
                before
            },
            None => before,
        }
    }
}

/// The servers that a scan of a repository found.
pub open spec fn detected_at(
    style: PathStyle,
    env: McpEnvironment,
    servers: Seq<InstallView>,
    all: Seq<RefView>,
    refs: Seq<RefView>,
    root: Seq<char>,
    enabled: bool,
) -> Seq<ScanServerView>
    decreases refs.len(),
{
    if refs.len() == 0 {
        Seq::empty()
    } else {
        let before = detected_at(style, env, servers, all, refs.drop_last(), root, enabled);
        let last = refs.last();
        match server_with(servers, last.hash) {
            Some(server) => if components(style, last.root) == components(style, root) {
                before.push(
                    ScanServerView {
                        uuid: server.uuid,
                        name: server.name,
                        provider: last.provider,
                        hash: last.hash,
                        auto_start_eligible: starts_by_itself(style, env, all, last.hash, enabled),
                    },
                )
            } else {
                before
            },
            None => before,
        }
    }
}

/// The servers that only configurations of others outside projects name.
pub open spec fn third_party_servers(
    style: PathStyle,
    env: McpEnvironment,
    refs: Seq<RefView>,
    servers: Seq<InstallView>,
) -> Seq<InstallView>
    decreases servers.len(),
{
    if servers.len() == 0 {
        Seq::empty()
    } else {
        let before = third_party_servers(style, env, refs, servers.drop_last());
        let last = servers.last();
        if last.hash is Some && server_type(style, env, refs, last.hash->0)
            == FileBasedMCPServerType::GlobalThirdParty {
            before.push(last)
        } else {
            before
        }
    }
}

/// The configuration files of sources, given or by default.
pub open spec fn config_paths_at(
    style: PathStyle,
    env: McpEnvironment,
    paths: Seq<ConfigPathView>,
    roots: Seq<Seq<char>>,
    provider: MCPProvider,
) -> Seq<Seq<char>> {
    roots.map_values(
        |root: Seq<char>|
            match config_at(style, paths, root, provider) {
                Some(path) => path,
                None => default_config_path(style, env, root, provider),
            },
    )
}

/// The copies of an installation that are asked for: one below each root.
pub open spec fn copies_asked(
    style: PathStyle,
    env: McpEnvironment,
    installation: InstallView,
    roots: Seq<Seq<char>>,
) -> Seq<McpEffectView> {
    roots.map_values(
        |root: Seq<char>|
            McpEffectView::CopyToConfig {
                installation,
                root,
                config_path: default_config_path(style, env, root, MCPProvider::Warp),
            },
    )
}

impl RegistryView {
    /// The hash of the server with an identifier.
    pub open spec fn hash_of(self, uuid: u128) -> Option<u64> {
        match server_named(self.servers, uuid) {
            Some(server) => server.hash,
            None => None,
        }
    }

    /// Servers that no source names any more are forgotten.
    pub open spec fn orphans_forgotten(self, hashes: Seq<u64>) -> (
        RegistryView,
        Seq<McpEffectView>,
    ) {
        let (kept, removed) = orphans_removed(self.servers, self.refs, hashes);
        (
            RegistryView {
                servers: kept,
                activated: without_servers(self.activated, removed),
                ..self
            },
            if removed.len() == 0 {
                Seq::empty()
            } else {
                deactivations(removed).push(
                    McpEffectView::DespawnServers { uuids: ids_of(removed) },
                ).push(McpEffectView::PurgeCredentials { hashes: hashes_in(removed) })
            },
        )
    }

    /// The configuration of a source was read.
    pub open spec fn config_read(
        self,
        env: McpEnvironment,
        enabled: bool,
        root: Seq<char>,
        provider: MCPProvider,
        config_path: Seq<char>,
        parsed: Seq<Option<InstallView>>,
    ) -> (RegistryView, Seq<McpEffectView>) {
        let previous = hashes_of(self.path_style, self.refs, root, provider);
        let scan = scanned(
            self.path_style,
            ScanView {
                servers: self.servers,
                refs: self.refs,
                fresh: Seq::empty(),
                scanned: Seq::empty(),
            },
            root,
            provider,
            parsed,
        );
        let started = servers_to_start(
            self.path_style,
            env,
            scan.refs,
            self.activated,
            enabled,
            scan.fresh,
        );
        let gone = difference(previous, scan.scanned);
        let refs = without_refs(self.path_style, scan.refs, root, provider, gone);
        let paths = with_config(self.path_style, self.config_paths, root, provider, config_path);
        let (next, effects) = RegistryView {
            servers: scan.servers,
            refs,
            config_paths: if has_source(self.path_style, refs, root, provider) {
                paths
            } else {
                without_config(self.path_style, paths, root, provider)
            },
            pending: with_pending(
                without_pending(self.path_style, self.pending, root, provider),
                root,
                provider,
                ids_of(started),
            ),
            activated: self.activated,
            path_style: self.path_style,
        }.orphans_forgotten(gone);
        (
            next,
            (if started.len() == 0 {
                Seq::empty()
            } else {
                seq![McpEffectView::SpawnServers { installations: started }]
            }) + effects,
        )
    }

    /// The configuration of a source was removed.
    pub open spec fn config_gone(
        self,
        root: Seq<char>,
        provider: MCPProvider,
        config_path: Seq<char>,
    ) -> (RegistryView, Seq<McpEffectView>) {
        let hashes = hashes_of(self.path_style, self.refs, root, provider);
        let stored = config_at(self.path_style, self.config_paths, root, provider);
        RegistryView {
            refs: without_refs(self.path_style, self.refs, root, provider, hashes),
            config_paths: if stored is Some && components(self.path_style, stored->0) == components(
                self.path_style,
                config_path,
            ) {
                without_config(self.path_style, self.config_paths, root, provider)
            } else {
                self.config_paths
            },
            ..self
        }.orphans_forgotten(hashes)
    }

    /// The scan of a repository is complete.
    pub open spec fn scan_complete(
        self,
        env: McpEnvironment,
        enabled: bool,
        repo_path: Seq<char>,
    ) -> (RegistryView, Seq<McpEffectView>) {
        (
            RegistryView { pending: without_pending_root(
                self.path_style,
                self.pending,
                repo_path,
            ), ..self },
            seq![
                McpEffectView::CloudEnvMcpScanComplete {
                    repo_path,
                    detected: detected_at(
                        self.path_style,
                        env,
                        self.servers,
                        self.refs,
                        self.refs,
                        repo_path,
                        enabled,
                    ),
                    wait_for: sorted_by(
                        pending_of_root(self.path_style, self.pending, repo_path),
                        id_order(),
                    ),
                },
            ],
        )
    }

    /// What is told where servers of others are enabled, or no longer are.
    pub open spec fn toggled(self, env: McpEnvironment, enabled: bool) -> McpEffectView {
        let servers = third_party_servers(self.path_style, env, self.refs, self.servers);
        if enabled {
            McpEffectView::SpawnServers { installations: servers }
        } else {
            McpEffectView::DespawnServers { uuids: ids_of(servers) }
        }
    }

    /// The roots of others' configurations that name a server.
    pub open spec fn external_roots(self, uuid: u128) -> Seq<Seq<char>> {
        match self.hash_of(uuid) {
            Some(hash) => sorted_by(
                roots_naming(
                    self.path_style,
                    self.refs,
                    hash,
                    |p: MCPProvider| p != MCPProvider::Warp,
                ),
                path_order(self.path_style),
            ),
            None => Seq::empty(),
        }
    }

    /// The user activates a server, or no longer wants it. With `copy` it is added to the
    /// terminal's own configuration below each root where others' configurations name it.
    pub open spec fn activation_set(
        self,
        env: McpEnvironment,
        uuid: u128,
        active: bool,
        copy: bool,
    ) -> (RegistryView, Seq<McpEffectView>) {
        if !active {
            (
                RegistryView { activated: without_id(self.activated, uuid), ..self },
                seq![
                    McpEffectView::Persist { uuid, active: false },
                    McpEffectView::DespawnServers { uuids: seq![uuid] },
                ],
            )
        } else {
            match server_named(self.servers, uuid) {
                None => (self, Seq::empty()),
                Some(installation) => (
                    RegistryView { activated: with_id(self.activated, uuid), ..self },
                    (if copy {
                        copies_asked(self.path_style, env, installation, self.external_roots(uuid))
                    } else {
                        Seq::empty()
                    }) + seq![
                        McpEffectView::Persist { uuid, active: true },
                        McpEffectView::SpawnServers { installations: seq![installation] },
                    ],
                ),
            }
        }
    }

    /// A server was added to the terminal's own configuration below a root.
    pub open spec fn copied(
        self,
        root: Seq<char>,
        config_path: Seq<char>,
        installation: InstallView,
    ) -> RegistryView {
        match installation.hash {
            None => self,
            Some(hash) => RegistryView {
                servers: if server_with(self.servers, hash) is Some {
                    self.servers
                } else {
                    self.servers.push(installation)
                },
                refs: with_ref(
                    self.path_style,
                    self.refs,
                    RefView { root, provider: MCPProvider::Warp, hash },
                ),
                config_paths: with_config(
                    self.path_style,
                    self.config_paths,
                    root,
                    MCPProvider::Warp,
                    config_path,
                ),
                ..self
            },
        }
    }

    /// The roots of the configurations of a provider that name a server.
    pub open spec fn directories(self, uuid: u128, provider: MCPProvider) -> Seq<Seq<char>> {
        match self.hash_of(uuid) {
            Some(hash) => sorted_by(
                roots_naming(self.path_style, self.refs, hash, only(provider)),
                path_order(self.path_style),
            ),
            None => Seq::empty(),
        }
    }

    /// The directory in which a server is started: the first root that names it, but the home
    /// directory where the terminal's own configuration does.
    pub open spec fn spawn_root(self, env: McpEnvironment, uuid: u128) -> Option<Seq<char>> {
        match self.hash_of(uuid) {
            None => None,
            Some(hash) => {
                let roots = sorted_by(
                    roots_naming(self.path_style, self.refs, hash, |p: MCPProvider| true),
                    path_order(self.path_style),
                );
                if roots.len() == 0 {
                    None
                } else if is_global_warp(
                    self.path_style,
                    env,
                    self.refs,
                    hash,
                ) && env.home_dir is Some {
                    Some(env.home_dir->0@)
                } else {
                    Some(roots[0])
                }
            },
        }
    }

    /// The servers that apply in a working directory: those of the home directory and those of
    /// the repository.
    pub open spec fn servers_for(
        self,
        home_dir: Option<Seq<char>>,
        repo_root: Option<Seq<char>>,
    ) -> Seq<InstallView> {
        (match home_dir {
            Some(home) => servers_at(self.path_style, self.servers, self.refs, home),
            None => Seq::empty(),
        }) + (match repo_root {
            Some(repo) => servers_at(self.path_style, self.servers, self.refs, repo),
            None => Seq::empty(),
        })
    }
}

} // verus!
