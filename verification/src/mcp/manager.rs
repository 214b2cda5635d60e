//! The manager of the servers that configuration files name.
use crate::mcp::registry::{
    ConfigPathView, FileBasedMCPServerType, InstallView, MCPProvider, McpEffectView, McpEnvironment,
    PendingView, ProviderPaths, RefView, RegistryView, ScanServerView, ScanView,
    TemplatableMCPServerInstallation, config_at, config_paths_at, copies_asked, deactivations,
    default_config_path, detected_at, difference, has_ref, has_source, hashes_in, hashes_of,
    id_order, ids_of, install_views, is_global, is_global_ref, is_global_warp, is_home,
    is_referenced, is_warp_ref, is_warp_root, of_source, only, orphans_removed, pending_of_root,
    provider_paths, roots_naming, scanned, server_named, server_type, server_with, servers_at,
    servers_to_start, starts_by_itself, third_party_servers, with_config, with_pending, with_ref,
    without_config, without_id, without_pending, without_pending_root, without_refs, without_server,
    without_servers,
};
use crate::ordered::{Ranked, models, sorted_by, stable_sort};
use crate::path::{
    PathStyle, add_path, dedupe_paths, distinct_paths, join_path, path_order, same_path, sort_paths,
};
use crate::text::{opt_str_view, opt_view, views};
use vstd::prelude::*;

verus! {

/// Whether activating a server also adds it to the terminal's own configuration.
#[derive(Clone, Copy, Debug, PartialEq, Eq, Structural)]
pub enum FileBasedMCPActivationMode {
    ReferenceOnly,
    CopyToWarpConfig,
}

/// A server is named by the configuration of a provider for a root.
#[derive(Debug, PartialEq, Eq)]
struct McpRef {
    root: String,
    provider: MCPProvider,
    hash: u64,
}

/// The configuration file of a provider for a root.
#[derive(Debug, PartialEq, Eq)]
struct McpConfigPath {
    root: String,
    provider: MCPProvider,
    path: String,
}

/// A server that was started while the configuration of a provider for a root was read.
#[derive(Debug, PartialEq, Eq)]
struct McpPending {
    root: String,
    provider: MCPProvider,
    uuid: u128,
}

impl McpRef {
    pub closed spec fn view(&self) -> RefView {
        RefView { root: self.root@, provider: self.provider, hash: self.hash }
    }
}

impl Clone for McpRef {
    fn clone(&self) -> (r: Self)
        ensures
            r@ == self@,
    {
        McpRef { root: self.root.clone(), provider: self.provider, hash: self.hash }
    }
}

impl McpConfigPath {
    pub closed spec fn view(&self) -> ConfigPathView {
        ConfigPathView { root: self.root@, provider: self.provider, path: self.path@ }
    }
}

impl Clone for McpConfigPath {
    fn clone(&self) -> (r: Self)
        ensures
            r@ == self@,
    {
        McpConfigPath { root: self.root.clone(), provider: self.provider, path: self.path.clone() }
    }
}

impl McpPending {
    pub closed spec fn view(&self) -> PendingView {
        PendingView { root: self.root@, provider: self.provider, uuid: self.uuid }
    }
}

impl Clone for McpPending {
    fn clone(&self) -> (r: Self)
        ensures
            r@ == self@,
    {
        McpPending { root: self.root.clone(), provider: self.provider, uuid: self.uuid }
    }
}

spec fn ref_views(items: Seq<McpRef>) -> Seq<RefView> {
    items.map_values(|x: McpRef| x@)
}

spec fn config_path_views(items: Seq<McpConfigPath>) -> Seq<ConfigPathView> {
    items.map_values(|x: McpConfigPath| x@)
}

spec fn pending_views(items: Seq<McpPending>) -> Seq<PendingView> {
    items.map_values(|x: McpPending| x@)
}

/// A server that a scan of a repository found.
#[derive(Debug, PartialEq, Eq)]
pub struct CloudEnvMcpScanServer {
    pub uuid: u128,
    pub name: String,
    pub provider: MCPProvider,
    pub hash: u64,
    pub auto_start_eligible: bool,
}

impl CloudEnvMcpScanServer {
    pub open spec fn view(&self) -> ScanServerView {
        ScanServerView {
            uuid: self.uuid,
            name: self.name@,
            provider: self.provider,
            hash: self.hash,
            auto_start_eligible: self.auto_start_eligible,
        }
    }
}

/// The models of a list of found servers.
pub open spec fn scan_views(servers: Seq<CloudEnvMcpScanServer>) -> Seq<ScanServerView> {
    servers.map_values(|s: CloudEnvMcpScanServer| s@)
}

/// What the manager tells those who watch it.
#[derive(Debug, PartialEq, Eq)]
pub enum FileBasedMCPManagerEvent {
    SpawnServers { installations: Vec<TemplatableMCPServerInstallation> },
    DespawnServers { installation_uuids: Vec<u128> },
    PurgeCredentials { installation_hashes: Vec<u64> },
    CloudEnvMcpScanComplete {
        repo_path: String,
        detected_servers: Vec<CloudEnvMcpScanServer>,
        wait_server_uuids: Vec<u128>,
    },
}

/// What the manager asks of its surroundings.
#[derive(Debug, PartialEq, Eq)]
pub enum FileBasedMCPEffect {
    /// Note that a server is activated, or that it is not.
    PersistActivation { installation_uuid: u128, active: bool },
    /// Add a server to a configuration file of the terminal.
    CopyToWarpConfig {
        installation: TemplatableMCPServerInstallation,
        root_path: String,
        config_path: String,
    },
    Emit { event: FileBasedMCPManagerEvent },
}

impl FileBasedMCPManagerEvent {
    pub open spec fn view(&self) -> McpEffectView {
        match self {
            FileBasedMCPManagerEvent::SpawnServers { installations } => {
                McpEffectView::SpawnServers { installations: install_views(installations@) }
            },
            FileBasedMCPManagerEvent::DespawnServers { installation_uuids } => {
                McpEffectView::DespawnServers { uuids: installation_uuids@ }
            },
            FileBasedMCPManagerEvent::PurgeCredentials { installation_hashes } => {
                McpEffectView::PurgeCredentials { hashes: installation_hashes@ }
            },
            FileBasedMCPManagerEvent::CloudEnvMcpScanComplete {
                repo_path,
                detected_servers,
                wait_server_uuids,
            } => McpEffectView::CloudEnvMcpScanComplete {
                repo_path: repo_path@,
                detected: scan_views(detected_servers@),
                wait_for: wait_server_uuids@,
            },
        }
    }
}

impl FileBasedMCPEffect {
    pub open spec fn view(&self) -> McpEffectView {
        match self {
            FileBasedMCPEffect::PersistActivation { installation_uuid, active } => {
                McpEffectView::Persist { uuid: *installation_uuid, active: *active }
            },
            FileBasedMCPEffect::CopyToWarpConfig { installation, root_path, config_path } => {
                McpEffectView::CopyToConfig {
                    installation: installation@,
                    root: root_path@,
                    config_path: config_path@,
                }
            },
            FileBasedMCPEffect::Emit { event } => event@,
        }
    }
}

/// The models of a list of effects.
pub open spec fn mcp_effects(effects: Seq<FileBasedMCPEffect>) -> Seq<McpEffectView> {
    effects.map_values(|e: FileBasedMCPEffect| e@)
}

fn push_mcp_effect(effects: &mut Vec<FileBasedMCPEffect>, effect: FileBasedMCPEffect)
    ensures
        mcp_effects(final(effects)@) == mcp_effects(old(effects)@).push(effect@),
{
    let ghost before = mcp_effects(effects@);
    effects.push(effect);
    assert(mcp_effects(effects@) =~= before.push(effect@));
}

fn push_mcp_event(effects: &mut Vec<FileBasedMCPEffect>, event: FileBasedMCPManagerEvent)
    ensures
        mcp_effects(final(effects)@) == mcp_effects(old(effects)@).push(event@),
{
    push_mcp_effect(effects, FileBasedMCPEffect::Emit { event });
}

fn has_hash(hashes: &Vec<u64>, hash: u64) -> (r: bool)
    ensures
        r == hashes@.contains(hash),
{
    let mut i: usize = 0;
    while i < hashes.len()
        invariant
            i <= hashes@.len(),
            forall|j: int| 0 <= j < i ==> hashes@[j] != hash,
        decreases hashes@.len() - i,
    {
        if hashes[i] == hash {
            return true;
        }
        i = i + 1;
    }
    false
}

fn has_id(ids: &Vec<u128>, id: u128) -> (r: bool)
    ensures
        r == ids@.contains(id),
{
    let mut i: usize = 0;
    while i < ids.len()
        invariant
            i <= ids@.len(),
            forall|j: int| 0 <= j < i ==> ids@[j] != id,
        decreases ids@.len() - i,
    {
        if ids[i] == id {
            return true;
        }
        i = i + 1;
    }
    false
}

fn is_of_source(style: PathStyle, item: &McpRef, root: &str, provider: MCPProvider) -> (r: bool)
    ensures
        r == of_source(style, item@, root@, provider),
{
    item.provider == provider && same_path(style, item.root.as_str(), root)
}

fn drop_refs(
    style: PathStyle,
    items: &Vec<McpRef>,
    root: &str,
    provider: MCPProvider,
    hashes: &Vec<u64>,
) -> (r: Vec<McpRef>)
    ensures
        ref_views(r@) == without_refs(style, ref_views(items@), root@, provider, hashes@),
{
    let ghost all = ref_views(items@);
    let mut r: Vec<McpRef> = Vec::new();
    let mut i: usize = 0;
    assert(ref_views(r@) =~= without_refs(style, all.take(0), root@, provider, hashes@));
    while i < items.len()
        invariant
            i <= items@.len(),
            all == ref_views(items@),
            ref_views(r@) == without_refs(style, all.take(i as int), root@, provider, hashes@),
        decreases items@.len() - i,
    {
        let ghost done = ref_views(r@);
        proof {
            assert(all.take(i as int + 1).drop_last() =~= all.take(i as int));
            assert(all.take(i as int + 1).last() == items@[i as int]@);
        }
        if !(is_of_source(style, &items[i], root, provider) && has_hash(hashes, items[i].hash)) {
            r.push(items[i].clone());
            assert(ref_views(r@) =~= done.push(items@[i as int]@));
        }
        i = i + 1;
    }
    assert(all.take(i as int) =~= all);
    r
}

fn drop_server(
    items: &Vec<TemplatableMCPServerInstallation>,
    hash: u64,
) -> (r: Vec<TemplatableMCPServerInstallation>)
    ensures
        install_views(r@) == without_server(install_views(items@), hash),
{
    let ghost all = install_views(items@);
    let mut r: Vec<TemplatableMCPServerInstallation> = Vec::new();
    let mut i: usize = 0;
    assert(install_views(r@) =~= without_server(all.take(0), hash));
    while i < items.len()
        invariant
            i <= items@.len(),
            all == install_views(items@),
            install_views(r@) == without_server(all.take(i as int), hash),
        decreases items@.len() - i,
    {
        let ghost done = install_views(r@);
        proof {
            assert(all.take(i as int + 1).drop_last() =~= all.take(i as int));
            assert(all.take(i as int + 1).last() == items@[i as int]@);
        }
        if items[i].hash != Some(hash) {
            r.push(items[i].clone());
            assert(install_views(r@) =~= done.push(items@[i as int]@));
        }
        i = i + 1;
    }
    assert(all.take(i as int) =~= all);
    r
}

fn drop_config(
    style: PathStyle,
    items: &Vec<McpConfigPath>,
    root: &str,
    provider: MCPProvider,
) -> (r: Vec<McpConfigPath>)
    ensures
        config_path_views(r@) == without_config(style, config_path_views(items@), root@, provider),
{
    let ghost all = config_path_views(items@);
    let mut r: Vec<McpConfigPath> = Vec::new();
    let mut i: usize = 0;
    assert(config_path_views(r@) =~= without_config(style, all.take(0), root@, provider));
    while i < items.len()
        invariant
            i <= items@.len(),
            all == config_path_views(items@),
            config_path_views(r@) == without_config(style, all.take(i as int), root@, provider),
        decreases items@.len() - i,
    {
        let ghost done = config_path_views(r@);
        proof {
            assert(all.take(i as int + 1).drop_last() =~= all.take(i as int));
            assert(all.take(i as int + 1).last() == items@[i as int]@);
        }
        if !(items[i].provider == provider && same_path(style, items[i].root.as_str(), root)) {
            r.push(items[i].clone());
            assert(config_path_views(r@) =~= done.push(items@[i as int]@));
        }
        i = i + 1;
    }
    assert(all.take(i as int) =~= all);
    r
}

fn drop_pending(
    style: PathStyle,
    items: &Vec<McpPending>,
    root: &str,
    provider: MCPProvider,
) -> (r: Vec<McpPending>)
    ensures
        pending_views(r@) == without_pending(style, pending_views(items@), root@, provider),
{
    let ghost all = pending_views(items@);
    let mut r: Vec<McpPending> = Vec::new();
    let mut i: usize = 0;
    assert(pending_views(r@) =~= without_pending(style, all.take(0), root@, provider));
    while i < items.len()
        invariant
            i <= items@.len(),
            all == pending_views(items@),
            pending_views(r@) == without_pending(style, all.take(i as int), root@, provider),
        decreases items@.len() - i,
    {
        let ghost done = pending_views(r@);
        proof {
            assert(all.take(i as int + 1).drop_last() =~= all.take(i as int));
            assert(all.take(i as int + 1).last() == items@[i as int]@);
        }
        if !(items[i].provider == provider && same_path(style, items[i].root.as_str(), root)) {
            r.push(items[i].clone());
            assert(pending_views(r@) =~= done.push(items@[i as int]@));
        }
        i = i + 1;
    }
    assert(all.take(i as int) =~= all);
    r
}

fn drop_pending_root(style: PathStyle, items: &Vec<McpPending>, root: &str) -> (r: Vec<McpPending>)
    ensures
        pending_views(r@) == without_pending_root(style, pending_views(items@), root@),
{
    let ghost all = pending_views(items@);
    let mut r: Vec<McpPending> = Vec::new();
    let mut i: usize = 0;
    assert(pending_views(r@) =~= without_pending_root(style, all.take(0), root@));
    while i < items.len()
        invariant
            i <= items@.len(),
            all == pending_views(items@),
            pending_views(r@) == without_pending_root(style, all.take(i as int), root@),
        decreases items@.len() - i,
    {
        let ghost done = pending_views(r@);
        proof {
            assert(all.take(i as int + 1).drop_last() =~= all.take(i as int));
            assert(all.take(i as int + 1).last() == items@[i as int]@);
        }
        if !same_path(style, items[i].root.as_str(), root) {
            r.push(items[i].clone());
            assert(pending_views(r@) =~= done.push(items@[i as int]@));
        }
        i = i + 1;
    }
    assert(all.take(i as int) =~= all);
    r
}

fn drop_id(ids: &Vec<u128>, id: u128) -> (r: Vec<u128>)
    ensures
        r@ == without_id(ids@, id),
{
    let ghost all = ids@;
    let mut r: Vec<u128> = Vec::new();
    let mut i: usize = 0;
    assert(r@ =~= without_id(all.take(0), id));
    while i < ids.len()
        invariant
            i <= ids@.len(),
            all == ids@,
            r@ == without_id(all.take(i as int), id),
        decreases ids@.len() - i,
    {
        proof {
            assert(all.take(i as int + 1).drop_last() =~= all.take(i as int));
        }
        if ids[i] != id {
            r.push(ids[i]);
        }
        i = i + 1;
    }
    assert(all.take(i as int) =~= all);
    r
}

fn find_server(servers: &Vec<TemplatableMCPServerInstallation>, hash: u64) -> (r: Option<
    &TemplatableMCPServerInstallation,
>)
    ensures
        opt_install_view(r) == server_with(install_views(servers@), hash),
{
    let ghost all = install_views(servers@);
    let mut i: usize = 0;
    assert(all.skip(0) =~= all);
    while i < servers.len()
        invariant
            i <= servers@.len(),
            all == install_views(servers@),
            server_with(all, hash) == server_with(all.skip(i as int), hash),
        decreases servers@.len() - i,
    {
        assert(all.skip(i as int)[0] == servers@[i as int]@);
        assert(all.skip(i as int).skip(1) =~= all.skip(i as int + 1));
        if servers[i].hash == Some(hash) {
            return Some(&servers[i]);
        }
        i = i + 1;
    }
    None
}

/// The model of an optional installation.
pub open spec fn opt_install_view(
    installation: Option<&TemplatableMCPServerInstallation>
) -> Option<
    InstallView,
> {
    match installation {
        Some(installation) => Some(installation@),
        None => None,
    }
}

fn find_server_named(servers: &Vec<TemplatableMCPServerInstallation>, uuid: u128) -> (r: Option<
    &TemplatableMCPServerInstallation,
>)
    ensures
        opt_install_view(r) == server_named(install_views(servers@), uuid),
{
    let ghost all = install_views(servers@);
    let mut i: usize = 0;
    assert(all.skip(0) =~= all);
    while i < servers.len()
        invariant
            i <= servers@.len(),
            all == install_views(servers@),
            server_named(all, uuid) == server_named(all.skip(i as int), uuid),
        decreases servers@.len() - i,
    {
        assert(all.skip(i as int)[0] == servers@[i as int]@);
        assert(all.skip(i as int).skip(1) =~= all.skip(i as int + 1));
        if servers[i].uuid == uuid {
            return Some(&servers[i]);
        }
        i = i + 1;
    }
    None
}

fn find_hashes(
    style: PathStyle,
    items: &Vec<McpRef>,
    root: &str,
    provider: MCPProvider,
) -> (r: Vec<u64>)
    ensures
        r@ == hashes_of(style, ref_views(items@), root@, provider),
{
    let ghost all = ref_views(items@);
    let mut r: Vec<u64> = Vec::new();
    let mut i: usize = 0;
    assert(r@ =~= hashes_of(style, all.take(0), root@, provider));
    while i < items.len()
        invariant
            i <= items@.len(),
            all == ref_views(items@),
            r@ == hashes_of(style, all.take(i as int), root@, provider),
        decreases items@.len() - i,
    {
        proof {
            assert(all.take(i as int + 1).drop_last() =~= all.take(i as int));
            assert(all.take(i as int + 1).last() == items@[i as int]@);
        }
        if is_of_source(style, &items[i], root, provider) {
            r.push(items[i].hash);
        }
        i = i + 1;
    }
    assert(all.take(i as int) =~= all);
    r
}

fn names_server(
    style: PathStyle,
    items: &Vec<McpRef>,
    root: &str,
    provider: MCPProvider,
    hash: u64,
) -> (r: bool)
    ensures
        r == has_ref(style, ref_views(items@), root@, provider, hash),
{
    let ghost all = ref_views(items@);
    let mut i: usize = 0;
    while i < items.len()
        invariant
            i <= items@.len(),
            all == ref_views(items@),
            forall|j: int|
                0 <= j < i ==> !(of_source(style, #[trigger] all[j], root@, provider) && all[j].hash
                    == hash),
        decreases items@.len() - i,
    {
        assert(all[i as int] == items@[i as int]@);
        if items[i].hash == hash && is_of_source(style, &items[i], root, provider) {
            return true;
        }
        i = i + 1;
    }
    false
}

fn names_any(style: PathStyle, items: &Vec<McpRef>, root: &str, provider: MCPProvider) -> (r: bool)
    ensures
        r == has_source(style, ref_views(items@), root@, provider),
{
    let ghost all = ref_views(items@);
    let mut i: usize = 0;
    while i < items.len()
        invariant
            i <= items@.len(),
            all == ref_views(items@),
            forall|j: int| 0 <= j < i ==> !of_source(style, #[trigger] all[j], root@, provider),
        decreases items@.len() - i,
    {
        assert(all[i as int] == items@[i as int]@);
        if is_of_source(style, &items[i], root, provider) {
            return true;
        }
        i = i + 1;
    }
    false
}

fn is_named(items: &Vec<McpRef>, hash: u64) -> (r: bool)
    ensures
        r == is_referenced(ref_views(items@), hash),
{
    let ghost all = ref_views(items@);
    let mut i: usize = 0;
    while i < items.len()
        invariant
            i <= items@.len(),
            all == ref_views(items@),
            forall|j: int| 0 <= j < i ==> (#[trigger] all[j]).hash != hash,
        decreases items@.len() - i,
    {
        assert(all[i as int] == items@[i as int]@);
        if items[i].hash == hash {
            return true;
        }
        i = i + 1;
    }
    false
}

fn add_ref(style: PathStyle, items: &mut Vec<McpRef>, root: &str, provider: MCPProvider, hash: u64)
    ensures
        ref_views(final(items)@) == with_ref(
            style,
            ref_views(old(items)@),
            (RefView { root: root@, provider, hash }),
        ),
{
    let ghost before = ref_views(items@);
    if !names_server(style, items, root, provider, hash) {
        items.push(McpRef { root: root.to_owned(), provider, hash });
        assert(ref_views(items@) =~= before.push(RefView { root: root@, provider, hash }));
    }
}

fn subtract(a: &Vec<u64>, b: &Vec<u64>) -> (r: Vec<u64>)
    ensures
        r@ == difference(a@, b@),
{
    let ghost all = a@;
    let mut r: Vec<u64> = Vec::new();
    let mut i: usize = 0;
    assert(r@ =~= difference(all.take(0), b@));
    while i < a.len()
        invariant
            i <= a@.len(),
            all == a@,
            r@ == difference(all.take(i as int), b@),
        decreases a@.len() - i,
    {
        proof {
            assert(all.take(i as int + 1).drop_last() =~= all.take(i as int));
        }
        if !has_hash(b, a[i]) {
            r.push(a[i]);
        }
        i = i + 1;
    }
    assert(all.take(i as int) =~= all);
    r
}

fn find_config<'a>(
    style: PathStyle,
    items: &'a Vec<McpConfigPath>,
    root: &str,
    provider: MCPProvider,
) -> (r:
    Option<&'a str>)
    ensures
        opt_str_view(r) == config_at(style, config_path_views(items@), root@, provider),
{
    let ghost all = config_path_views(items@);
    let mut i: usize = 0;
    assert(all.skip(0) =~= all);
    while i < items.len()
        invariant
            i <= items@.len(),
            all == config_path_views(items@),
            config_at(style, all, root@, provider) == config_at(
                style,
                all.skip(i as int),
                root@,
                provider,
            ),
        decreases items@.len() - i,
    {
        assert(all.skip(i as int)[0] == items@[i as int]@);
        assert(all.skip(i as int).skip(1) =~= all.skip(i as int + 1));
        if items[i].provider == provider && same_path(style, items[i].root.as_str(), root) {
            return Some(items[i].path.as_str());
        }
        i = i + 1;
    }
    None
}

fn set_config(
    style: PathStyle,
    items: &Vec<McpConfigPath>,
    root: &str,
    provider: MCPProvider,
    path: String,
) -> (r:
    Vec<McpConfigPath>)
    ensures
        config_path_views(r@) == with_config(
            style,
            config_path_views(items@),
            root@,
            provider,
            path@,
        ),
{
    let mut r = drop_config(style, items, root, provider);
    let ghost before = config_path_views(r@);
    r.push(McpConfigPath { root: root.to_owned(), provider, path });
    assert(config_path_views(r@) =~= before.push(
        ConfigPathView { root: root@, provider, path: path@ },
    ));
    r
}

fn add_pending(items: &mut Vec<McpPending>, root: &str, provider: MCPProvider, uuids: &Vec<u128>)
    ensures
        pending_views(final(items)@) == with_pending(
            pending_views(old(items)@),
            root@,
            provider,
            uuids@,
        ),
{
    let ghost first = pending_views(items@);
    let ghost all = uuids@;
    let mut seen: Vec<u128> = Vec::new();
    let mut i: usize = 0;
    assert(all.take(0) =~= Seq::empty());
    while i < uuids.len()
        invariant
            i <= uuids@.len(),
            all == uuids@,
            seen@ == all.take(i as int),
            pending_views(items@) == with_pending(first, root@, provider, all.take(i as int)),
        decreases uuids@.len() - i,
    {
        let ghost done = pending_views(items@);
        proof {
            assert(all.take(i as int + 1).drop_last() =~= all.take(i as int));
            assert(all.take(i as int + 1).last() == uuids@[i as int]);
        }
        if !has_id(&seen, uuids[i]) {
            items.push(McpPending { root: root.to_owned(), provider, uuid: uuids[i] });
            assert(pending_views(items@) =~= done.push(
                PendingView { root: root@, provider, uuid: uuids@[i as int] },
            ));
        }
        seen.push(uuids[i]);
        assert(seen@ =~= all.take(i as int + 1));
        i = i + 1;
    }
    assert(all.take(i as int) =~= all);
}

fn find_pending(style: PathStyle, items: &Vec<McpPending>, root: &str) -> (r: Vec<u128>)
    ensures
        r@ == pending_of_root(style, pending_views(items@), root@),
{
    let ghost all = pending_views(items@);
    let mut r: Vec<u128> = Vec::new();
    let mut i: usize = 0;
    assert(r@ =~= pending_of_root(style, all.take(0), root@));
    while i < items.len()
        invariant
            i <= items@.len(),
            all == pending_views(items@),
            r@ == pending_of_root(style, all.take(i as int), root@),
        decreases items@.len() - i,
    {
        proof {
            assert(all.take(i as int + 1).drop_last() =~= all.take(i as int));
            assert(all.take(i as int + 1).last() == items@[i as int]@);
        }
        if same_path(style, items[i].root.as_str(), root) {
            r.push(items[i].uuid);
        }
        i = i + 1;
    }
    assert(all.take(i as int) =~= all);
    r
}

/// An identifier in a list that is sorted.
struct SortedId {
    id: u128,
}

impl Ranked for SortedId {
    type Model = u128;

    closed spec fn model(&self) -> u128 {
        self.id
    }

    closed spec fn precedes(a: u128, b: u128) -> bool {
        a < b
    }

    fn is_before(&self, other: &Self) -> (r: bool) {
        self.id < other.id
    }
}

fn sort_ids(ids: &Vec<u128>) -> (r: Vec<u128>)
    ensures
        r@ == sorted_by(ids@, id_order()),
{
    let mut items: Vec<SortedId> = Vec::new();
    let mut i: usize = 0;
    while i < ids.len()
        invariant
            i <= ids@.len(),
            items@.len() == i,
            forall|j: int| 0 <= j < i ==> #[trigger] items@[j].model() == ids@[j],
        decreases ids@.len() - i,
    {
        items.push(SortedId { id: ids[i] });
        i = i + 1;
    }
    assert(models(items@) =~= ids@);
    let sorted = stable_sort(items);
    let ghost order = models(sorted@);
    assert((|a: u128, b: u128| SortedId::precedes(a, b)) =~= id_order());
    let mut r: Vec<u128> = Vec::new();
    let mut k: usize = 0;
    while k < sorted.len()
        invariant
            k <= sorted@.len(),
            order == models(sorted@),
            r@ == order.take(k as int),
        decreases sorted@.len() - k,
    {
        assert(order[k as int] == sorted@[k as int].model());
        r.push(sorted[k].id);
        assert(r@ =~= order.take(k as int + 1));
        k = k + 1;
    }
    assert(order.take(k as int) =~= order);
    r
}

fn list_ids(servers: &Vec<TemplatableMCPServerInstallation>) -> (r: Vec<u128>)
    ensures
        r@ == ids_of(install_views(servers@)),
{
    let mut r: Vec<u128> = Vec::new();
    let mut i: usize = 0;
    while i < servers.len()
        invariant
            i <= servers@.len(),
            r@.len() == i,
            forall|j: int| 0 <= j < i ==> #[trigger] r@[j] == servers@[j].uuid,
        decreases servers@.len() - i,
    {
        r.push(servers[i].uuid);
        i = i + 1;
    }
    assert(r@ =~= ids_of(install_views(servers@)));
    r
}

fn list_hashes(servers: &Vec<TemplatableMCPServerInstallation>) -> (r: Vec<u64>)
    ensures
        r@ == hashes_in(install_views(servers@)),
{
    let ghost all = install_views(servers@);
    let mut r: Vec<u64> = Vec::new();
    let mut i: usize = 0;
    assert(r@ =~= hashes_in(all.take(0)));
    while i < servers.len()
        invariant
            i <= servers@.len(),
            all == install_views(servers@),
            r@ == hashes_in(all.take(i as int)),
        decreases servers@.len() - i,
    {
        proof {
            assert(all.take(i as int + 1).drop_last() =~= all.take(i as int));
            assert(all.take(i as int + 1).last() == servers@[i as int]@);
        }
        if let Some(hash) = servers[i].hash {
            r.push(hash);
        }
        i = i + 1;
    }
    assert(all.take(i as int) =~= all);
    r
}

impl McpEnvironment {
    fn paths_of(&self, provider: MCPProvider) -> (r: &ProviderPaths)
        ensures
            *r == provider_paths(*self, provider),
    {
        match provider {
            MCPProvider::Warp => &self.warp,
            MCPProvider::Claude => &self.claude,
            MCPProvider::Codex => &self.codex,
            MCPProvider::Agents => &self.agents,
        }
    }

    /// The root is that of the terminal's own configuration.
    pub fn is_global_warp_root(&self, style: PathStyle, root_path: &str) -> (r: bool)
        ensures
            r == is_warp_root(style, *self, root_path@),
    {
        match &self.warp_root {
            Some(root) => same_path(style, root.as_str(), root_path),
            None => false,
        }
    }

    fn is_home_dir(&self, style: PathStyle, root_path: &str) -> (r: bool)
        ensures
            r == is_home(style, *self, root_path@),
    {
        match &self.home_dir {
            Some(home) => same_path(style, home.as_str(), root_path),
            None => false,
        }
    }

    /// Where the configuration of a provider is, by default, for a root.
    pub fn default_config_path_for_root_provider(
        &self,
        style: PathStyle,
        root_path: &str,
        provider: MCPProvider,
    ) -> (r: String)
        ensures
            r@ == default_config_path(style, *self, root_path@, provider),
    {
        if provider == MCPProvider::Warp && self.is_global_warp_root(style, root_path) {
            return self.warp_config.clone();
        }
        let paths = self.paths_of(provider);
        if self.is_home_dir(style, root_path) {
            join_path(style, root_path, paths.home_config_path.as_str())
        } else {
            join_path(style, root_path, paths.project_config_path.as_str())
        }
    }

    fn names_globally(&self, style: PathStyle, item: &McpRef) -> (r: bool)
        ensures
            r == is_global_ref(style, *self, item@),
    {
        if item.provider == MCPProvider::Warp {
            self.is_global_warp_root(style, item.root.as_str())
        } else {
            self.is_home_dir(style, item.root.as_str())
        }
    }
}

/// Whether a server is started by itself, and why.
#[derive(Clone, Copy, Debug, PartialEq, Eq, Structural)]
pub struct AutoStartDecision {
    pub should_autostart: bool,
    pub server_type: FileBasedMCPServerType,
}

/// The models of the servers that a configuration was found to name.
pub open spec fn parsed_views(parsed: Seq<Option<TemplatableMCPServerInstallation>>) -> Seq<
    Option<InstallView>,
> {
    parsed.map_values(
        |p: Option<TemplatableMCPServerInstallation>|
            match p {
                Some(installation) => Some(installation@),
                None => None,
            },
    )
}

/// The manager.
#[derive(Debug)]
pub struct FileBasedMCPManager {
    file_based_servers: Vec<TemplatableMCPServerInstallation>,
    refs: Vec<McpRef>,
    config_paths: Vec<McpConfigPath>,
    pending: Vec<McpPending>,
    activated_file_based_server_uuids: Vec<u128>,
    path_style: PathStyle,
}

impl FileBasedMCPManager {
    pub closed spec fn view(&self) -> RegistryView {
        RegistryView {
            servers: install_views(self.file_based_servers@),
            refs: ref_views(self.refs@),
            config_paths: config_path_views(self.config_paths@),
            pending: pending_views(self.pending@),
            activated: self.activated_file_based_server_uuids@,
            path_style: self.path_style,
        }
    }

    /// A manager that knows of no server yet.
    pub fn new_with_activated_servers(
        path_style: PathStyle,
        activated_file_based_server_uuids: Vec<u128>,
    ) -> (r: Self)
        ensures
            r@ == (RegistryView {
                servers: Seq::empty(),
                refs: Seq::empty(),
                config_paths: Seq::empty(),
                pending: Seq::empty(),
                activated: activated_file_based_server_uuids@,
                path_style,
            }),
    {
        let r = FileBasedMCPManager {
            file_based_servers: Vec::new(),
            refs: Vec::new(),
            config_paths: Vec::new(),
            pending: Vec::new(),
            activated_file_based_server_uuids,
            path_style,
        };
        assert(install_views(r.file_based_servers@) =~= Seq::empty());
        assert(ref_views(r.refs@) =~= Seq::empty());
        assert(config_path_views(r.config_paths@) =~= Seq::empty());
        assert(pending_views(r.pending@) =~= Seq::empty());
        r
    }

    /// A manager that knows of no server yet, none of which is activated.
    pub fn new(path_style: PathStyle) -> (r: Self)
        ensures
            r@ == (RegistryView {
                servers: Seq::empty(),
                refs: Seq::empty(),
                config_paths: Seq::empty(),
                pending: Seq::empty(),
                activated: Seq::empty(),
                path_style,
            }),
    {
        let ids: Vec<u128> = Vec::new();
        assert(ids@ =~= Seq::empty());
        Self::new_with_activated_servers(path_style, ids)
    }

    fn is_global_server(&self, env: &McpEnvironment, hash: u64) -> (r: bool)
        ensures
            r == is_global(self@.path_style, *env, self@.refs, hash),
    {
        let ghost all = ref_views(self.refs@);
        let mut i: usize = 0;
        while i < self.refs.len()
            invariant
                i <= self.refs@.len(),
                all == ref_views(self.refs@),
                forall|j: int|
                    0 <= j < i ==> !((#[trigger] all[j]).hash == hash && is_global_ref(
                        self.path_style,
                        *env,
                        all[j],
                    )),
            decreases self.refs@.len() - i,
        {
            assert(all[i as int] == self.refs@[i as int]@);
            if self.refs[i].hash == hash && env.names_globally(self.path_style, &self.refs[i]) {
                return true;
            }
            i = i + 1;
        }
        false
    }

    fn is_global_warp_server(&self, env: &McpEnvironment, hash: u64) -> (r: bool)
        ensures
            r == is_global_warp(self@.path_style, *env, self@.refs, hash),
    {
        let ghost all = ref_views(self.refs@);
        let mut i: usize = 0;
        while i < self.refs.len()
            invariant
                i <= self.refs@.len(),
                all == ref_views(self.refs@),
                forall|j: int|
                    0 <= j < i ==> !(
                        (#[trigger] all[j]).hash == hash && is_warp_ref(
                            self.path_style,
                            *env,
                            all[j],
                        )
                    ),
            decreases self.refs@.len() - i,
        {
            assert(all[i as int] == self.refs@[i as int]@);
            if self.refs[i].hash == hash && self.refs[i].provider == MCPProvider::Warp
                && env.is_global_warp_root(self.path_style, self.refs[i].root.as_str()) {
                return true;
            }
            i = i + 1;
        }
        false
    }

    /// Whether a server is started by itself, and why.
    pub fn auto_start_decision(
        &self,
        env: &McpEnvironment,
        hash: u64,
        file_based_mcp_enabled: bool,
    ) -> (r: AutoStartDecision)
        ensures
            r.server_type == server_type(self@.path_style, *env, self@.refs, hash),
            r.should_autostart == starts_by_itself(
                self@.path_style,
                *env,
                self@.refs,
                hash,
                file_based_mcp_enabled,
            ),
    {
        if self.is_global_warp_server(env, hash) {
            AutoStartDecision {
                should_autostart: true,
                server_type: FileBasedMCPServerType::GlobalWarp,
            }
        } else if self.is_global_server(env, hash) {
            AutoStartDecision {
                should_autostart: file_based_mcp_enabled,
                server_type: FileBasedMCPServerType::GlobalThirdParty,
            }
        } else {
            AutoStartDecision {
                should_autostart: false,
                server_type: FileBasedMCPServerType::ProjectScoped,
            }
        }
    }

    fn choose_to_start(
        &self,
        env: &McpEnvironment,
        enabled: bool,
        servers: &Vec<TemplatableMCPServerInstallation>,
    ) -> (r: Vec<TemplatableMCPServerInstallation>)
        ensures
            install_views(r@) == servers_to_start(
                self@.path_style,
                *env,
                self@.refs,
                self@.activated,
                enabled,
                install_views(servers@),
            ),
    {
        let ghost all = install_views(servers@);
        let ghost refs = self@.refs;
        let ghost activated = self@.activated;
        let mut r: Vec<TemplatableMCPServerInstallation> = Vec::new();
        let mut i: usize = 0;
        assert(install_views(r@) =~= servers_to_start(
            self.path_style,
            *env,
            refs,
            activated,
            enabled,
            all.take(0),
        ));
        while i < servers.len()
            invariant
                i <= servers@.len(),
                all == install_views(servers@),
                refs == self@.refs,
                activated == self@.activated,
                install_views(r@) == servers_to_start(
                    self.path_style,
                    *env,
                    refs,
                    activated,
                    enabled,
                    all.take(i as int),
                ),
            decreases servers@.len() - i,
        {
            let ghost done = install_views(r@);
            proof {
                assert(all.take(i as int + 1).drop_last() =~= all.take(i as int));
                assert(all.take(i as int + 1).last() == servers@[i as int]@);
            }
            if let Some(hash) = servers[i].hash {
                let decision = self.auto_start_decision(env, hash, enabled);
                if decision.should_autostart || has_id(
                    &self.activated_file_based_server_uuids,
                    servers[i].uuid,
                ) {
                    r.push(servers[i].clone());
                    assert(install_views(r@) =~= done.push(servers@[i as int]@));
                }
            }
            i = i + 1;
        }
        assert(all.take(i as int) =~= all);
        r
    }

    fn remove_if_orphaned(&mut self, hashes: &Vec<u64>, effects: &mut Vec<FileBasedMCPEffect>)
        ensures
            final(self)@ == old(self)@.orphans_forgotten(hashes@).0,
            mcp_effects(final(effects)@) == mcp_effects(old(effects)@)
                + old(self)@.orphans_forgotten(hashes@).1,
    {
        let ghost start = self@;
        let ghost told = mcp_effects(effects@);
        let ghost all = hashes@;
        let mut removed: Vec<TemplatableMCPServerInstallation> = Vec::new();
        let mut i: usize = 0;
        assert(install_views(removed@) =~= Seq::empty());
        assert(all.take(0) =~= Seq::empty());
        while i < hashes.len()
            invariant
                i <= hashes@.len(),
                all == hashes@,
                self@ == (RegistryView { servers: self@.servers, ..start }),
                (self@.servers, install_views(removed@)) == orphans_removed(
                    start.servers,
                    start.refs,
                    all.take(i as int),
                ),
            decreases hashes@.len() - i,
        {
            let ghost done = install_views(removed@);
            proof {
                assert(all.take(i as int + 1).drop_last() =~= all.take(i as int));
                assert(all.take(i as int + 1).last() == hashes@[i as int]);
            }
            if !is_named(&self.refs, hashes[i]) {
                let found = match find_server(&self.file_based_servers, hashes[i]) {
                    Some(server) => Some(server.clone()),
                    None => None,
                };
                if let Some(server) = found {
                    self.file_based_servers = drop_server(&self.file_based_servers, hashes[i]);
                    removed.push(server);
                    assert(install_views(removed@) =~= done.push(server@));
                }
            }
            i = i + 1;
        }
        assert(all.take(i as int) =~= all);
        let ghost gone = install_views(removed@);
        if removed.len() == 0 {
            assert(gone.len() == 0);
            assert(mcp_effects(effects@) =~= told + Seq::<McpEffectView>::empty());
            return;
        }
        let ghost kept = self@.servers;
        let mut k: usize = 0;
        assert(gone.take(0) =~= Seq::empty());
        assert(mcp_effects(effects@) =~= told + deactivations(gone.take(0)));
        while k < removed.len()
            invariant
                k <= removed@.len(),
                gone == install_views(removed@),
                self@ == (RegistryView {
                    servers: kept,
                    activated: without_servers(start.activated, gone.take(k as int)),
                    ..start
                }),
                mcp_effects(effects@) == told + deactivations(gone.take(k as int)),
            decreases removed@.len() - k,
        {
            proof {
                assert(gone.take(k as int + 1).drop_last() =~= gone.take(k as int));
                assert(gone.take(k as int + 1).last() == removed@[k as int]@);
            }
            let uuid = removed[k].uuid;
            self.activated_file_based_server_uuids = drop_id(
                &self.activated_file_based_server_uuids,
                uuid,
            );
            push_mcp_effect(
                effects,
                FileBasedMCPEffect::PersistActivation { installation_uuid: uuid, active: false },
            );
            assert(mcp_effects(effects@) =~= told + deactivations(gone.take(k as int + 1)));
            k = k + 1;
        }
        assert(gone.take(k as int) =~= gone);
        push_mcp_event(
            effects,
            FileBasedMCPManagerEvent::DespawnServers { installation_uuids: list_ids(&removed) },
        );
        push_mcp_event(
            effects,
            FileBasedMCPManagerEvent::PurgeCredentials {
                installation_hashes: list_hashes(&removed),
            },
        );
        assert(mcp_effects(effects@) =~= told + start.orphans_forgotten(all).1);
    }

    /// Takes up the servers that the configuration of a provider for a root names: new ones are
    /// started where that is due, and those that are named no more are forgotten.
    pub fn apply_parsed_servers_from_config(
        &mut self,
        env: &McpEnvironment,
        file_based_mcp_enabled: bool,
        root_path: &str,
        provider: MCPProvider,
        config_path: String,
        parsed_servers: &Vec<Option<TemplatableMCPServerInstallation>>,
    ) -> (r: Vec<FileBasedMCPEffect>)
        ensures
            (final(self)@, mcp_effects(r@)) == old(self)@.config_read(
                *env,
                file_based_mcp_enabled,
                root_path@,
                provider,
                config_path@,
                parsed_views(parsed_servers@),
            ),
    {
        let ghost start = self@;
        let ghost all = parsed_views(parsed_servers@);
        let ghost result = start.config_read(
            *env,
            file_based_mcp_enabled,
            root_path@,
            provider,
            config_path@,
            all,
        );
        let ghost from = ScanView {
            servers: start.servers,
            refs: start.refs,
            fresh: Seq::empty(),
            scanned: Seq::empty(),
        };
        let previous = find_hashes(self.path_style, &self.refs, root_path, provider);
        let mut fresh: Vec<TemplatableMCPServerInstallation> = Vec::new();
        let mut seen: Vec<u64> = Vec::new();
        let mut i: usize = 0;
        assert(install_views(fresh@) =~= Seq::empty());
        assert(seen@ =~= Seq::empty());
        assert(all.take(0) =~= Seq::empty());
        while i < parsed_servers.len()
            invariant
                i <= parsed_servers@.len(),
                all == parsed_views(parsed_servers@),
                self@ == (RegistryView { servers: self@.servers, refs: self@.refs, ..start }),
                (ScanView {
                    servers: self@.servers,
                    refs: self@.refs,
                    fresh: install_views(fresh@),
                    scanned: seen@,
                }) == scanned(self.path_style, from, root_path@, provider, all.take(i as int)),
            decreases parsed_servers@.len() - i,
        {
            let ghost known = install_views(self.file_based_servers@);
            let ghost done = install_views(fresh@);
            proof {
                assert(all.take(i as int + 1).drop_last() =~= all.take(i as int));
                assert(all.take(i as int + 1).last() == all[i as int]);
            }
            if let Some(installation) = &parsed_servers[i] {
                if let Some(hash) = installation.hash {
                    if find_server(&self.file_based_servers, hash).is_none() {
                        self.file_based_servers.push(installation.clone());
                        fresh.push(installation.clone());
                        proof {
                            assert(install_views(self.file_based_servers@) =~= known.push(
                                installation@,
                            ));
                            assert(install_views(fresh@) =~= done.push(installation@));
                        }
                    }
                    add_ref(self.path_style, &mut self.refs, root_path, provider, hash);
                    seen.push(hash);
                }
            }
            i = i + 1;
        }
        assert(all.take(i as int) =~= all);
        let started = self.choose_to_start(env, file_based_mcp_enabled, &fresh);
        let mut effects: Vec<FileBasedMCPEffect> = Vec::new();
        assert(mcp_effects(effects@) =~= Seq::empty());
        let ids = list_ids(&started);
        if started.len() > 0 {
            push_mcp_event(
                &mut effects,
                FileBasedMCPManagerEvent::SpawnServers { installations: started },
            );
        }
        self.pending = drop_pending(self.path_style, &self.pending, root_path, provider);
        add_pending(&mut self.pending, root_path, provider, &ids);
        let gone = subtract(&previous, &seen);
        self.refs = drop_refs(self.path_style, &self.refs, root_path, provider, &gone);
        self.config_paths = set_config(
            self.path_style,
            &self.config_paths,
            root_path,
            provider,
            config_path,
        );
        if !names_any(self.path_style, &self.refs, root_path, provider) {
            self.config_paths = drop_config(
                self.path_style,
                &self.config_paths,
                root_path,
                provider,
            );
        }
        self.remove_if_orphaned(&gone, &mut effects);
        assert(mcp_effects(effects@) =~= result.1);
        effects
    }

    /// The configuration of a provider for a root was removed.
    pub fn remove_servers_for_root_provider(
        &mut self,
        root_path: &str,
        provider: MCPProvider,
        config_path: &str,
    ) -> (r: Vec<FileBasedMCPEffect>)
        ensures
            (final(self)@, mcp_effects(r@)) == old(self)@.config_gone(
                root_path@,
                provider,
                config_path@,
            ),
    {
        let ghost result = self@.config_gone(root_path@, provider, config_path@);
        let hashes = find_hashes(self.path_style, &self.refs, root_path, provider);
        self.refs = drop_refs(self.path_style, &self.refs, root_path, provider, &hashes);
        let is_stored = match find_config(
            self.path_style,
            &self.config_paths,
            root_path,
            provider,
        ) {
            Some(stored) => same_path(self.path_style, stored, config_path),
            None => false,
        };
        if is_stored {
            self.config_paths = drop_config(
                self.path_style,
                &self.config_paths,
                root_path,
                provider,
            );
        }
        let mut effects: Vec<FileBasedMCPEffect> = Vec::new();
        assert(mcp_effects(effects@) =~= Seq::empty());
        self.remove_if_orphaned(&hashes, &mut effects);
        assert(mcp_effects(effects@) =~= result.1);
        effects
    }

    fn find_detected(&self, env: &McpEnvironment, enabled: bool, repo_path: &str) -> (r: Vec<
        CloudEnvMcpScanServer,
    >)
        ensures
            scan_views(r@) == detected_at(
                self@.path_style,
                *env,
                self@.servers,
                self@.refs,
                self@.refs,
                repo_path@,
                enabled,
            ),
    {
        let ghost all = self@.refs;
        let ghost servers = self@.servers;
        let mut r: Vec<CloudEnvMcpScanServer> = Vec::new();
        let mut i: usize = 0;
        assert(scan_views(r@) =~= detected_at(
            self.path_style,
            *env,
            servers,
            all,
            all.take(0),
            repo_path@,
            enabled,
        ));
        while i < self.refs.len()
            invariant
                i <= self.refs@.len(),
                all == self@.refs,
                all == ref_views(self.refs@),
                servers == self@.servers,
                scan_views(r@) == detected_at(
                    self.path_style,
                    *env,
                    servers,
                    all,
                    all.take(i as int),
                    repo_path@,
                    enabled,
                ),
            decreases self.refs@.len() - i,
        {
            let ghost done = scan_views(r@);
            proof {
                assert(all.take(i as int + 1).drop_last() =~= all.take(i as int));
                assert(all.take(i as int + 1).last() == self.refs@[i as int]@);
            }
            let hash = self.refs[i].hash;
            if let Some(server) = find_server(&self.file_based_servers, hash) {
                if same_path(self.path_style, self.refs[i].root.as_str(), repo_path) {
                    let found = CloudEnvMcpScanServer {
                        uuid: server.uuid,
                        name: server.name.clone(),
                        provider: self.refs[i].provider,
                        hash,
                        auto_start_eligible: self.auto_start_decision(
                            env,
                            hash,
                            enabled,
                        ).should_autostart,
                    };
                    r.push(found);
                    assert(scan_views(r@) =~= done.push(found@));
                }
            }
            i = i + 1;
        }
        assert(all.take(i as int) =~= all);
        r
    }

    /// The scan of a repository is complete: tells what it found, and which servers were started
    /// for it.
    pub fn handle_cloud_environment_scan_complete(
        &mut self,
        env: &McpEnvironment,
        file_based_mcp_enabled: bool,
        repo_path: &str,
    ) -> (r: Vec<FileBasedMCPEffect>)
        ensures
            (final(self)@, mcp_effects(r@)) == old(self)@.scan_complete(
                *env,
                file_based_mcp_enabled,
                repo_path@,
            ),
    {
        let ghost result = self@.scan_complete(*env, file_based_mcp_enabled, repo_path@);
        let wait_server_uuids = sort_ids(&find_pending(self.path_style, &self.pending, repo_path));
        let detected_servers = self.find_detected(env, file_based_mcp_enabled, repo_path);
        self.pending = drop_pending_root(self.path_style, &self.pending, repo_path);
        let mut effects: Vec<FileBasedMCPEffect> = Vec::new();
        assert(mcp_effects(effects@) =~= Seq::empty());
        push_mcp_event(
            &mut effects,
            FileBasedMCPManagerEvent::CloudEnvMcpScanComplete {
                repo_path: repo_path.to_owned(),
                detected_servers,
                wait_server_uuids,
            },
        );
        assert(mcp_effects(effects@) =~= result.1);
        effects
    }

    /// Servers of others are enabled, or no longer are.
    pub fn handle_file_based_mcp_enabled_change(&self, env: &McpEnvironment, enabled: bool) -> (r:
        Vec<FileBasedMCPEffect>)
        ensures
            mcp_effects(r@) == seq![self@.toggled(*env, enabled)],
    {
        let ghost all = self@.servers;
        let ghost refs = self@.refs;
        let mut servers: Vec<TemplatableMCPServerInstallation> = Vec::new();
        let mut i: usize = 0;
        assert(install_views(servers@) =~= third_party_servers(
            self.path_style,
            *env,
            refs,
            all.take(0),
        ));
        while i < self.file_based_servers.len()
            invariant
                i <= self.file_based_servers@.len(),
                all == install_views(self.file_based_servers@),
                refs == self@.refs,
                install_views(servers@) == third_party_servers(
                    self.path_style,
                    *env,
                    refs,
                    all.take(i as int),
                ),
            decreases self.file_based_servers@.len() - i,
        {
            let ghost done = install_views(servers@);
            proof {
                assert(all.take(i as int + 1).drop_last() =~= all.take(i as int));
                assert(all.take(i as int + 1).last() == self.file_based_servers@[i as int]@);
            }
            if let Some(hash) = self.file_based_servers[i].hash {
                let decision = self.auto_start_decision(env, hash, true);
                if decision.server_type == FileBasedMCPServerType::GlobalThirdParty {
                    servers.push(self.file_based_servers[i].clone());
                    assert(install_views(servers@) =~= done.push(
                        self.file_based_servers@[i as int]@,
                    ));
                }
            }
            i = i + 1;
        }
        assert(all.take(i as int) =~= all);
        let mut effects: Vec<FileBasedMCPEffect> = Vec::new();
        assert(mcp_effects(effects@) =~= Seq::empty());
        if enabled {
            push_mcp_event(
                &mut effects,
                FileBasedMCPManagerEvent::SpawnServers { installations: servers },
            );
        } else {
            push_mcp_event(
                &mut effects,
                FileBasedMCPManagerEvent::DespawnServers { installation_uuids: list_ids(&servers) },
            );
        }
        assert(mcp_effects(effects@) =~= seq![self@.toggled(*env, enabled)]);
        effects
    }

    /// The hash of the server with an identifier.
    pub fn get_hash_by_uuid(&self, installation_uuid: u128) -> (r: Option<u64>)
        ensures
            r == self@.hash_of(installation_uuid),
    {
        match find_server_named(&self.file_based_servers, installation_uuid) {
            Some(server) => server.hash,
            None => None,
        }
    }

    /// The server with an identifier.
    pub fn get_installation_by_uuid(&self, uuid: u128) -> (r: Option<
        &TemplatableMCPServerInstallation,
    >)
        ensures
            opt_install_view(r) == server_named(self@.servers, uuid),
    {
        find_server_named(&self.file_based_servers, uuid)
    }

    /// All servers.
    pub fn file_based_servers(&self) -> (r: &Vec<TemplatableMCPServerInstallation>)
        ensures
            install_views(r@) == self@.servers,
    {
        &self.file_based_servers
    }

    fn collect_roots(&self, hash: u64, wanted: WantedProviders) -> (r: Vec<String>)
        ensures
            views(r@) == roots_naming(self@.path_style, self@.refs, hash, wants(wanted)),
    {
        let ghost all = self@.refs;
        let mut r: Vec<String> = Vec::new();
        let mut i: usize = 0;
        assert(views(r@) =~= roots_naming(self.path_style, all.take(0), hash, wants(wanted)));
        while i < self.refs.len()
            invariant
                i <= self.refs@.len(),
                all == ref_views(self.refs@),
                views(r@) == roots_naming(self.path_style, all.take(i as int), hash, wants(wanted)),
            decreases self.refs@.len() - i,
        {
            proof {
                assert(all.take(i as int + 1).drop_last() =~= all.take(i as int));
                assert(all.take(i as int + 1).last() == self.refs@[i as int]@);
            }
            let fits = match wanted {
                WantedProviders::All => true,
                WantedProviders::AllButWarp => self.refs[i].provider != MCPProvider::Warp,
                WantedProviders::Only(provider) => self.refs[i].provider == provider,
            };
            if self.refs[i].hash == hash && fits {
                add_path(self.path_style, &mut r, self.refs[i].root.as_str());
            }
            i = i + 1;
        }
        assert(all.take(i as int) =~= all);
        r
    }

    /// The roots of others' configurations that name a server.
    pub fn external_root_paths_for_installation(&self, installation_uuid: u128) -> (r: Vec<String>)
        ensures
            views(r@) == self@.external_roots(installation_uuid),
    {
        match self.get_hash_by_uuid(installation_uuid) {
            Some(hash) => {
                let roots = self.collect_roots(hash, WantedProviders::AllButWarp);
                assert(wants(WantedProviders::AllButWarp) =~= (|p: MCPProvider|
                    p != MCPProvider::Warp));
                sort_paths(self.path_style, roots)
            },
            None => {
                let r: Vec<String> = Vec::new();
                assert(views(r@) =~= Seq::empty());
                r
            },
        }
    }

    /// Configurations of others name the server.
    pub fn has_external_source(&self, installation_uuid: u128) -> (r: bool)
        ensures
            r == (self@.external_roots(installation_uuid).len() > 0),
    {
        let roots = self.external_root_paths_for_installation(installation_uuid);
        assert(views(roots@).len() == roots@.len());
        roots.len() > 0
    }

    /// Activates a server, or ends that, without touching configuration files.
    pub fn set_server_activation(
        &mut self,
        env: &McpEnvironment,
        installation_uuid: u128,
        active: bool,
    ) -> (r: Vec<FileBasedMCPEffect>)
        ensures
            (final(self)@, mcp_effects(r@)) == old(self)@.activation_set(
                *env,
                installation_uuid,
                active,
                false,
            ),
    {
        self.set_server_activation_with_mode(
            env,
            installation_uuid,
            active,
            FileBasedMCPActivationMode::ReferenceOnly,
        )
    }

    /// Activates a server, or ends that.
    pub fn set_server_activation_with_mode(
        &mut self,
        env: &McpEnvironment,
        installation_uuid: u128,
        active: bool,
        mode: FileBasedMCPActivationMode,
    ) -> (r: Vec<FileBasedMCPEffect>)
        ensures
            (final(self)@, mcp_effects(r@)) == old(self)@.activation_set(
                *env,
                installation_uuid,
                active,
                mode == FileBasedMCPActivationMode::CopyToWarpConfig,
            ),
    {
        let ghost start = self@;
        let ghost result = start.activation_set(
            *env,
            installation_uuid,
            active,
            mode == FileBasedMCPActivationMode::CopyToWarpConfig,
        );
        let mut effects: Vec<FileBasedMCPEffect> = Vec::new();
        assert(mcp_effects(effects@) =~= Seq::empty());
        if !active {
            self.activated_file_based_server_uuids = drop_id(
                &self.activated_file_based_server_uuids,
                installation_uuid,
            );
            push_mcp_effect(
                &mut effects,
                FileBasedMCPEffect::PersistActivation { installation_uuid, active: false },
            );
            let mut ids: Vec<u128> = Vec::new();
            ids.push(installation_uuid);
            assert(ids@ =~= seq![installation_uuid]);
            push_mcp_event(
                &mut effects,
                FileBasedMCPManagerEvent::DespawnServers { installation_uuids: ids },
            );
            assert(mcp_effects(effects@) =~= result.1);
            return effects;
        }
        let installation = match self.get_installation_by_uuid(installation_uuid) {
            Some(installation) => installation.clone(),
            None => {
                return effects;
            },
        };
        if mode == FileBasedMCPActivationMode::CopyToWarpConfig {
            let roots = self.external_root_paths_for_installation(installation_uuid);
            let ghost all = views(roots@);
            let mut i: usize = 0;
            assert(mcp_effects(effects@) =~= copies_asked(
                self.path_style,
                *env,
                installation@,
                all.take(0),
            ));
            while i < roots.len()
                invariant
                    i <= roots@.len(),
                    all == views(roots@),
                    mcp_effects(effects@) == copies_asked(
                        self.path_style,
                        *env,
                        installation@,
                        all.take(i as int),
                    ),
                decreases roots@.len() - i,
            {
                let ghost done = mcp_effects(effects@);
                let config_path = env.default_config_path_for_root_provider(
                    self.path_style,
                    roots[i].as_str(),
                    MCPProvider::Warp,
                );
                let effect = FileBasedMCPEffect::CopyToWarpConfig {
                    installation: installation.clone(),
                    root_path: roots[i].clone(),
                    config_path,
                };
                push_mcp_effect(&mut effects, effect);
                assert(copies_asked(
                    self.path_style,
                    *env,
                    installation@,
                    all.take(i as int + 1),
                ) =~= done.push(
                    effect@,
                ));
                i = i + 1;
            }
            assert(all.take(i as int) =~= all);
        }
        if !has_id(&self.activated_file_based_server_uuids, installation_uuid) {
            self.activated_file_based_server_uuids.push(installation_uuid);
        }
        push_mcp_effect(
            &mut effects,
            FileBasedMCPEffect::PersistActivation { installation_uuid, active: true },
        );
        let mut installations: Vec<TemplatableMCPServerInstallation> = Vec::new();
        let ghost only = installation@;
        installations.push(installation);
        assert(install_views(installations@) =~= seq![only]);
        push_mcp_event(&mut effects, FileBasedMCPManagerEvent::SpawnServers { installations });
        assert(mcp_effects(effects@) =~= result.1);
        effects
    }

    /// A server was added to the terminal's own configuration below a root.
    pub fn add_warp_config_reference_for_installation(
        &mut self,
        root_path: &str,
        config_path: String,
        installation: &TemplatableMCPServerInstallation,
    )
        ensures
            final(self)@ == old(self)@.copied(root_path@, config_path@, installation@),
    {
        if let Some(hash) = installation.hash {
            let ghost known = install_views(self.file_based_servers@);
            if find_server(&self.file_based_servers, hash).is_none() {
                self.file_based_servers.push(installation.clone());
                assert(install_views(self.file_based_servers@) =~= known.push(installation@));
            }
            add_ref(self.path_style, &mut self.refs, root_path, MCPProvider::Warp, hash);
            self.config_paths = set_config(
                self.path_style,
                &self.config_paths,
                root_path,
                MCPProvider::Warp,
                config_path,
            );
        }
    }

    /// The roots of the configurations of a provider that name a server.
    pub fn directory_paths_for_installation_and_provider(
        &self,
        uuid: u128,
        provider: MCPProvider,
    ) -> (r: Vec<String>)
        ensures
            views(r@) == self@.directories(uuid, provider),
    {
        match self.get_hash_by_uuid(uuid) {
            Some(hash) => {
                let roots = self.collect_roots(hash, WantedProviders::Only(provider));
                assert(wants(WantedProviders::Only(provider)) =~= only(provider));
                sort_paths(self.path_style, roots)
            },
            None => {
                let r: Vec<String> = Vec::new();
                assert(views(r@) =~= Seq::empty());
                r
            },
        }
    }

    /// The configuration files of a provider that name a server, in their order, each once.
    pub fn config_file_paths_for_installation_and_provider(
        &self,
        env: &McpEnvironment,
        uuid: u128,
        provider: MCPProvider,
    ) -> (r: Vec<String>)
        ensures
            views(r@) == distinct_paths(
                self@.path_style,
                sorted_by(
                    config_paths_at(
                        self@.path_style,
                        *env,
                        self@.config_paths,
                        self@.directories(uuid, provider),
                        provider,
                    ),
                    path_order(self@.path_style),
                ),
            ),
    {
        let roots = self.directory_paths_for_installation_and_provider(uuid, provider);
        let ghost all = views(roots@);
        let ghost wanted = config_paths_at(
            self.path_style,
            *env,
            self@.config_paths,
            all,
            provider,
        );
        let mut paths: Vec<String> = Vec::new();
        let mut i: usize = 0;
        while i < roots.len()
            invariant
                i <= roots@.len(),
                all == views(roots@),
                wanted == config_paths_at(self.path_style, *env, self@.config_paths, all, provider),
                paths@.len() == i,
                forall|j: int| 0 <= j < i ==> #[trigger] paths@[j]@ == wanted[j],
            decreases roots@.len() - i,
        {
            assert(all[i as int] == roots@[i as int]@);
            let path = match find_config(
                self.path_style,
                &self.config_paths,
                roots[i].as_str(),
                provider,
            ) {
                Some(path) => path.to_owned(),
                None => env.default_config_path_for_root_provider(
                    self.path_style,
                    roots[i].as_str(),
                    provider,
                ),
            };
            paths.push(path);
            i = i + 1;
        }
        assert(views(paths@) =~= wanted);
        dedupe_paths(self.path_style, &sort_paths(self.path_style, paths))
    }

    /// The directory in which a server is started where its configuration names none.
    pub fn spawn_root_for_installation(&self, env: &McpEnvironment, uuid: u128) -> (r: Option<
        String,
    >)
        ensures
            opt_view(r) == self@.spawn_root(*env, uuid),
    {
        let hash = match self.get_hash_by_uuid(uuid) {
            Some(hash) => hash,
            None => {
                return None;
            },
        };
        let roots = self.collect_roots(hash, WantedProviders::All);
        assert(wants(WantedProviders::All) =~= (|p: MCPProvider| true));
        let roots = sort_paths(self.path_style, roots);
        assert(views(roots@).len() == roots@.len());
        if roots.len() == 0 {
            return None;
        }
        assert(views(roots@)[0] == roots@[0]@);
        if self.is_global_warp_server(env, hash) {
            if let Some(home) = &env.home_dir {
                return Some(home.clone());
            }
        }
        Some(roots[0].clone())
    }

    fn collect_servers_at(&self, root: &str, found: &mut Vec<TemplatableMCPServerInstallation>)
        ensures
            install_views(final(found)@) == install_views(old(found)@) + servers_at(
                self@.path_style,
                self@.servers,
                self@.refs,
                root@,
            ),
    {
        let ghost first = install_views(found@);
        let ghost all = self@.refs;
        let ghost servers = self@.servers;
        let mut i: usize = 0;
        assert(install_views(found@) =~= first + servers_at(
            self.path_style,
            servers,
            all.take(0),
            root@,
        ));
        while i < self.refs.len()
            invariant
                i <= self.refs@.len(),
                all == ref_views(self.refs@),
                servers == install_views(self.file_based_servers@),
                install_views(found@) == first + servers_at(
                    self.path_style,
                    servers,
                    all.take(i as int),
                    root@,
                ),
            decreases self.refs@.len() - i,
        {
            let ghost done = install_views(found@);
            proof {
                assert(all.take(i as int + 1).drop_last() =~= all.take(i as int));
                assert(all.take(i as int + 1).last() == self.refs@[i as int]@);
            }
            if let Some(server) = find_server(&self.file_based_servers, self.refs[i].hash) {
                if same_path(self.path_style, self.refs[i].root.as_str(), root) {
                    found.push(server.clone());
                    assert(install_views(found@) =~= done.push(server@));
                    assert(install_views(found@) =~= first + servers_at(
                        self.path_style,
                        servers,
                        all.take(i as int + 1),
                        root@,
                    ));
                }
            }
            i = i + 1;
        }
        assert(all.take(i as int) =~= all);
    }

    /// The servers that apply in a working directory.
    pub fn get_servers_for_working_directory(
        &self,
        home_dir: Option<&str>,
        repo_root: Option<&str>,
    ) -> (r: Vec<TemplatableMCPServerInstallation>)
        ensures
            install_views(r@) == self@.servers_for(
                opt_str_view(home_dir),
                opt_str_view(repo_root),
            ),
    {
        let mut found: Vec<TemplatableMCPServerInstallation> = Vec::new();
        assert(install_views(found@) =~= Seq::empty());
        if let Some(home) = home_dir {
            self.collect_servers_at(home, &mut found);
        }
        if let Some(repo) = repo_root {
            self.collect_servers_at(repo, &mut found);
        }
        assert(install_views(found@) =~= self@.servers_for(
            opt_str_view(home_dir),
            opt_str_view(repo_root),
        ));
        found
    }

    /// What the watcher of configuration files has seen.
    pub fn handle_watcher_event(
        &mut self,
        env: &McpEnvironment,
        file_based_mcp_enabled: bool,
        event: FileMCPWatcherEvent,
    ) -> (r: Vec<FileBasedMCPEffect>)
        ensures
            (final(self)@, mcp_effects(r@)) == (match event {
                FileMCPWatcherEvent::ConfigParsed { root_path, config_path, provider, servers } => {
                    old(self)@.config_read(
                        *env,
                        file_based_mcp_enabled,
                        root_path@,
                        provider,
                        config_path@,
                        parsed_views(servers@),
                    )
                },
                FileMCPWatcherEvent::ConfigRemoved { root_path, config_path, provider } => {
                    old(self)@.config_gone(root_path@, provider, config_path@)
                },
                FileMCPWatcherEvent::CloudEnvMcpScanComplete { repo_path } => {
                    old(self)@.scan_complete(*env, file_based_mcp_enabled, repo_path@)
                },
            }),
    {
        match event {
            FileMCPWatcherEvent::ConfigParsed { root_path, config_path, provider, servers } => {
                self.apply_parsed_servers_from_config(
                    env,
                    file_based_mcp_enabled,
                    root_path.as_str(),
                    provider,
                    config_path,
                    &servers,
                )
            },
            FileMCPWatcherEvent::ConfigRemoved { root_path, config_path, provider } => {
                self.remove_servers_for_root_provider(
                    root_path.as_str(),
                    provider,
                    config_path.as_str(),
                )
            },
            FileMCPWatcherEvent::CloudEnvMcpScanComplete { repo_path } => {
                self.handle_cloud_environment_scan_complete(
                    env,
                    file_based_mcp_enabled,
                    repo_path.as_str(),
                )
            },
        }
    }
}

/// What the watcher of configuration files has seen.
#[derive(Debug, PartialEq, Eq)]
pub enum FileMCPWatcherEvent {
    ConfigParsed {
        root_path: String,
        config_path: String,
        provider: MCPProvider,
        servers: Vec<Option<TemplatableMCPServerInstallation>>,
    },
    ConfigRemoved { root_path: String, config_path: String, provider: MCPProvider },
    CloudEnvMcpScanComplete { repo_path: String },
}

/// Whose configurations are meant.
#[derive(Clone, Copy)]
enum WantedProviders {
    All,
    AllButWarp,
    Only(MCPProvider),
}

spec fn wants(wanted: WantedProviders) -> spec_fn(MCPProvider) -> bool {
    |p: MCPProvider|
        match wanted {
            WantedProviders::All => true,
            WantedProviders::AllButWarp => p != MCPProvider::Warp,
            WantedProviders::Only(provider) => p == provider,
        }
}

} // verus!
