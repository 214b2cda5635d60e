//! MCP servers that configuration files name.
use slipstream::json::JsonValue;
use slipstream::mcp::config::{
    merge_installation_into_warp_config, read_warp_mcp_config, resolved_server_map,
};
use slipstream::mcp::manager::{
    FileBasedMCPActivationMode, FileBasedMCPEffect, FileBasedMCPManager, FileBasedMCPManagerEvent,
    FileMCPWatcherEvent,
};
use slipstream::mcp::registry::{
    MCPProvider, McpEnvironment, ProviderPaths, TemplatableMCPServerInstallation,
};
use slipstream::path::PathStyle;

fn paths(home: &str, project: &str) -> ProviderPaths {
    ProviderPaths {
        home_config_path: home.to_string(),
        project_config_path: project.to_string(),
    }
}

fn environment() -> McpEnvironment {
    McpEnvironment {
        home_dir: Some("/home/me".to_string()),
        warp_root: Some("/home/me/.warp".to_string()),
        warp_config: "/home/me/.warp/mcp.json".to_string(),
        warp: paths(".warp/mcp.json", ".warp/mcp.json"),
        claude: paths(".assistant.json", ".mcp.json"),
        codex: paths(".codex/config.toml", ".codex/config.toml"),
        agents: paths(".agents/mcp.json", ".agents/mcp.json"),
    }
}

fn server(uuid: u128, name: &str, hash: u64) -> TemplatableMCPServerInstallation {
    TemplatableMCPServerInstallation {
        uuid,
        name: name.to_string(),
        hash: Some(hash),
        resolved_json: format!(r#"{{"{name}": {{"command": "run"}}}}"#),
    }
}

fn spawned(effects: &[FileBasedMCPEffect]) -> Vec<u128> {
    effects
        .iter()
        .flat_map(|effect| match effect {
            FileBasedMCPEffect::Emit {
                event: FileBasedMCPManagerEvent::SpawnServers { installations },
            } => installations.iter().map(|i| i.uuid).collect(),
            _ => Vec::new(),
        })
        .collect()
}

fn despawned(effects: &[FileBasedMCPEffect]) -> Vec<u128> {
    effects
        .iter()
        .flat_map(|effect| match effect {
            FileBasedMCPEffect::Emit {
                event: FileBasedMCPManagerEvent::DespawnServers { installation_uuids },
            } => installation_uuids.clone(),
            _ => Vec::new(),
        })
        .collect()
}

fn read(
    manager: &mut FileBasedMCPManager,
    root: &str,
    provider: MCPProvider,
    servers: Vec<TemplatableMCPServerInstallation>,
) -> Vec<FileBasedMCPEffect> {
    let env = environment();
    let config_path = env.default_config_path_for_root_provider(PathStyle::Posix, root, provider);
    manager.apply_parsed_servers_from_config(
        &env,
        true,
        root,
        provider,
        config_path,
        &servers.into_iter().map(Some).collect(),
    )
}

#[test]
fn global_servers_start_at_once() {
    let mut manager = FileBasedMCPManager::new(PathStyle::Posix);
    let effects = read(
        &mut manager,
        "/home/me/.warp",
        MCPProvider::Warp,
        vec![server(1, "one", 10)],
    );
    assert_eq!(spawned(&effects), vec![1]);
    assert_eq!(manager.file_based_servers().len(), 1);
    assert_eq!(manager.get_hash_by_uuid(1), Some(10));
    assert_eq!(manager.get_installation_by_uuid(1).unwrap().name, "one");
}

#[test]
fn project_servers_wait_until_they_are_activated() {
    let mut manager = FileBasedMCPManager::new(PathStyle::Posix);
    let effects = read(
        &mut manager,
        "/work/project",
        MCPProvider::Claude,
        vec![server(2, "two", 20)],
    );
    assert!(spawned(&effects).is_empty());

    let effects = manager.set_server_activation(&environment(), 2, true);
    assert_eq!(spawned(&effects), vec![2]);
    assert!(effects.contains(&FileBasedMCPEffect::PersistActivation {
        installation_uuid: 2,
        active: true
    }));

    let effects = manager.set_server_activation(&environment(), 2, false);
    assert_eq!(despawned(&effects), vec![2]);
}

#[test]
fn reading_again_replaces_what_was_named() {
    let mut manager = FileBasedMCPManager::new(PathStyle::Posix);
    read(
        &mut manager,
        "/home/me/.warp",
        MCPProvider::Warp,
        vec![server(1, "one", 10)],
    );
    let effects = read(
        &mut manager,
        "/home/me/.warp",
        MCPProvider::Warp,
        vec![server(3, "three", 30)],
    );
    assert_eq!(despawned(&effects), vec![1]);
    assert_eq!(spawned(&effects), vec![3]);
    assert!(manager.get_installation_by_uuid(1).is_none());
}

#[test]
fn removed_config_ends_its_servers() {
    let mut manager = FileBasedMCPManager::new(PathStyle::Posix);
    read(
        &mut manager,
        "/home/me/.warp",
        MCPProvider::Warp,
        vec![server(1, "one", 10)],
    );
    let effects = manager.handle_watcher_event(
        &environment(),
        true,
        FileMCPWatcherEvent::ConfigRemoved {
            root_path: "/home/me/.warp".to_string(),
            config_path: "/home/me/.warp/mcp.json".to_string(),
            provider: MCPProvider::Warp,
        },
    );
    assert_eq!(despawned(&effects), vec![1]);
    assert!(manager.file_based_servers().is_empty());
}

#[test]
fn servers_are_found_by_directory() {
    let mut manager = FileBasedMCPManager::new(PathStyle::Posix);
    read(
        &mut manager,
        "/work/project",
        MCPProvider::Claude,
        vec![server(2, "two", 20)],
    );
    assert_eq!(
        manager
            .get_servers_for_working_directory(Some("/home/me"), Some("/work/project"))
            .len(),
        1
    );
    assert!(manager
        .get_servers_for_working_directory(Some("/home/me"), Some("/work/other"))
        .is_empty());
    assert_eq!(
        manager.directory_paths_for_installation_and_provider(2, MCPProvider::Claude),
        vec!["/work/project".to_string()]
    );
    assert_eq!(
        manager.config_file_paths_for_installation_and_provider(
            &environment(),
            2,
            MCPProvider::Claude
        ),
        vec!["/work/project/.mcp.json".to_string()]
    );
    assert!(manager.has_external_source(2));
    assert_eq!(
        manager.spawn_root_for_installation(&environment(), 2).as_deref(),
        Some("/work/project")
    );
}

#[test]
fn activation_may_copy_the_server() {
    let mut manager = FileBasedMCPManager::new(PathStyle::Posix);
    read(
        &mut manager,
        "/work/project",
        MCPProvider::Claude,
        vec![server(2, "two", 20)],
    );
    let effects = manager.set_server_activation_with_mode(
        &environment(),
        2,
        true,
        FileBasedMCPActivationMode::CopyToWarpConfig,
    );
    assert!(effects.iter().any(|effect| matches!(
        effect,
        FileBasedMCPEffect::CopyToWarpConfig { installation, .. } if installation.uuid == 2
    )));
}

#[test]
fn default_paths_of_configs() {
    let env = environment();
    assert!(env.is_global_warp_root(PathStyle::Posix, "/home/me/.warp/"));
    assert!(!env.is_global_warp_root(PathStyle::Posix, "/work/project"));
    assert_eq!(
        env.default_config_path_for_root_provider(
            PathStyle::Posix,
            "/home/me/.warp",
            MCPProvider::Warp,
        ),
        "/home/me/.warp/mcp.json"
    );
    assert_eq!(
        env.default_config_path_for_root_provider(
            PathStyle::Posix,
            "/home/me",
            MCPProvider::Claude,
        ),
        "/home/me/.assistant.json"
    );
    assert_eq!(
        env.default_config_path_for_root_provider(
            PathStyle::Posix,
            "/work/project",
            MCPProvider::Agents,
        ),
        "/work/project/.agents/mcp.json"
    );
}

#[test]
fn merged_config_keeps_the_rest() {
    let merged = merge_installation_into_warp_config(
        Some(r#"{"theme": "dark", "mcpServers": {"old": {"command": "a"}}}"#),
        "new",
        r#"{"new": {"command": "b"}}"#,
    )
    .unwrap();
    let value = JsonValue::parse(&merged).unwrap();
    assert_eq!(value.get_str("theme"), Some("dark"));
    let servers = value.get("mcpServers").unwrap();
    assert!(servers.get("old").is_some());
    assert_eq!(servers.get("new").unwrap().get_str("command"), Some("b"));
}

#[test]
fn broken_configs_are_refused() {
    assert!(read_warp_mcp_config(Some("{")).is_err());
    assert_eq!(read_warp_mcp_config(None).unwrap().compact(), "{}");
    assert_eq!(read_warp_mcp_config(Some("  ")).unwrap().compact(), "{}");
    assert!(resolved_server_map("x", "[").is_err());
    assert!(merge_installation_into_warp_config(Some("[]"), "x", "{}").is_err());
}

#[test]
fn switching_file_based_servers_off_ends_them() {
    let mut manager = FileBasedMCPManager::new(PathStyle::Posix);
    read(
        &mut manager,
        "/home/me",
        MCPProvider::Claude,
        vec![server(4, "four", 40)],
    );
    let effects = manager.handle_file_based_mcp_enabled_change(&environment(), false);
    assert_eq!(despawned(&effects), vec![4]);
    let effects = manager.handle_file_based_mcp_enabled_change(&environment(), true);
    assert_eq!(spawned(&effects), vec![4]);
}
