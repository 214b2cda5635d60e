//! The manager of the agent service on this machine.
use slipstream::json::JsonValue;
use slipstream::local_multi_agent::config::{
    parse_model_aliases, parse_model_list_ids, validate_absolute_http_url, LocalMultiAgentConfig,
    LocalMultiAgentConfigError,
};
use slipstream::local_multi_agent::launch::{
    BackendTest, BackendTestAction, BackendTestEvent, LaunchAction, LaunchEvent, ServiceLaunch,
};
use slipstream::local_multi_agent::manager::{
    LocalMultiAgentEffect, LocalMultiAgentManager, LocalMultiAgentManagerEvent,
    LocalMultiAgentStatus, LocalMultiAgentTestStatus, StartServiceResult,
};
use slipstream::local_multi_agent::node::{
    validate_service_node_dependencies, NodeAction, NodeEvent, NodeSelection,
};
use slipstream::local_multi_agent::service::{
    check_health_response, health_wait_error, local_no_cloud_root_url, port_in_use,
    provider_models_request, read_provider_models, waits_for_health, ServiceError,
};
use slipstream::local_multi_agent::start::{health_url, missing_entrypoint};

fn config() -> LocalMultiAgentConfig {
    LocalMultiAgentConfig::default()
}

fn started(root_url: &str) -> StartServiceResult {
    StartServiceResult {
        has_child: true,
        root_url: root_url.to_string(),
        pid: Some(42),
        config_hash: "hash".to_string(),
    }
}

/// A manager whose service runs.
fn running() -> LocalMultiAgentManager {
    let (mut manager, _) = LocalMultiAgentManager::new(config(), true);
    manager.start_now();
    manager.finish_start(Ok(started("http://127.0.0.1:8787")));
    manager
}

#[test]
fn service_is_started_without_the_cloud() {
    let (mut manager, effects) = LocalMultiAgentManager::new(config(), true);
    assert!(!effects.is_empty());

    let effects = manager.start_now();
    assert_eq!(manager.status(), &LocalMultiAgentStatus::Starting);
    assert!(effects.iter().any(|effect| matches!(
        effect,
        LocalMultiAgentEffect::StartService { .. }
    )));

    manager.finish_start(Ok(started("http://127.0.0.1:8787")));
    assert_eq!(
        manager.status(),
        &LocalMultiAgentStatus::Running {
            root_url: "http://127.0.0.1:8787".to_string(),
            pid: Some(42),
            config_hash: "hash".to_string(),
        }
    );
}

#[test]
fn cloud_needs_no_service() {
    let (manager, effects) = LocalMultiAgentManager::new(config(), false);
    assert_eq!(manager.status(), &LocalMultiAgentStatus::Disabled);
    assert!(!effects
        .iter()
        .any(|effect| matches!(effect, LocalMultiAgentEffect::ScheduleRestart)));
}

#[test]
fn failed_start_says_why() {
    let (mut manager, _) = LocalMultiAgentManager::new(config(), true);
    manager.start_now();
    manager.finish_start(Err(ServiceError::plain("no node".to_string())));
    assert_eq!(
        manager.status(),
        &LocalMultiAgentStatus::Failed {
            message: "no node".to_string()
        }
    );
}

#[test]
fn shutdown_ends_the_service() {
    let mut manager = running();
    let effects = manager.shutdown();
    assert!(effects.contains(&LocalMultiAgentEffect::KillChild));
    let again = manager.shutdown();
    assert!(!again.contains(&LocalMultiAgentEffect::KillChild));
}

#[test]
fn changed_config_restarts_the_service() {
    let mut manager = running();
    let mut changed = config();
    changed.port = 9999;
    let effects = manager.set_config(changed.clone(), true).unwrap();
    assert!(effects.iter().any(|effect| matches!(
        effect,
        LocalMultiAgentEffect::SaveConfig { config } if config.port == 9999
    )));
    assert!(effects.contains(&LocalMultiAgentEffect::ScheduleRestart));
    assert_eq!(manager.config().port, 9999);

    let mut bad = config();
    bad.host = "  ".to_string();
    assert!(matches!(
        manager.set_config(bad, true),
        Err(LocalMultiAgentConfigError::InvalidHost)
    ));
    assert_eq!(manager.config().port, 9999);
}

#[test]
fn passed_test_keeps_its_models() {
    let mut manager = running();
    let effects = manager.test_backend();
    assert_eq!(manager.test_status(), &LocalMultiAgentTestStatus::Testing);
    assert!(effects.iter().any(|effect| matches!(
        effect,
        LocalMultiAgentEffect::TestBackend { .. }
    )));

    manager.finish_test(Ok((None, vec!["model-a".to_string()])), true);
    assert_eq!(
        manager.test_status(),
        &LocalMultiAgentTestStatus::Passed { model_count: 1 }
    );
    assert_eq!(manager.discovered_models(), &vec!["model-a".to_string()]);
    assert_eq!(manager.config().openai_model.as_deref(), Some("model-a"));
}

#[test]
fn failed_test_says_why() {
    let mut manager = running();
    manager.test_backend();
    manager.finish_test(Err(ServiceError::plain("refused".to_string())), true);
    assert_eq!(
        manager.test_status(),
        &LocalMultiAgentTestStatus::Failed {
            message: "refused".to_string()
        }
    );
}

#[test]
fn config_errors_are_recorded() {
    let mut manager = running();
    let effects = manager.record_config_error("bad port".to_string());
    assert_eq!(
        manager.status(),
        &LocalMultiAgentStatus::Failed {
            message: "bad port".to_string()
        }
    );
    assert!(effects.contains(&LocalMultiAgentEffect::Emit {
        event: LocalMultiAgentManagerEvent::StatusChanged
    }));
}

#[test]
fn each_setting_is_checked() {
    let mut bad = config();
    bad.port = 0;
    assert_eq!(
        bad.validate(),
        Err(LocalMultiAgentConfigError::InvalidPort)
    );
    let mut bad = config();
    bad.local_max_history_messages = 0;
    assert_eq!(
        bad.validate(),
        Err(LocalMultiAgentConfigError::InvalidMaxHistoryMessages)
    );
    let mut bad = config();
    bad.log_level = "loud".to_string();
    assert_eq!(
        bad.validate(),
        Err(LocalMultiAgentConfigError::InvalidLogLevel)
    );
    let mut bad = config();
    bad.local_model_aliases = "{".to_string();
    assert!(matches!(
        bad.validate(),
        Err(LocalMultiAgentConfigError::InvalidModelAliases { .. })
    ));
    assert_eq!(config().validate(), Ok(()));
}

#[test]
fn aliases_read_back() {
    let mut changed = config();
    changed.set_model_alias("auto", "model-a").unwrap();
    assert_eq!(
        changed.model_aliases().unwrap().get("auto"),
        Some("model-a")
    );
    assert!(parse_model_aliases("[]").is_err());
    assert_eq!(
        parse_model_list_ids(" a, b ,,a"),
        vec!["a".to_string(), "b".to_string(), "a".to_string()]
    );
}

#[test]
fn applying_the_same_models_changes_nothing() {
    let mut changed = config();
    let models = vec!["m1".to_string(), "m2".to_string()];
    assert!(changed.apply_discovered_models(&models).unwrap());
    assert!(!changed.apply_discovered_models(&models).unwrap());
    let choices = changed.model_choices(&models);
    assert!(choices.contains(&"m1".to_string()));
    assert!(choices.contains(&"m2".to_string()));
}

#[test]
fn stored_config_reads_back() {
    let mut changed = config();
    changed.openai_model = Some("model-a".to_string());
    changed.port = 4321;
    let text = changed.to_json_text();
    assert_eq!(LocalMultiAgentConfig::load(Some(&text)), changed);
    assert_eq!(LocalMultiAgentConfig::load(None), config());
    assert_eq!(LocalMultiAgentConfig::load(Some("no json")), config());
    assert!(LocalMultiAgentConfig::from_json(&JsonValue::parse("[]").unwrap()).is_none());
    let twice = text.replacen("{", "{\"port\":1,", 1);
    assert_eq!(LocalMultiAgentConfig::load(Some(&twice)), config());
    let unknown = text.replacen("{", "{\"x\":1,\"x\":2,", 1);
    assert_eq!(LocalMultiAgentConfig::load(Some(&unknown)), changed);
    let listed = r#"["h",1,null,"m","{}","",false,4,null,null,"info",null,"p"]"#;
    let config = LocalMultiAgentConfig::load(Some(listed));
    assert_eq!(config.host, "h");
    assert_eq!(config.openai_model.as_deref(), Some("m"));
    assert_eq!(config.local_multi_agent_system_prompt, "p");
}

#[test]
fn hash_tells_configs_apart() {
    let first = config().config_hash();
    assert_eq!(first.len(), 16);
    assert!(first.chars().all(|c| c.is_ascii_hexdigit()));
    assert_eq!(first, config().config_hash());
    let mut changed = config();
    changed.port = 4321;
    assert_ne!(first, changed.config_hash());
}

#[test]
fn provider_addresses_are_checked() {
    assert_eq!(validate_absolute_http_url("http://127.0.0.1:1234/v1"), Ok(()));
    assert!(validate_absolute_http_url("ftp://127.0.0.1").is_err());
    assert!(validate_absolute_http_url("nothing").is_err());
    let request = provider_models_request("http://127.0.0.1:1234/v1/", Some("key")).unwrap();
    assert_eq!(request.url, "http://127.0.0.1:1234/v1/models");
    assert_eq!(request.bearer.as_deref(), Some("key"));
    let request = provider_models_request("http://127.0.0.1:1234/v1", Some("  ")).unwrap();
    assert_eq!(request.bearer, None);
}

#[test]
fn provider_models_are_read() {
    assert_eq!(
        read_provider_models(
            true,
            "200 OK",
            r#"{"data": [{"id": "b"}, {"id": "a"}, {"id": "b"}]}"#
        )
        .unwrap()
        .len(),
        2
    );
    assert!(read_provider_models(false, "401 Unauthorized", "").is_err());
    assert!(read_provider_models(true, "200 OK", "no json").is_err());
}

#[test]
fn health_of_the_service() {
    assert!(check_health_response(false, "500", "").is_err());
    assert!(check_health_response(true, "200 OK", "{").is_err());
    assert!(waits_for_health(0));
    assert!(!waits_for_health(1_000_000));
    assert_eq!(
        health_wait_error(Some(ServiceError::plain("late".to_string()))).message,
        "late"
    );
    assert!(!health_wait_error(None).message.is_empty());
    assert!(port_in_use(&config(), "busy").message.contains("8787"));
    assert!(missing_entrypoint("/srv/index.js")
        .message
        .contains("/srv/index.js"));
    assert_eq!(
        health_url("http://127.0.0.1:8787").unwrap(),
        "http://127.0.0.1:8787/health"
    );
}

#[test]
fn root_url_comes_from_the_service_first() {
    assert_eq!(
        local_no_cloud_root_url(Some("http://set".to_string()), "http://built-in").as_deref(),
        Some("http://set")
    );
    assert_eq!(
        local_no_cloud_root_url(None, "http://127.0.0.1:8787").as_deref(),
        Some("http://127.0.0.1:8787/")
    );
    assert_eq!(
        local_no_cloud_root_url(None, "https://h/x").as_deref(),
        Some("https://h/x")
    );
    assert_eq!(local_no_cloud_root_url(None, "mailto:a@b"), None);
    assert_eq!(local_no_cloud_root_url(None, "no address"), None);
    assert_eq!(
        config().root_url().unwrap(),
        "http://127.0.0.1:8787/"
    );
}

#[test]
fn errors_carry_their_cause() {
    let error = ServiceError::caused("Could not start".to_string(), "no file".to_string());
    assert_eq!(error.whole(), "Could not start: no file");
    assert_eq!(ServiceError::plain("plain".to_string()).whole(), "plain");
}

#[test]
fn installed_runtime_is_used_when_it_works() {
    let (mut selection, action) = NodeSelection::new(Some("/usr/bin".to_string()));
    assert_eq!(action, NodeAction::FindInstalled);
    let action = selection.next(NodeEvent::Found {
        binary: Some("/opt/node".to_string()),
    });
    assert!(matches!(
        action,
        NodeAction::CheckDependencies { ref binary, .. } if binary == "/opt/node"
    ));
    assert_eq!(
        selection.next(NodeEvent::Tried { error: None }),
        NodeAction::Use {
            binary: "/opt/node".to_string()
        }
    );
}

#[test]
fn system_runtime_comes_next_and_a_fresh_one_last() {
    let (mut selection, _) = NodeSelection::new(Some("/usr/bin".to_string()));
    assert!(matches!(
        selection.next(NodeEvent::Found { binary: None }),
        NodeAction::DetectSystem { .. }
    ));
    assert!(matches!(
        selection.next(NodeEvent::Tried { error: None }),
        NodeAction::CheckDependencies { .. }
    ));
    assert_eq!(
        selection.next(NodeEvent::Tried {
            error: Some("old".to_string())
        }),
        NodeAction::Install
    );
    assert_eq!(
        selection.next(NodeEvent::Tried { error: None }),
        NodeAction::Locate
    );
    selection.next(NodeEvent::Located {
        binary: Ok("/fresh/node".to_string()),
    });
    match selection.next(NodeEvent::Tried {
        error: Some("broken".to_string()),
    }) {
        NodeAction::Fail { error } => assert!(error.whole().contains("broken")),
        other => panic!("expected a failure, got {other:?}"),
    }
}

#[test]
fn dependencies_that_do_not_load_are_reported() {
    assert_eq!(validate_service_node_dependencies(true, "node", ""), None);
    assert!(validate_service_node_dependencies(false, "node", " no module ")
        .unwrap()
        .contains("no module"));
}

#[test]
fn new_keys_restart_the_service() {
    let mut manager = running();
    let effects = manager.update_provider_config(Some("key".to_string()), true);
    assert!(effects.contains(&LocalMultiAgentEffect::ScheduleRestart));
    assert!(manager
        .update_provider_config(Some("key".to_string()), true)
        .is_empty());
    assert!(manager
        .restart_with_config(true)
        .contains(&LocalMultiAgentEffect::ScheduleRestart));
}

/// What is wrong with a health, behind what is said first.
fn health_fault(body: &str) -> String {
    let error = check_health_response(true, "200 OK", body).unwrap_err();
    assert_eq!(
        error.message,
        "health response was not Warp local service JSON"
    );
    error
        .cause
        .unwrap()
        .strip_prefix("error decoding response body: ")
        .unwrap()
        .to_string()
}

#[test]
fn unreadable_health_names_its_fault() {
    assert_eq!(
        health_fault("{"),
        "EOF while parsing an object at line 1 column 1"
    );
    assert_eq!(health_fault(r#"{"version": "1"}"#), "missing field `ok`");
    assert_eq!(
        health_fault(r#"{"ok": "yes", "version": 3}"#),
        "invalid type: string, expected a boolean in field `ok`"
    );
    assert_eq!(
        health_fault(r#"{"version": 3, "ok": "yes"}"#),
        "invalid type: integer, expected a string in field `version`"
    );
    assert_eq!(
        health_fault(r#"{"ok": true, "other": 1, "ok": true}"#),
        "duplicate field `ok`"
    );
    assert_eq!(
        health_fault("7.5"),
        "invalid type: floating point, expected struct LocalMultiAgentHealthResponse"
    );
    assert_eq!(
        health_fault("[true]"),
        "invalid length 1, expected struct LocalMultiAgentHealthResponse with 2 elements"
    );
    assert_eq!(health_fault("[true, null, 1]"), "trailing characters");
    assert_eq!(
        health_fault("[null, null]"),
        "invalid type: null, expected a boolean in field `ok`"
    );
    assert_eq!(
        check_health_response(true, "200 OK", r#"{"ok": true, "version": ""}"#)
            .unwrap_err()
            .whole(),
        "health response did not identify a Warp local service"
    );
    assert!(check_health_response(true, "200 OK", r#"{"ok": true, "version": "1"}"#).is_ok());
}

#[test]
fn unreadable_models_name_their_fault() {
    let whole = |body: &str| {
        read_provider_models(true, "200 OK", body)
            .unwrap_err()
            .whole()
    };
    let start = "provider models response was not OpenAI-compatible JSON: \
                 error decoding response body: ";
    assert_eq!(
        whole("no json"),
        format!("{start}expected ident at line 1 column 2")
    );
    assert_eq!(whole("{}"), format!("{start}missing field `data`"));
    assert_eq!(
        whole(r#"{"data": {}}"#),
        format!("{start}invalid type: map, expected a sequence in field `data`")
    );
    assert_eq!(
        whole("[]"),
        format!("{start}invalid length 0, expected struct ProviderModelsResponse with 1 element")
    );
}

#[test]
fn healthy_service_is_used_as_it_is() {
    let (mut launch, action) = ServiceLaunch::new(&config()).unwrap();
    let root_url = config().root_url().unwrap();
    assert_eq!(
        action,
        LaunchAction::CheckHealth {
            root_url: root_url.clone()
        }
    );
    assert_eq!(
        launch.next(LaunchEvent::Health { healthy: true }),
        LaunchAction::Finish {
            result: StartServiceResult {
                has_child: false,
                root_url,
                pid: None,
                config_hash: config().config_hash(),
            }
        }
    );
    assert_eq!(
        launch.next(LaunchEvent::Health { healthy: false }),
        LaunchAction::Wait
    );
}

#[test]
fn service_is_started_step_by_step() {
    let mut own = config();
    own.host = " 127.0.0.1 ".to_string();
    let (mut launch, _) = ServiceLaunch::new(&own).unwrap();
    assert_eq!(
        launch.next(LaunchEvent::Spawned { pid: Ok(1) }),
        LaunchAction::Wait
    );
    assert_eq!(
        launch.next(LaunchEvent::Health { healthy: false }),
        LaunchAction::CheckPort {
            host: "127.0.0.1".to_string(),
            port: own.port,
        }
    );
    assert_eq!(
        launch.next(LaunchEvent::Port { error: None }),
        LaunchAction::FindBundle
    );
    let entrypoint = "/srv/dist/server.js".to_string();
    assert_eq!(
        launch.next(LaunchEvent::Bundle {
            entrypoint: Some(entrypoint.clone())
        }),
        LaunchAction::CheckEntrypoint {
            entrypoint: entrypoint.clone()
        }
    );
    assert_eq!(
        launch.next(LaunchEvent::Entrypoint { found: true }),
        LaunchAction::PreparePaths
    );
    assert_eq!(
        launch.next(LaunchEvent::Paths { error: None }),
        LaunchAction::SelectRuntime
    );
    assert_eq!(
        launch.next(LaunchEvent::Runtime {
            binary: Ok("/opt/node".to_string())
        }),
        LaunchAction::Spawn {
            binary: "/opt/node".to_string(),
            entrypoint,
        }
    );
    assert!(matches!(
        launch.next(LaunchEvent::Spawned { pid: Ok(7) }),
        LaunchAction::AwaitHealth { .. }
    ));
    assert!(matches!(
        launch.next(LaunchEvent::Awaited { error: None }),
        LaunchAction::Finish { result } if result.has_child && result.pid == Some(7)
    ));
}

/// A start that waits for what follows the first events.
fn launched(events: Vec<LaunchEvent>) -> ServiceLaunch {
    let (mut launch, _) = ServiceLaunch::new(&config()).unwrap();
    for event in events {
        assert_ne!(launch.next(event), LaunchAction::Wait);
    }
    launch
}

/// The events of a start that goes well, up to the process.
fn events() -> Vec<LaunchEvent> {
    vec![
        LaunchEvent::Health { healthy: false },
        LaunchEvent::Port { error: None },
        LaunchEvent::Bundle {
            entrypoint: Some("/srv/server.js".to_string()),
        },
        LaunchEvent::Entrypoint { found: true },
        LaunchEvent::Paths { error: None },
        LaunchEvent::Runtime {
            binary: Ok("node".to_string()),
        },
        LaunchEvent::Spawned { pid: Ok(7) },
    ]
}

#[test]
fn each_step_of_a_start_can_fail() {
    let failure = |count: usize, event: LaunchEvent| {
        let mut before = events();
        before.truncate(count);
        match launched(before).next(event) {
            LaunchAction::Fail { error, kills_child } => (error.whole(), kills_child),
            action => panic!("{action:?}"),
        }
    };
    let late = || ServiceError::plain("late".to_string());
    assert_eq!(
        failure(
            1,
            LaunchEvent::Port {
                error: Some("busy".to_string())
            }
        ),
        (
            "Port 8787 on 127.0.0.1 is already in use and does not look like a healthy Warp local \
             service: busy"
                .to_string(),
            false
        )
    );
    assert_eq!(
        failure(2, LaunchEvent::Bundle { entrypoint: None }),
        ("Local multi-agent service is not bundled".to_string(), false)
    );
    assert_eq!(
        failure(3, LaunchEvent::Entrypoint { found: false }),
        (
            "Local multi-agent entrypoint not found at /srv/server.js. Build or bundle \
             tools/local-multi-agent first."
                .to_string(),
            false
        )
    );
    assert_eq!(
        failure(4, LaunchEvent::Paths { error: Some(late()) }),
        ("late".to_string(), false)
    );
    assert_eq!(
        failure(5, LaunchEvent::Runtime { binary: Err(late()) }),
        ("late".to_string(), false)
    );
    assert_eq!(
        failure(
            6,
            LaunchEvent::Spawned {
                pid: Err("no file".to_string())
            }
        ),
        ("Failed to spawn /srv/server.js: no file".to_string(), false)
    );
    assert_eq!(
        failure(7, LaunchEvent::Awaited { error: Some(late()) }),
        ("late".to_string(), true)
    );
}

#[test]
fn start_needs_a_sound_configuration() {
    let mut own = config();
    own.port = 0;
    assert_eq!(
        ServiceLaunch::new(&own).unwrap_err().whole(),
        "Port must be between 1 and 65535."
    );
}

#[test]
fn backend_test_starts_a_service_only_where_none_answers() {
    let mut test = BackendTest::new();
    assert_eq!(
        test.next(BackendTestEvent::Health { healthy: true }),
        BackendTestAction::FetchModels
    );
    assert_eq!(
        test.next(BackendTestEvent::Models {
            result: Ok(vec!["m".to_string()])
        }),
        BackendTestAction::Finish {
            result: Ok((None, vec!["m".to_string()])),
            kills_child: false,
        }
    );
    let mut test = BackendTest::new();
    assert_eq!(
        test.next(BackendTestEvent::Health { healthy: false }),
        BackendTestAction::StartService
    );
    assert_eq!(
        test.next(BackendTestEvent::Models { result: Ok(vec![]) }),
        BackendTestAction::Wait
    );
    let own = || started("http://127.0.0.1:8787/");
    assert_eq!(
        test.next(BackendTestEvent::Started { result: Ok(own()) }),
        BackendTestAction::FetchModels
    );
    assert_eq!(
        test.next(BackendTestEvent::Models {
            result: Ok(vec!["m".to_string()])
        }),
        BackendTestAction::Finish {
            result: Ok((Some(own()), vec!["m".to_string()])),
            kills_child: false,
        }
    );
}

#[test]
fn failed_backend_test_leaves_no_process() {
    let late = || ServiceError::plain("late".to_string());
    let mut test = BackendTest::new();
    test.next(BackendTestEvent::Health { healthy: false });
    assert_eq!(
        test.next(BackendTestEvent::Started { result: Err(late()) }),
        BackendTestAction::Finish {
            result: Err(late()),
            kills_child: false,
        }
    );
    for has_child in [true, false] {
        let mut own = started("http://127.0.0.1:8787/");
        own.has_child = has_child;
        let mut test = BackendTest::new();
        test.next(BackendTestEvent::Health { healthy: false });
        test.next(BackendTestEvent::Started { result: Ok(own) });
        assert_eq!(
            test.next(BackendTestEvent::Models { result: Err(late()) }),
            BackendTestAction::Finish {
                result: Err(late()),
                kills_child: has_child,
            }
        );
    }
}
