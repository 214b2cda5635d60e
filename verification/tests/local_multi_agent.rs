//! The agent service on this machine.
use slipstream::local_multi_agent::config::{
    default_graphql_db_path, default_log_path,
    local_model_alias_ids, non_empty_str, LocalMultiAgentConfig, LocalMultiAgentConfigError,
    ServicePlaces,
};
use slipstream::local_multi_agent::service::prepare_service_paths;
use slipstream::local_multi_agent::stored::config_schema_defaults;
use slipstream::text_map::TextMap;
use slipstream::path::PathStyle;
use std::path::Path;

fn places() -> ServicePlaces {
    ServicePlaces {
        path_style: PathStyle::Posix,
        data_dir: "/var/lib/slipstream".to_string(),
        log_dir: None,
    }
}

#[test]
fn default_config_matches_schema() {
    let schema = config_schema_defaults();
    let config = LocalMultiAgentConfig::default();
    assert_eq!(config.host, schema.host);
    assert_eq!(config.port, schema.port);
    assert_eq!(
        config.openai_base_url.as_deref(),
        non_empty_str(&schema.openai_base_url)
    );
    assert_eq!(config.local_model_aliases, schema.local_model_aliases);
    assert_eq!(config.local_model_list, schema.local_model_list);
    assert_eq!(config.local_enable_tools, schema.local_enable_tools);
    assert_eq!(
        config.local_max_history_messages,
        schema.local_max_history_messages
    );
    assert_eq!(config.log_level, schema.log_level);
}

#[test]
fn config_to_env_uses_defaults_for_paths_and_provider_settings() {
    let config = LocalMultiAgentConfig {
        openai_base_url: Some("http://127.0.0.1:11434/v1".to_string()),
        ..Default::default()
    };
    let env = config.env(Some("sk-test"), &places());
    assert_eq!(env.get("HOST"), Some("127.0.0.1"));
    assert_eq!(env.get("PORT"), Some("8787"));
    assert_eq!(
        env.get("OPENAI_API_KEY"),
        Some("sk-test")
    );
    assert_eq!(
        env.get("OPENAI_BASE_URL"),
        Some("http://127.0.0.1:11434/v1")
    );
    assert!(env
        .get("LOCAL_GRAPHQL_DB_PATH")
        .is_some_and(|v| v.ends_with(".sqlite")));
    assert!(env
        .get("LOCAL_SERVICE_LOG_PATH")
        .is_some_and(|v| v.ends_with(".log")));
}

#[test]
fn validation_rejects_bad_json_settings() {
    let config = LocalMultiAgentConfig {
        local_model_aliases: "[]".to_string(),
        ..Default::default()
    };
    assert!(matches!(
        config.validate(),
        Err(LocalMultiAgentConfigError::ModelAliasesMustBeObject)
    ));

    let config = LocalMultiAgentConfig {
        local_model_context_tokens: Some("not-json".to_string()),
        ..Default::default()
    };
    assert!(matches!(
        config.validate(),
        Err(LocalMultiAgentConfigError::InvalidContextTokensJson { .. })
    ));
}

#[test]
fn validation_rejects_bad_openai_base_url() {
    let config = LocalMultiAgentConfig {
        openai_base_url: Some("localhost:11434/v1".to_string()),
        ..Default::default()
    };
    assert!(matches!(
        config.validate(),
        Err(LocalMultiAgentConfigError::InvalidOpenAiBaseUrl)
    ));
}

#[test]
fn discovered_models_update_default_aliases_and_model_list() {
    let mut config = LocalMultiAgentConfig {
        openai_model: Some("missing".to_string()),
        local_model_aliases: r#"{"custom":"kept"}"#.to_string(),
        local_model_list: "old".to_string(),
        ..Default::default()
    };
    let models = vec!["model-a".to_string(), "model-b".to_string()];

    assert!(config.apply_discovered_models(&models).unwrap());
    assert_eq!(config.openai_model.as_deref(), Some("model-a"));
    assert_eq!(config.local_model_list, "model-a,model-b");

    let aliases = config.model_aliases().unwrap();
    assert_eq!(aliases.get("custom"), Some("kept"));
    for alias in local_model_alias_ids() {
        assert_eq!(aliases.get(&alias), Some("model-a"));
    }
}

#[test]
fn prepare_service_paths_creates_parent_directories() {
    let mut env = TextMap::new();
    env.insert(
        "LOCAL_GRAPHQL_DB_PATH".to_string(),
        "/tmp/slipstream/data/local-graphql.sqlite".to_string(),
    );
    env.insert(
        "LOCAL_SERVICE_LOG_PATH".to_string(),
        "/tmp/slipstream/logs/local-service.log".to_string(),
    );

    let directories = prepare_service_paths(&env)
        .iter()
        .map(|file| Path::new(&file.path).parent().unwrap().to_owned())
        .collect::<Vec<_>>();
    assert_eq!(
        directories,
        vec![
            Path::new("/tmp/slipstream/data"),
            Path::new("/tmp/slipstream/logs"),
        ]
    );
}

#[test]
fn default_paths_lie_with_the_data() {
    assert_eq!(
        default_graphql_db_path(PathStyle::Posix, "/data"),
        "/data/local-multi-agent/local-graphql.sqlite"
    );
    assert_eq!(
        default_graphql_db_path(PathStyle::Windows, "C:\\data"),
        "C:\\data\\local-multi-agent\\local-graphql.sqlite"
    );
    assert_eq!(
        default_log_path(PathStyle::Posix, None, "/data"),
        "/data/local-multi-agent.log"
    );
    assert_eq!(
        default_log_path(PathStyle::Posix, Some("/logs"), "/data"),
        "/logs/local-multi-agent.log"
    );
}

#[test]
fn aliases_read_back_without_space() {
    let mut config = LocalMultiAgentConfig {
        local_model_aliases: r#"{"custom":" kept ","empty":" "}"#.to_string(),
        ..Default::default()
    };
    config.set_model_alias("auto", "  model-a ").unwrap();
    let aliases = config.model_aliases().unwrap();
    assert_eq!(aliases.get("auto"), Some("model-a"));
    assert_eq!(aliases.get("custom"), Some("kept"));
    assert_eq!(aliases.get("empty"), None);
}

#[test]
fn discovered_models_keep_valid_aliases() {
    let kept = &local_model_alias_ids()[1];
    let mut config = LocalMultiAgentConfig::default();
    config.set_model_alias(kept, "model-b").unwrap();
    let models = vec!["model-a".to_string(), "model-b".to_string()];
    assert!(config.apply_discovered_models(&models).unwrap());
    let aliases = config.model_aliases().unwrap();
    for alias in local_model_alias_ids() {
        let model = if &alias == kept { "model-b" } else { "model-a" };
        assert_eq!(aliases.get(&alias), Some(model));
    }
}
