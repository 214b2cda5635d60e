//! What holds of the local service: how it is started, watched and tested, and what is made of the
//! answers of it and of the provider.
use crate::decode::{flag, optional_text, small_number};
use crate::json::JsonView;
use crate::local_multi_agent::config::{
    AgentConfigView, base_url_of, config_error, config_error_message, given_option, listed_models,
    root_of,
};
use crate::local_multi_agent::launch::{
    LaunchActionView, LaunchEventView, LaunchStageView, LaunchView,
};
use crate::local_multi_agent::manager::{
    ManagerEffectView, ManagerView, ServiceStatusView, StartResultView, TestStatusView,
};
use crate::local_multi_agent::node::{
    NodeActionView, NodeEventView, NodeSelectionView, NodeStageView, dependency_error,
};
use crate::local_multi_agent::service::{
    ServiceErrorView, health_error, is_log_off, models_url_of, names_service, no_cloud_root,
    offered_models, port_error, service_paths_of, stated_models, wait_error, whole_message,
};
use crate::local_multi_agent::stored::{
    config_of_json, config_of_members, hex_digit, hex_text, loaded_config,
};
use crate::members::members_parse;
use crate::server_url::{is_network_scheme, url_parse, url_text};
use crate::text::{distinct, join, lower, trim};
use crate::text_laws::law_lower;
use crate::text_map::value_under;
use vstd::prelude::*;

verus! {

/// A start that goes well takes the port that is configured, the entry point and the runtime that
/// were found, and the service's own address, each as it is.
pub proof fn law_launch_details(
    launch: LaunchView,
    entrypoint: Seq<char>,
    binary: Seq<char>,
    pid: u32,
)
    ensures
        launch.at(LaunchStageView::CheckingHealth).next(
            LaunchEventView::Health { healthy: false },
        ).1 == (LaunchActionView::CheckPort {
            host: trim(launch.config.host),
            port: launch.config.port,
        }),
        launch.at(LaunchStageView::CheckingHealth).next(LaunchEventView::Health { healthy: true }).1
            is Finish,
        launch.at(LaunchStageView::CheckingPort).next(LaunchEventView::Port { error: None }).1
            is FindBundle,
        launch.at(LaunchStageView::FindingBundle).next(
            LaunchEventView::Bundle { entrypoint: Some(entrypoint) },
        ).1 == (LaunchActionView::CheckEntrypoint { entrypoint }),
        launch.at(LaunchStageView::CheckingEntrypoint { entrypoint }).next(
            LaunchEventView::Entrypoint { found: true },
        ).1 is PreparePaths,
        launch.at(LaunchStageView::PreparingPaths { entrypoint }).next(
            LaunchEventView::Paths { error: None },
        ).1 is SelectRuntime,
        launch.at(LaunchStageView::SelectingRuntime { entrypoint }).next(
            LaunchEventView::Runtime { binary: Ok(binary) },
        ).1 == (LaunchActionView::Spawn { binary, entrypoint }),
        launch.at(LaunchStageView::Spawning { entrypoint }).next(
            LaunchEventView::Spawned { pid: Ok(pid) },
        ).1 == (LaunchActionView::AwaitHealth { root_url: launch.root_url }),
        launch.at(LaunchStageView::AwaitingHealth { pid }).next(
            LaunchEventView::Awaited { error: None },
        ).1 == (LaunchActionView::Finish {
            result: StartResultView {
                has_child: true,
                root_url: launch.root_url,
                pid: Some(pid),
                config_hash: launch.config_hash,
            },
        }),
{
}

/// A start that goes wrong tells what went wrong.
pub proof fn law_launch_failures(
    launch: LaunchView,
    entrypoint: Seq<char>,
    error: ServiceErrorView,
    cause: Seq<char>,
    pid: u32,
)
    ensures
        launch.at(LaunchStageView::CheckingPort).next(
            LaunchEventView::Port { error: Some(cause) }
        ).1
            == (LaunchActionView::Fail {
            error: port_error(launch.config, cause),
            kills_child: false,
        }),
        launch.at(LaunchStageView::FindingBundle).next(
            LaunchEventView::Bundle { entrypoint: None },
        ).1 is Fail,
        launch.at(LaunchStageView::CheckingEntrypoint { entrypoint }).next(
            LaunchEventView::Entrypoint { found: false },
        ).1 is Fail,
        launch.at(LaunchStageView::PreparingPaths { entrypoint }).next(
            LaunchEventView::Paths { error: Some(error) },
        ).1 == (LaunchActionView::Fail { error, kills_child: false }),
        launch.at(LaunchStageView::SelectingRuntime { entrypoint }).next(
            LaunchEventView::Runtime { binary: Err(error) },
        ).1 == (LaunchActionView::Fail { error, kills_child: false }),
        launch.at(LaunchStageView::Spawning { entrypoint }).next(
            LaunchEventView::Spawned { pid: Err(cause) },
        ).1 == (LaunchActionView::Fail {
            error: ServiceErrorView {
                message: "Failed to spawn "@ + entrypoint,
                cause: Some(cause),
            },
            kills_child: false,
        }),
        launch.at(LaunchStageView::AwaitingHealth { pid }).next(
            LaunchEventView::Awaited { error: Some(error) },
        ).1 == (LaunchActionView::Fail { error, kills_child: true }),
        whole_message(ServiceErrorView { message: entrypoint, cause: Some(cause) }) == entrypoint
            + ": "@ + cause,
        whole_message(ServiceErrorView { message: entrypoint, cause: None }) == entrypoint,
{
}

/// A runtime is looked for first among those installed, then in the system where it has a path, and
/// is installed where neither serves.
pub proof fn law_runtime_order(
    selection: NodeSelectionView,
    binary: Seq<char>,
    error: Seq<char>,
    path: Seq<char>,
)
    ensures
        selection.at(NodeStageView::FindingInstalled).next(
            NodeEventView::Found { binary: Some(binary) },
        ).1 == (NodeActionView::CheckDependencies { binary, path_env: None }),
        selection.path_env == Some(path) ==> selection.at(NodeStageView::FindingInstalled).next(
            NodeEventView::Found { binary: None },
        ).1 == (NodeActionView::DetectSystem { path_env: path }),
        selection.path_env is None ==> selection.at(NodeStageView::FindingInstalled).next(
            NodeEventView::Found { binary: None },
        ).1 is Install,
        selection.at(NodeStageView::CheckingInstalled { binary }).next(
            NodeEventView::Tried { error: None },
        ).1 == (NodeActionView::Use { binary }),
        ({
            let next = selection.at(NodeStageView::CheckingInstalled { binary }).next(
                NodeEventView::Tried { error: Some(error) },
            );
            &&& next.0.failures == selection.failures.push("custom node "@ + binary + ": "@ + error)
            &&& (selection.path_env == Some(path) ==> next.1 == (NodeActionView::DetectSystem {
                path_env: path,
            }))
            &&& (selection.path_env is None ==> next.1 is Install)
        }),
        selection.at(NodeStageView::DetectingSystem).next(NodeEventView::Tried { error: None }).1
            == (NodeActionView::CheckDependencies {
            binary: "node"@,
            path_env: selection.path_env,
        }),
        selection.at(NodeStageView::CheckingSystem).next(NodeEventView::Tried { error: None }).1
            == (NodeActionView::Use { binary: "node"@ }),
        selection.at(NodeStageView::DetectingSystem).next(
            NodeEventView::Tried { error: Some(error) },
        ).1 is Install,
        selection.at(NodeStageView::CheckingSystem).next(
            NodeEventView::Tried { error: Some(error) },
        ).1 is Install,
        selection.at(NodeStageView::CheckingSystem).next(
            NodeEventView::Tried { error: Some(error) },
        ).0.failures == selection.failures.push("system node: "@ + error),
        selection.at(NodeStageView::Installing).next(NodeEventView::Tried { error: None }).1
            is Locate,
        selection.at(NodeStageView::Installing).next(NodeEventView::Tried { error: Some(error) }).1
            is Fail,
        selection.at(NodeStageView::Locating).next(NodeEventView::Located { binary: Ok(binary) }).1
            == (NodeActionView::CheckDependencies { binary, path_env: None }),
        selection.at(NodeStageView::Locating).next(NodeEventView::Located { binary: Err(error) }).1
            is Fail,
        selection.at(NodeStageView::CheckingFresh { binary }).next(
            NodeEventView::Tried { error: None },
        ).1 == (NodeActionView::Use { binary }),
        selection.at(NodeStageView::CheckingFresh { binary }).next(
            NodeEventView::Tried { error: Some(error) },
        ).1 is Fail,
{
}

/// Where no runtime serves, all earlier attempts are told, in order, with the last cause.
pub proof fn law_all_attempts_are_told(
    selection: NodeSelectionView,
    binary: Seq<char>,
    cause: Seq<char>,
)
    ensures
        selection.no_runtime(binary, cause).cause == Some(cause),
        selection.failures.len() > 0 ==> selection.no_runtime(binary, cause).message
            == "No compatible Node.js runtime found for local multi-agent service. Previous attempts: "@
            + join(selection.failures, "; "@),
        dependency_error(true, binary, cause) is None,
        dependency_error(false, binary, cause) == Some(
            binary + " failed to load local multi-agent service dependencies: "@ + trim(cause),
        ),
{
}

/// The service is healthy exactly where its answer succeeds and says that it is one, with a version.
pub proof fn law_healthy_service(is_success: bool, status: Seq<char>, body: Seq<char>)
    ensures
        health_error(is_success, status, body) is None <==> is_success && (members_parse(body)
            matches Ok(value) && names_service(value) == Some(true)),
        !is_success ==> health_error(is_success, status, body) == Some(
            ServiceErrorView { message: "HTTP "@ + status, cause: None },
        ),
{
}

/// The last error of a wait is told, else that the time is over.
pub proof fn law_wait(last: ServiceErrorView)
    ensures
        wait_error(Some(last)) == last,
        wait_error(None).message == "Timed out waiting for local service health check"@,
{
}

/// The models of a provider are asked for at the same place with a slash at the end of its address
/// and without.
pub proof fn law_models_address(base_url: Seq<char>)
    ensures
        models_url_of(base_url.push('/')) == models_url_of(base_url),
        base_url.len() > 0 && base_url.last() != '/' ==> models_url_of(base_url) == base_url
            + "/models"@,
{
    assert(base_url.push('/').drop_last() =~= base_url);
}

/// The models of a provider are those that its answer lists, each once; there is an error exactly
/// where the answer fails, cannot be read, or lists none.
pub proof fn law_models_of_a_provider(is_success: bool, status: Seq<char>, body: Seq<char>)
    ensures
        !is_success ==> offered_models(is_success, status, body) == Err::<
            Seq<Seq<char>>,
            ServiceErrorView,
        >(
            ServiceErrorView {
                message: "provider models request failed with HTTP "@ + status,
                cause: None,
            },
        ),
        is_success && members_parse(body) is Err ==> offered_models(
            is_success,
            status,
            body,
        ) is Err,
        is_success ==> (members_parse(body) matches Ok(value) ==> (stated_models(value) matches Some(
            items,
        ) ==> (offered_models(is_success, status, body) is Ok <==> listed_models(items).len() > 0)
            && (listed_models(items).len() > 0 ==> offered_models(is_success, status, body) == Ok::<
            Seq<Seq<char>>,
            ServiceErrorView,
        >(distinct(listed_models(items)))))),
        is_success ==> (members_parse(body) matches Ok(value) ==> (stated_models(value) is None
            ==> offered_models(is_success, status, body) is Err)),
{
}

/// The paths of the service are prepared where they are given: that of the data, and that of the log
/// unless the log is off.
pub proof fn law_prepared_paths(env: Seq<(Seq<char>, Seq<char>)>, db: Seq<char>, log: Seq<char>)
    ensures
        given_option(value_under(env, "LOCAL_GRAPHQL_DB_PATH"@)) == Some(db) && given_option(
            value_under(env, "LOCAL_SERVICE_LOG_PATH"@),
        ) == Some(log) && !is_log_off(log) ==> service_paths_of(env).len() == 2
            && service_paths_of(env)[0].path == db && service_paths_of(env)[1].path == log,
        given_option(value_under(env, "LOCAL_GRAPHQL_DB_PATH"@)) == Some(db) && given_option(
            value_under(env, "LOCAL_SERVICE_LOG_PATH"@),
        ) == Some(log) && is_log_off(log) ==> service_paths_of(env).len() == 1
            && service_paths_of(env)[0].path == db,
        given_option(value_under(env, "LOCAL_GRAPHQL_DB_PATH"@)) is None && given_option(
            value_under(env, "LOCAL_SERVICE_LOG_PATH"@),
        ) == Some(log) && !is_log_off(log) ==> service_paths_of(env).len() == 1
            && service_paths_of(env)[0].path == log,
        given_option(value_under(env, "LOCAL_GRAPHQL_DB_PATH"@)) is None && given_option(
            value_under(env, "LOCAL_SERVICE_LOG_PATH"@),
        ) is None ==> service_paths_of(env).len() == 0,
        is_log_off(log) == is_log_off(lower(log)),
{
    law_lower(log);
    law_lower(lower(log));
    assert(lower(lower(log)) =~= lower(log));
}

/// The address of the service without the cloud is the one that is set, else the one that is built
/// in where that is one of a network.
pub proof fn law_root_without_cloud(set: Seq<char>, built_in: Seq<char>)
    ensures
        no_cloud_root(Some(set), built_in) == Some(set),
        url_parse(built_in) is Err ==> no_cloud_root(None, built_in) is None,
        url_parse(built_in) matches Ok(url) ==> (no_cloud_root(None, built_in) is Some
            <==> is_network_scheme(url.scheme)),
        url_parse(built_in) matches Ok(url) ==> (is_network_scheme(url.scheme) ==> no_cloud_root(
            None,
            built_in,
        ) == Some(url_text(url))),
{
}

/// Every byte of a fingerprint can be read back from its two hexadecimal digits.
pub proof fn law_bytes_read_back(bytes: Seq<u8>)
    ensures
        hex_text(bytes).len() == 2 * bytes.len(),
        forall|i: int|
            0 <= i < bytes.len() ==> (#[trigger] bytes[i]) as int == hex_value(
                hex_text(bytes)[2 * i],
            ) * 16 + hex_value(hex_text(bytes)[2 * i + 1]),
    decreases bytes.len(),
{
    if bytes.len() > 0 {
        let front = bytes.drop_last();
        let n = bytes.len() - 1;
        law_bytes_read_back(front);
        let text = hex_text(bytes);
        let before = hex_text(front);
        assert forall|i: int| 0 <= i < bytes.len() implies (
            #[trigger] bytes[i]
        ) as int == hex_value(
            text[2 * i],
        ) * 16 + hex_value(text[2 * i + 1]) by {
            if i < n {
                assert(front[i] == bytes[i]);
                assert(text[2 * i] == before[2 * i]);
                assert(text[2 * i + 1] == before[2 * i + 1]);
            } else {
                let last = bytes.last() as int;
                assert(0 <= last / 16 < 16);
                assert(0 <= last % 16 < 16);
                assert(text[2 * n] == hex_digit(last / 16));
                assert(text[2 * n + 1] == hex_digit(last % 16));
            }
        }
    }
}

/// The number that a hexadecimal digit stands for.
pub open spec fn hex_value(c: char) -> int {
    if '0' <= c <= '9' {
        c as int - '0' as int
    } else {
        c as int - 'a' as int + 10
    }
}

/// A stored configuration is loaded where it can be read; else, and where none is stored, the
/// default is.
pub proof fn law_loaded_configuration(
    text: Seq<char>,
    default: AgentConfigView,
    config: AgentConfigView,
)
    ensures
        loaded_config(None, default) == default,
        members_parse(text) is Err ==> loaded_config(Some(text), default) == default,
        members_parse(text) matches Ok(value) ==> (config_of_json(value) == Some(config)
            ==> loaded_config(Some(text), default) == config),
        members_parse(text) matches Ok(value) ==> (config_of_json(value) is None ==> loaded_config(
            Some(text),
            default,
        ) == default),
{
}

/// Each member of a stored configuration is read into the setting of its name.
pub proof fn law_read_configuration(value: JsonView)
    ensures
        config_of_members(value) matches Some(config) ==> {
            &&& value.get_text("host"@) == Some(config.host)
            &&& small_number(value, "port"@) == Some(config.port)
            &&& optional_text(value, "openai_base_url"@) == Some(config.openai_base_url)
            &&& optional_text(value, "openai_model"@) == Some(config.openai_model)
            &&& value.get_text("local_model_aliases"@) == Some(config.local_model_aliases)
            &&& value.get_text("local_model_list"@) == Some(config.local_model_list)
            &&& flag(value, "local_enable_tools"@) == Some(config.local_enable_tools)
            &&& small_number(value, "local_max_history_messages"@) == Some(
                config.local_max_history_messages,
            )
            &&& optional_text(value, "local_model_context_tokens"@) == Some(
                config.local_model_context_tokens,
            )
            &&& optional_text(value, "local_graphql_db_path"@) == Some(config.local_graphql_db_path)
            &&& value.get_text("log_level"@) == Some(config.log_level)
            &&& optional_text(value, "local_service_log_path"@) == Some(
                config.local_service_log_path,
            )
            &&& value.get_text("local_multi_agent_system_prompt"@) == Some(
                config.local_multi_agent_system_prompt,
            )
        },
{
}

/// A running service is told with its address and its process, is published at that address, and
/// has its models read anew; a failed one is told with its reason.
pub proof fn law_started_service(
    state: ManagerView,
    result: StartResultView,
    error: ServiceErrorView,
)
    ensures
        ({
            let (next, told) = state.start_finished(Ok(result));
            &&& next.status == (ServiceStatusView::Running {
                root_url: result.root_url,
                pid: result.pid,
                config_hash: result.config_hash,
            })
            &&& told.contains(
                ManagerEffectView::SetGlobalRootUrl { root_url: Some(result.root_url) },
            )
            &&& told.contains(
                ManagerEffectView::OverrideServerRootUrl { root_url: result.root_url },
            )
            &&& told.contains(ManagerEffectView::RefreshAvailableModels)
            &&& (result.has_child ==> next.has_child && told.contains(ManagerEffectView::KeepChild))
            &&& (!result.has_child ==> next.has_child == state.has_child)
            &&& next.config == state.config
        }),
        ({
            let (next, told) = state.start_finished(Err(error));
            &&& next.status == (ServiceStatusView::Failed { message: error.message })
            &&& !next.has_child
            &&& (state.has_child ==> told.contains(ManagerEffectView::KillChild))
        }),
{
    let told = state.start_finished(Ok(result)).1;
    let kept: int = if result.has_child {
        if state.has_child {
            2
        } else {
            1
        }
    } else {
        0
    };
    if result.has_child {
        assert(told[kept - 1] == ManagerEffectView::KeepChild);
    }
    assert(told[kept] == (ManagerEffectView::SetGlobalRootUrl { root_url: Some(result.root_url) }));
    assert(told[kept + 1] == (ManagerEffectView::OverrideServerRootUrl {
        root_url: result.root_url,
    }));
    assert(told[kept + 2] == ManagerEffectView::RefreshAvailableModels);
    if state.has_child {
        assert(state.start_finished(Err(error)).1[0] == ManagerEffectView::KillChild);
    }
}

/// The service is started with the configuration and the key that are known, and its earlier process
/// is stopped first.
pub proof fn law_service_is_started(state: ManagerView)
    ensures
        ({
            let (next, told) = state.started();
            &&& next.status is Starting
            &&& !next.restart_planned
            &&& told.len() > 0 && told.last() == (ManagerEffectView::StartService {
                config: state.config,
                openai_api_key: state.openai_api_key,
            })
            &&& (state.has_child ==> told[0] == ManagerEffectView::KillChild)
        }),
{
}

/// A new key or a new configuration has the service started anew, one that is the same does not; a
/// new configuration is saved, and what an earlier test found is forgotten.
pub proof fn law_changed_settings(
    state: ManagerView,
    key: Option<Seq<char>>,
    config: AgentConfigView,
)
    ensures
        state.openai_api_key == key ==> state.provider_updated(key, true) == (
            state,
            Seq::<ManagerEffectView>::empty(),
        ),
        state.openai_api_key != key ==> state.provider_updated(key, true).0.openai_api_key == key
            && state.provider_updated(key, true).0.restart_planned && state.provider_updated(
            key,
            true,
        ).1.contains(ManagerEffectView::ScheduleRestart),
        state.config == config ==> state.configured(config, true) == (
            state,
            Seq::<ManagerEffectView>::empty(),
        ),
        state.config != config ==> {
            let (next, told) = state.configured(config, true);
            &&& next.config == config
            &&& next.test_status is NotRun
            &&& next.discovered_models.len() == 0
            &&& next.restart_planned
            &&& told.contains(ManagerEffectView::SaveConfig { config })
            &&& told.contains(ManagerEffectView::ScheduleRestart)
        },
{
    if state.openai_api_key != key {
        let told = state.provider_updated(key, true).1;
        assert(told[told.len() - 1] == ManagerEffectView::ScheduleRestart);
    }
    if state.config != config {
        let told = state.configured(config, true).1;
        assert(told[0] == (ManagerEffectView::SaveConfig { config }));
        assert(told[told.len() - 1] == ManagerEffectView::ScheduleRestart);
    }
}

/// The address of the service is published where the configuration has one, and takes the place of
/// the server's exactly without the cloud.
pub proof fn law_published_address(state: ManagerView, no_cloud: bool)
    ensures
        root_of(state.config) is Err ==> state.root_published(no_cloud).len() == 0,
        root_of(state.config) matches Ok(root_url) ==> state.root_published(no_cloud).contains(
            ManagerEffectView::SetGlobalRootUrl { root_url: Some(root_url) },
        ) && (state.root_published(no_cloud).contains(
            ManagerEffectView::OverrideServerRootUrl { root_url },
        ) <==> no_cloud),
{
    if let Ok(root_url) = root_of(state.config) {
        let told = state.root_published(no_cloud);
        assert(told[0] == (ManagerEffectView::SetGlobalRootUrl { root_url: Some(root_url) }));
        if no_cloud {
            assert(told[1] == (ManagerEffectView::OverrideServerRootUrl { root_url }));
        }
    }
}

/// The health of the service is asked at its address; a healthy service that runs goes on running,
/// and one that is not healthy has failed, for the reason that is told.
pub proof fn law_health_of_the_service(
    state: ManagerView,
    asked: ServiceStatusView,
    error: ServiceErrorView,
)
    ensures
        root_of(state.config) matches Ok(root_url) ==> state.health_asked() == (
            state,
            seq![ManagerEffectView::CheckHealth { root_url, status: state.status }],
        ),
        root_of(state.config) is Err ==> state.health_asked().0.status is Failed,
        state.status is Running ==> state.health_known(asked, None).0 == state,
        !(state.status is Running) ==> state.health_known(asked, None).0.status == asked,
        state.health_known(asked, Some(error)).0.status == (ServiceStatusView::Failed {
            message: "Health check failed: "@ + whole_message(error),
        }),
{
}

/// A test is made with the address, the provider and the key of the configuration where that is
/// right; else what is wrong is the test's result.
pub proof fn law_test_is_made(state: ManagerView)
    ensures
        config_error(state.config) matches Some(error) ==> state.test_asked().0.test_status == (
        TestStatusView::Failed { message: config_error_message(error) }),
        config_error(state.config) is None && root_of(state.config) is Err
            ==> state.test_asked().0.test_status is Failed,
        config_error(state.config) is None ==> (root_of(state.config) matches Ok(root_url) ==> {
            let (next, told) = state.test_asked();
            &&& next.test_status is Testing
            &&& told.len() > 0 && told.last() == (ManagerEffectView::TestBackend {
                root_url,
                provider_base_url: base_url_of(state.config),
                openai_api_key: state.openai_api_key,
                config: state.config,
            })
        }),
{
}

/// A test that failed tells why, and changes nothing else.
pub proof fn law_failed_test(state: ManagerView, error: ServiceErrorView, no_cloud: bool)
    ensures
        state.test_finished(Err(error), no_cloud).0 == (ManagerView {
            test_status: TestStatusView::Failed { message: whole_message(error) },
            ..state
        }),
{
}

/// Disabled, the service has no process and no address.
pub proof fn law_disabled_service(state: ManagerView)
    ensures
        state.disabled().0.status is Disabled,
        !state.disabled().0.has_child,
        state.disabled().1.contains(ManagerEffectView::SetGlobalRootUrl { root_url: None }),
        state.has_child ==> state.disabled().1.contains(ManagerEffectView::KillChild),
        !state.has_child ==> !state.disabled().1.contains(ManagerEffectView::KillChild),
{
    let told = state.disabled().1;
    let n: int = if state.has_child {
        1
    } else {
        0
    };
    if state.has_child {
        assert(told[0] == ManagerEffectView::KillChild);
    }
    assert(told[n] == (ManagerEffectView::SetGlobalRootUrl { root_url: None }));
}

/// An address that is wrong is told as such, wherever it is needed.
pub proof fn law_wrong_address(state: ManagerView)
    requires
        root_of(state.config) is Err,
    ensures
        state.health_asked().0.status == (ServiceStatusView::Failed {
            message: "Invalid local service URL."@,
        }),
        config_error(state.config) is None ==> state.test_asked().0.test_status == (
        TestStatusView::Failed { message: "Invalid local service URL."@ }),
{
}

} // verus!
