//! Laws of the manager of the local service.
use crate::local_multi_agent::config::{AgentConfigView, base_url_of, root_of, with_discovered};
use crate::local_multi_agent::manager::{
    LocalMultiAgentManagerEvent, ManagerEffectView, ManagerView, ServiceStatusView, StartResultView,
    TestStatusView, announce,
};
use crate::local_multi_agent::service::{ServiceErrorView, whole_message};
use crate::text::join;
use vstd::prelude::*;

verus! {

/// How many processes more the effects leave running than before.
pub open spec fn children_started(effects: Seq<ManagerEffectView>) -> int
    decreases effects.len(),
{
    if effects.len() == 0 {
        0
    } else {
        children_started(effects.drop_last()) + (match effects.last() {
            ManagerEffectView::KeepChild => 1int,
            ManagerEffectView::KillChild => -1int,
            _ => 0int,
        })
    }
}

/// How many restarts more the effects leave planned than before.
pub open spec fn restarts_planned(effects: Seq<ManagerEffectView>) -> int
    decreases effects.len(),
{
    if effects.len() == 0 {
        0
    } else {
        restarts_planned(effects.drop_last()) + (match effects.last() {
            ManagerEffectView::ScheduleRestart => 1int,
            ManagerEffectView::AbortRestart => -1int,
            _ => 0int,
        })
    }
}

/// A truth as a number.
pub open spec fn one_if(b: bool) -> int {
    if b {
        1
    } else {
        0
    }
}

/// The manager's books are right: it knows of the process that the effects leave running, and of
/// the restart that they leave planned, and there is never more than one of each.
pub open spec fn keeps_account(before: ManagerView, step: (ManagerView, Seq<ManagerEffectView>)) -> bool {
    &&& one_if(step.0.has_child) == one_if(before.has_child) + children_started(step.1)
    &&& one_if(step.0.restart_planned) == one_if(before.restart_planned) + restarts_planned(step.1)
}

proof fn lemma_push(effects: Seq<ManagerEffectView>, effect: ManagerEffectView)
    ensures
        children_started(effects.push(effect)) == children_started(effects) + children_started(
            seq![effect],
        ),
        restarts_planned(effects.push(effect)) == restarts_planned(effects) + restarts_planned(
            seq![effect],
        ),
{
    assert(effects.push(effect).drop_last() =~= effects);
    assert(seq![effect].drop_last() =~= Seq::empty());
    reveal_with_fuel(children_started, 2);
    reveal_with_fuel(restarts_planned, 2);
}

proof fn lemma_add(a: Seq<ManagerEffectView>, b: Seq<ManagerEffectView>)
    ensures
        children_started(a + b) == children_started(a) + children_started(b),
        restarts_planned(a + b) == restarts_planned(a) + restarts_planned(b),
    decreases b.len(),
{
    if b.len() == 0 {
        assert(a + b =~= a);
    } else {
        lemma_add(a, b.drop_last());
        assert((a + b).drop_last() =~= a + b.drop_last());
    }
}

proof fn lemma_none()
    ensures
        children_started(Seq::empty()) == 0,
        restarts_planned(Seq::empty()) == 0,
{
}

proof fn lemma_one(effect: ManagerEffectView)
    ensures
        children_started(seq![effect]) == (match effect {
            ManagerEffectView::KeepChild => 1int,
            ManagerEffectView::KillChild => -1int,
            _ => 0int,
        }),
        restarts_planned(seq![effect]) == (match effect {
            ManagerEffectView::ScheduleRestart => 1int,
            ManagerEffectView::AbortRestart => -1int,
            _ => 0int,
        }),
{
    assert(seq![effect].drop_last() =~= Seq::empty());
    reveal_with_fuel(children_started, 2);
    reveal_with_fuel(restarts_planned, 2);
}

proof fn lemma_two(a: ManagerEffectView, b: ManagerEffectView)
    ensures
        children_started(seq![a, b]) == children_started(seq![a]) + children_started(seq![b]),
        restarts_planned(seq![a, b]) == restarts_planned(seq![a]) + restarts_planned(seq![b]),
{
    assert(seq![a, b] =~= seq![a].push(b));
    lemma_push(seq![a], b);
}

proof fn lemma_three(a: ManagerEffectView, b: ManagerEffectView, c: ManagerEffectView)
    ensures
        children_started(seq![a, b, c]) == children_started(seq![a]) + children_started(seq![b])
            + children_started(seq![c]),
        restarts_planned(seq![a, b, c]) == restarts_planned(seq![a]) + restarts_planned(seq![b])
            + restarts_planned(seq![c]),
{
    assert(seq![a, b, c] =~= seq![a, b].push(c));
    lemma_push(seq![a, b], c);
    lemma_two(a, b);
}

proof fn lemma_child_stopped(state: ManagerView)
    ensures
        keeps_account(state, state.child_stopped()),
{
    lemma_none();
    lemma_one(ManagerEffectView::KillChild);
}

proof fn lemma_restart_aborted(state: ManagerView)
    ensures
        keeps_account(state, state.restart_aborted()),
{
    lemma_none();
    lemma_one(ManagerEffectView::AbortRestart);
}

proof fn lemma_disabled(state: ManagerView)
    ensures
        keeps_account(state, state.disabled()),
{
    lemma_child_stopped(state);
    let a = ManagerEffectView::SetGlobalRootUrl { root_url: None };
    let b = announce(LocalMultiAgentManagerEvent::StatusChanged);
    lemma_add(state.child_stopped().1, seq![a, b]);
    lemma_two(a, b);
    lemma_one(a);
    lemma_one(b);
}

/// Planning a restart keeps the books right.
pub proof fn law_restart_keeps_account(state: ManagerView, no_cloud: bool)
    ensures
        keeps_account(state, state.restart_scheduled(no_cloud)),
{
    lemma_disabled(state);
    lemma_restart_aborted(state);
    let a = announce(LocalMultiAgentManagerEvent::StatusChanged);
    let b = ManagerEffectView::ScheduleRestart;
    lemma_add(state.restart_aborted().1, seq![a, b]);
    lemma_two(a, b);
    lemma_one(a);
    lemma_one(b);
}

proof fn lemma_root_published(state: ManagerView, no_cloud: bool)
    ensures
        children_started(state.root_published(no_cloud)) == 0,
        restarts_planned(state.root_published(no_cloud)) == 0,
{
    lemma_none();
    if let Ok(root_url) = root_of(state.config) {
        let a = ManagerEffectView::SetGlobalRootUrl { root_url: Some(root_url) };
        let b = ManagerEffectView::OverrideServerRootUrl { root_url };
        lemma_one(a);
        lemma_one(b);
        lemma_push(seq![a], b);
    }
}

/// Starting the service keeps the books right: the restart that was planned is the one that now
/// happens.
pub proof fn law_start_keeps_account(state: ManagerView)
    ensures
        keeps_account(ManagerView { restart_planned: false, ..state }, state.started()),
{
    let clear = ManagerView { restart_planned: false, ..state };
    lemma_child_stopped(clear);
    let a = announce(LocalMultiAgentManagerEvent::StatusChanged);
    let b = ManagerEffectView::StartService {
        config: state.config,
        openai_api_key: state.openai_api_key,
    };
    lemma_add(clear.child_stopped().1, seq![a, b]);
    lemma_two(a, b);
    lemma_one(a);
    lemma_one(b);
}

proof fn lemma_running(state: ManagerView, result: StartResultView)
    ensures
        keeps_account(state, state.running(result)),
{
    let a = ManagerEffectView::SetGlobalRootUrl { root_url: Some(result.root_url) };
    let b = ManagerEffectView::OverrideServerRootUrl { root_url: result.root_url };
    let c = ManagerEffectView::RefreshAvailableModels;
    lemma_child_stopped(state);
    lemma_none();
    let killed = state.child_stopped().1;
    lemma_push(killed, ManagerEffectView::KeepChild);
    lemma_one(ManagerEffectView::KeepChild);
    lemma_three(a, b, c);
    lemma_one(a);
    lemma_one(b);
    lemma_one(c);
    lemma_add(killed.push(ManagerEffectView::KeepChild), seq![a, b, c]);
    lemma_add(Seq::empty(), seq![a, b, c]);
}

proof fn lemma_failed(state: ManagerView, message: Seq<char>)
    ensures
        keeps_account(state, state.failed(message)),
{
    let a = announce(LocalMultiAgentManagerEvent::StatusChanged);
    lemma_child_stopped(state);
    lemma_push(state.child_stopped().1, a);
    lemma_one(a);
}

/// What comes of starting the service keeps the books right: one process takes the place of
/// another.
pub proof fn law_start_result_keeps_account(
    state: ManagerView,
    result: Result<StartResultView, ServiceErrorView>,
)
    ensures
        keeps_account(state, state.start_finished(result)),
{
    let a = announce(LocalMultiAgentManagerEvent::StatusChanged);
    lemma_one(a);
    match result {
        Ok(result) => {
            lemma_running(state, result);
            lemma_push(state.running(result).1, a);
        },
        Err(error) => {
            lemma_failed(state, error.message);
            lemma_push(state.failed(error.message).1, a);
        },
    }
}

/// A new key, a new configuration and a question after the service's health keep the books right.
pub proof fn law_changes_keep_account(
    state: ManagerView,
    key: Option<Seq<char>>,
    config: AgentConfigView,
    asked: ServiceStatusView,
    error: Option<ServiceErrorView>,
    no_cloud: bool,
)
    ensures
        keeps_account(state, state.provider_updated(key, no_cloud)),
        keeps_account(state, state.configured(config, no_cloud)),
        keeps_account(state, state.health_asked()),
        keeps_account(state, state.health_known(asked, error)),
{
    lemma_none();
    law_restart_keeps_account(ManagerView { openai_api_key: key, ..state }, no_cloud);
    let base = ManagerView {
        config,
        discovered_models: Seq::empty(),
        test_status: TestStatusView::NotRun,
        ..state
    };
    law_restart_keeps_account(base, no_cloud);
    lemma_root_published(base, no_cloud);
    let saved = ManagerEffectView::SaveConfig { config };
    let a = announce(LocalMultiAgentManagerEvent::ConfigChanged);
    let b = announce(LocalMultiAgentManagerEvent::TestStatusChanged);
    lemma_one(saved);
    lemma_one(a);
    lemma_one(b);
    lemma_two(a, b);
    let root = base.root_published(no_cloud);
    lemma_add(seq![saved], root);
    lemma_add(seq![saved] + root, seq![a, b]);
    lemma_add(seq![saved] + root + seq![a, b], base.restart_scheduled(no_cloud).1);
    if let Ok(root_url) = root_of(state.config) {
        lemma_one(ManagerEffectView::CheckHealth { root_url, status: state.status });
    }
    lemma_failed(state, "Invalid local service URL."@);
    let told = announce(LocalMultiAgentManagerEvent::StatusChanged);
    lemma_one(told);
    lemma_push(Seq::empty(), told);
    if let Some(error) = error {
        let message = "Health check failed: "@ + whole_message(error);
        lemma_failed(state, message);
        lemma_push(state.failed(message).1, told);
    }
}

/// A test of the provider keeps the books right.
pub proof fn law_test_keeps_account(
    state: ManagerView,
    result: Result<(Option<StartResultView>, Seq<Seq<char>>), ServiceErrorView>,
    no_cloud: bool,
)
    ensures
        keeps_account(state, state.test_asked()),
        keeps_account(state, state.test_finished(result, no_cloud)),
{
    let told = announce(LocalMultiAgentManagerEvent::TestStatusChanged);
    lemma_none();
    lemma_one(told);
    if let Ok(root_url) = root_of(state.config) {
        let asked = ManagerEffectView::TestBackend {
            root_url,
            provider_base_url: base_url_of(state.config),
            openai_api_key: state.openai_api_key,
            config: state.config,
        };
        lemma_one(asked);
        lemma_push(seq![told], asked);
    }
    match result {
        Err(error) => {},
        Ok((start, models)) => {
            let (next, effects) = state.started_for_test(start);
            if let Some(start) = start {
                lemma_running(state, start);
                let status = announce(LocalMultiAgentManagerEvent::StatusChanged);
                lemma_one(status);
                lemma_push(state.running(start).1, status);
            }
            let (config, changed) = with_discovered(next.config, models);
            let base = ManagerView { config, discovered_models: models, ..next };
            law_restart_keeps_account(base, no_cloud);
            let saved = ManagerEffectView::SaveConfig { config };
            let a = announce(LocalMultiAgentManagerEvent::ConfigChanged);
            lemma_one(saved);
            lemma_one(a);
            lemma_two(saved, a);
            lemma_add(seq![saved, a], base.restart_scheduled(no_cloud).1);
            lemma_add(seq![saved, a] + base.restart_scheduled(no_cloud).1, seq![told]);
            lemma_add(Seq::empty(), seq![told]);
            let (done, more) = next.models_discovered(models, no_cloud);
            lemma_add(effects, more);
        },
    }
}

/// After a shutdown no process runs and no restart is planned.
pub proof fn law_shutdown_leaves_nothing(state: ManagerView)
    ensures
        keeps_account(state, state.shut_down()),
        !state.shut_down().0.has_child,
        !state.shut_down().0.restart_planned,
        state.shut_down().0.status is Disabled,
        state.shut_down().0.config == state.config,
{
    lemma_restart_aborted(state);
    let (clear, aborted) = state.restart_aborted();
    lemma_disabled(clear);
    lemma_add(aborted, clear.disabled().1);
}

/// With the cloud no local service runs: whatever would restart it stops it.
pub proof fn law_cloud_needs_no_service(
    state: ManagerView,
    key: Option<Seq<char>>,
    config: AgentConfigView,
)
    ensures
        !state.restart_scheduled(false).0.has_child,
        state.restart_scheduled(false).0.status is Disabled,
        key != state.openai_api_key ==> state.provider_updated(key, false).0.status is Disabled,
        config != state.config ==> state.configured(config, false).0.status is Disabled,
{
}

/// A test passes only with the models that the provider then offers, and the configuration then
/// names offered models: its model and its list do.
pub proof fn law_passed_test(
    state: ManagerView,
    start: Option<StartResultView>,
    models: Seq<Seq<char>>,
    no_cloud: bool,
)
    requires
        models.len() > 0,
    ensures
        ({
            let done = state.test_finished(Ok((start, models)), no_cloud).0;
            done.discovered_models == models && (done.test_status is Passed ==> done.test_status
                == (TestStatusView::Passed { model_count: models.len() })
                && done.config.openai_model is Some && models.contains(done.config.openai_model->0)
                && done.config.local_model_list == join(models, ","@))
        }),
{
    assert(models.contains(models[0]));
}

} // verus!
