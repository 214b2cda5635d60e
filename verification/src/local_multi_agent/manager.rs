//! The manager that keeps the local service running.
//!
//! The manager decides; what it decides is handed to its surroundings as a list of effects, in the
//! order in which they are to happen, and what came of them is handed back.
use crate::local_multi_agent::config::{
    AgentConfigView, LocalMultiAgentConfig, LocalMultiAgentConfigError, base_url_of, config_error,
    config_error_message, root_of, with_discovered,
};
use crate::local_multi_agent::service::{
    ServiceError, ServiceErrorView, service_check_view, whole_message,
};
use crate::text::{clone_option, concat2, opt_view, same_option, views};
use vstd::prelude::*;

verus! {

/// How the service is doing.
#[derive(Debug, PartialEq, Eq)]
pub enum LocalMultiAgentStatus {
    Disabled,
    Starting,
    Running { root_url: String, pid: Option<u32>, config_hash: String },
    Restarting,
    Failed { message: String },
}

/// The model of a `LocalMultiAgentStatus`.
pub enum ServiceStatusView {
    Disabled,
    Starting,
    Running { root_url: Seq<char>, pid: Option<u32>, config_hash: Seq<char> },
    Restarting,
    Failed { message: Seq<char> },
}

/// A status as it is shown.
pub open spec fn status_text(status: ServiceStatusView) -> Seq<char> {
    match status {
        ServiceStatusView::Disabled => "Disabled"@,
        ServiceStatusView::Starting => "Starting"@,
        ServiceStatusView::Running { root_url, .. } => "Running at "@ + root_url,
        ServiceStatusView::Restarting => "Restarting"@,
        ServiceStatusView::Failed { message } => "Failed: "@ + message,
    }
}

impl LocalMultiAgentStatus {
    pub open spec fn view(&self) -> ServiceStatusView {
        match self {
            LocalMultiAgentStatus::Disabled => ServiceStatusView::Disabled,
            LocalMultiAgentStatus::Starting => ServiceStatusView::Starting,
            LocalMultiAgentStatus::Running { root_url, pid, config_hash } => {
                ServiceStatusView::Running { root_url: root_url@, pid: *pid, config_hash: config_hash@ }
            },
            LocalMultiAgentStatus::Restarting => ServiceStatusView::Restarting,
            LocalMultiAgentStatus::Failed { message } => ServiceStatusView::Failed {
                message: message@,
            },
        }
    }

    /// The status as it is shown.
    pub fn label(&self) -> (r: String)
        ensures
            r@ == status_text(self@),
    {
        match self {
            LocalMultiAgentStatus::Disabled => "Disabled".to_owned(),
            LocalMultiAgentStatus::Starting => "Starting".to_owned(),
            LocalMultiAgentStatus::Running { root_url, .. } => concat2(
                "Running at ",
                root_url.as_str(),
            ),
            LocalMultiAgentStatus::Restarting => "Restarting".to_owned(),
            LocalMultiAgentStatus::Failed { message } => concat2("Failed: ", message.as_str()),
        }
    }
}

impl Clone for LocalMultiAgentStatus {
    fn clone(&self) -> (r: Self)
        ensures
            r@ == self@,
    {
        match self {
            LocalMultiAgentStatus::Disabled => LocalMultiAgentStatus::Disabled,
            LocalMultiAgentStatus::Starting => LocalMultiAgentStatus::Starting,
            LocalMultiAgentStatus::Running { root_url, pid, config_hash } => {
                LocalMultiAgentStatus::Running {
                    root_url: root_url.clone(),
                    pid: *pid,
                    config_hash: config_hash.clone(),
                }
            },
            LocalMultiAgentStatus::Restarting => LocalMultiAgentStatus::Restarting,
            LocalMultiAgentStatus::Failed { message } => LocalMultiAgentStatus::Failed {
                message: message.clone(),
            },
        }
    }
}

/// What came of the last test of the provider.
#[derive(Debug, PartialEq, Eq)]
pub enum LocalMultiAgentTestStatus {
    NotRun,
    Testing,
    Passed { model_count: usize },
    Failed { message: String },
}

/// The model of a `LocalMultiAgentTestStatus`.
pub enum TestStatusView {
    NotRun,
    Testing,
    Passed { model_count: nat },
    Failed { message: Seq<char> },
}

impl LocalMultiAgentTestStatus {
    pub open spec fn view(&self) -> TestStatusView {
        match self {
            LocalMultiAgentTestStatus::NotRun => TestStatusView::NotRun,
            LocalMultiAgentTestStatus::Testing => TestStatusView::Testing,
            LocalMultiAgentTestStatus::Passed { model_count } => TestStatusView::Passed {
                model_count: *model_count as nat,
            },
            LocalMultiAgentTestStatus::Failed { message } => TestStatusView::Failed {
                message: message@,
            },
        }
    }
}

/// What the manager tells those who watch it.
#[derive(Clone, Copy, Debug, PartialEq, Eq)]
pub enum LocalMultiAgentManagerEvent {
    ConfigChanged,
    StatusChanged,
    TestStatusChanged,
}

/// What the manager asks of its surroundings.
#[derive(Debug, PartialEq, Eq)]
pub enum LocalMultiAgentEffect {
    /// End the process of the service that the manager started.
    KillChild,
    /// Keep the process of the service that was just started.
    KeepChild,
    /// Forget the restart that was planned.
    AbortRestart,
    /// Plan a restart in half a second.
    ScheduleRestart,
    SaveConfig { config: LocalMultiAgentConfig },
    SetGlobalRootUrl { root_url: Option<String> },
    OverrideServerRootUrl { root_url: String },
    StartService { config: LocalMultiAgentConfig, openai_api_key: Option<String> },
    CheckHealth { root_url: String, status: LocalMultiAgentStatus },
    TestBackend {
        root_url: String,
        provider_base_url: String,
        openai_api_key: Option<String>,
        config: LocalMultiAgentConfig,
    },
    RefreshAvailableModels,
    Emit { event: LocalMultiAgentManagerEvent },
}

/// The model of a `LocalMultiAgentEffect`.
pub enum ManagerEffectView {
    KillChild,
    KeepChild,
    AbortRestart,
    ScheduleRestart,
    SaveConfig { config: AgentConfigView },
    SetGlobalRootUrl { root_url: Option<Seq<char>> },
    OverrideServerRootUrl { root_url: Seq<char> },
    StartService { config: AgentConfigView, openai_api_key: Option<Seq<char>> },
    CheckHealth { root_url: Seq<char>, status: ServiceStatusView },
    TestBackend {
        root_url: Seq<char>,
        provider_base_url: Seq<char>,
        openai_api_key: Option<Seq<char>>,
        config: AgentConfigView,
    },
    RefreshAvailableModels,
    Emit { event: LocalMultiAgentManagerEvent },
}

impl LocalMultiAgentEffect {
    pub open spec fn view(&self) -> ManagerEffectView {
        match self {
            LocalMultiAgentEffect::KillChild => ManagerEffectView::KillChild,
            LocalMultiAgentEffect::KeepChild => ManagerEffectView::KeepChild,
            LocalMultiAgentEffect::AbortRestart => ManagerEffectView::AbortRestart,
            LocalMultiAgentEffect::ScheduleRestart => ManagerEffectView::ScheduleRestart,
            LocalMultiAgentEffect::SaveConfig { config } => ManagerEffectView::SaveConfig {
                config: config@,
            },
            LocalMultiAgentEffect::SetGlobalRootUrl { root_url } => {
                ManagerEffectView::SetGlobalRootUrl { root_url: opt_view(*root_url) }
            },
            LocalMultiAgentEffect::OverrideServerRootUrl { root_url } => {
                ManagerEffectView::OverrideServerRootUrl { root_url: root_url@ }
            },
            LocalMultiAgentEffect::StartService { config, openai_api_key } => {
                ManagerEffectView::StartService {
                    config: config@,
                    openai_api_key: opt_view(*openai_api_key),
                }
            },
            LocalMultiAgentEffect::CheckHealth { root_url, status } => {
                ManagerEffectView::CheckHealth { root_url: root_url@, status: status@ }
            },
            LocalMultiAgentEffect::TestBackend {
                root_url,
                provider_base_url,
                openai_api_key,
                config,
            } => ManagerEffectView::TestBackend {
                root_url: root_url@,
                provider_base_url: provider_base_url@,
                openai_api_key: opt_view(*openai_api_key),
                config: config@,
            },
            LocalMultiAgentEffect::RefreshAvailableModels => {
                ManagerEffectView::RefreshAvailableModels
            },
            LocalMultiAgentEffect::Emit { event } => ManagerEffectView::Emit { event: *event },
        }
    }
}

/// The models of a list of effects.
pub open spec fn manager_effects(effects: Seq<LocalMultiAgentEffect>) -> Seq<ManagerEffectView> {
    effects.map_values(|e: LocalMultiAgentEffect| e@)
}

/// The manager tells of a change.
pub open spec fn announce(event: LocalMultiAgentManagerEvent) -> ManagerEffectView {
    ManagerEffectView::Emit { event }
}

/// What came of starting the service. A process is there where one was started, and not where a
/// healthy service was found.
#[derive(Debug, PartialEq, Eq)]
pub struct StartServiceResult {
    pub has_child: bool,
    pub root_url: String,
    pub pid: Option<u32>,
    pub config_hash: String,
}

/// The model of a `StartServiceResult`.
pub struct StartResultView {
    pub has_child: bool,
    pub root_url: Seq<char>,
    pub pid: Option<u32>,
    pub config_hash: Seq<char>,
}

impl StartServiceResult {
    pub open spec fn view(&self) -> StartResultView {
        StartResultView {
            has_child: self.has_child,
            root_url: self.root_url@,
            pid: self.pid,
            config_hash: self.config_hash@,
        }
    }
}

/// The state of the manager.
pub struct ManagerView {
    pub config: AgentConfigView,
    pub status: ServiceStatusView,
    pub test_status: TestStatusView,
    pub discovered_models: Seq<Seq<char>>,
    pub has_child: bool,
    pub restart_planned: bool,
    pub openai_api_key: Option<Seq<char>>,
}


impl ManagerView {
    /// The process that was started is ended.
    pub open spec fn child_stopped(self) -> (ManagerView, Seq<ManagerEffectView>) {
        (
            ManagerView { has_child: false, ..self },
            if self.has_child {
                seq![ManagerEffectView::KillChild]
            } else {
                Seq::empty()
            },
        )
    }

    /// A restart that was planned is forgotten.
    pub open spec fn restart_aborted(self) -> (ManagerView, Seq<ManagerEffectView>) {
        (
            ManagerView { restart_planned: false, ..self },
            if self.restart_planned {
                seq![ManagerEffectView::AbortRestart]
            } else {
                Seq::empty()
            },
        )
    }

    /// The service is stopped for good.
    pub open spec fn disabled(self) -> (ManagerView, Seq<ManagerEffectView>) {
        let (stopped, killed) = self.child_stopped();
        (
            ManagerView { status: ServiceStatusView::Disabled, ..stopped },
            killed + seq![
                ManagerEffectView::SetGlobalRootUrl { root_url: None },
                announce(LocalMultiAgentManagerEvent::StatusChanged),
            ],
        )
    }

    /// A restart is planned, in place of one that was planned before. With the cloud, there is no
    /// local service.
    pub open spec fn restart_scheduled(self, no_cloud: bool) -> (
        ManagerView,
        Seq<ManagerEffectView>,
    ) {
        if !no_cloud {
            self.disabled()
        } else {
            let (clear, aborted) = self.restart_aborted();
            (
                ManagerView {
                    status: ServiceStatusView::Restarting,
                    restart_planned: true,
                    ..clear
                },
                aborted + seq![
                    announce(LocalMultiAgentManagerEvent::StatusChanged),
                    ManagerEffectView::ScheduleRestart,
                ],
            )
        }
    }

    /// The effects of a new address.
    pub open spec fn root_published(self, no_cloud: bool) -> Seq<ManagerEffectView> {
        match root_of(self.config) {
            Ok(root_url) => {
                let set = seq![ManagerEffectView::SetGlobalRootUrl { root_url: Some(root_url) }];
                if no_cloud {
                    set.push(ManagerEffectView::OverrideServerRootUrl { root_url })
                } else {
                    set
                }
            },
            Err(_) => Seq::empty(),
        }
    }

    /// The service is started.
    pub open spec fn started(self) -> (ManagerView, Seq<ManagerEffectView>) {
        let (stopped, killed) = ManagerView { restart_planned: false, ..self }.child_stopped();
        (
            ManagerView { status: ServiceStatusView::Starting, ..stopped },
            killed + seq![
                announce(LocalMultiAgentManagerEvent::StatusChanged),
                ManagerEffectView::StartService {
                    config: self.config,
                    openai_api_key: self.openai_api_key,
                },
            ],
        )
    }

    /// The service runs. Where a process was started for it, that process takes the place of an
    /// earlier one.
    pub open spec fn running(self, result: StartResultView) -> (
        ManagerView,
        Seq<ManagerEffectView>,
    ) {
        let (stopped, killed) = self.child_stopped();
        let base = if result.has_child {
            ManagerView { has_child: true, ..stopped }
        } else {
            self
        };
        let kept = if result.has_child {
            killed.push(ManagerEffectView::KeepChild)
        } else {
            Seq::empty()
        };
        (
            ManagerView {
                status: ServiceStatusView::Running {
                    root_url: result.root_url,
                    pid: result.pid,
                    config_hash: result.config_hash,
                },
                ..base
            },
            kept + seq![
                ManagerEffectView::SetGlobalRootUrl { root_url: Some(result.root_url) },
                ManagerEffectView::OverrideServerRootUrl { root_url: result.root_url },
                ManagerEffectView::RefreshAvailableModels,
            ],
        )
    }

    /// The service failed.
    pub open spec fn failed(self, message: Seq<char>) -> (ManagerView, Seq<ManagerEffectView>) {
        let (stopped, killed) = self.child_stopped();
        (
            ManagerView { status: ServiceStatusView::Failed { message }, ..stopped },
            killed.push(announce(LocalMultiAgentManagerEvent::StatusChanged)),
        )
    }

    /// The attempt to start the service is over.
    pub open spec fn start_finished(self, result: Result<StartResultView, ServiceErrorView>) -> (
        ManagerView,
        Seq<ManagerEffectView>,
    ) {
        let (next, effects) = match result {
            Ok(result) => self.running(result),
            Err(error) => self.failed(error.message),
        };
        (next, effects.push(announce(LocalMultiAgentManagerEvent::StatusChanged)))
    }

    /// A new key for the provider.
    pub open spec fn provider_updated(self, openai_api_key: Option<Seq<char>>, no_cloud: bool) -> (
        ManagerView,
        Seq<ManagerEffectView>,
    ) {
        if self.openai_api_key == openai_api_key {
            (self, Seq::empty())
        } else {
            ManagerView { openai_api_key, ..self }.restart_scheduled(no_cloud)
        }
    }

    /// A new configuration that is in order.
    pub open spec fn configured(self, config: AgentConfigView, no_cloud: bool) -> (
        ManagerView,
        Seq<ManagerEffectView>,
    ) {
        if self.config == config {
            (self, Seq::empty())
        } else {
            let base = ManagerView {
                config,
                discovered_models: Seq::empty(),
                test_status: TestStatusView::NotRun,
                ..self
            };
            let (next, effects) = base.restart_scheduled(no_cloud);
            (
                next,
                seq![ManagerEffectView::SaveConfig { config }] + base.root_published(no_cloud)
                    + seq![
                    announce(LocalMultiAgentManagerEvent::ConfigChanged),
                    announce(LocalMultiAgentManagerEvent::TestStatusChanged),
                ] + effects,
            )
        }
    }

    /// The manager is shut down.
    pub open spec fn shut_down(self) -> (ManagerView, Seq<ManagerEffectView>) {
        let (clear, aborted) = self.restart_aborted();
        let (next, effects) = clear.disabled();
        (next, aborted + effects)
    }

    /// The service's health is asked for.
    pub open spec fn health_asked(self) -> (ManagerView, Seq<ManagerEffectView>) {
        match root_of(self.config) {
            Ok(root_url) => (
                self,
                seq![ManagerEffectView::CheckHealth { root_url, status: self.status }],
            ),
            Err(_) => self.failed("Invalid local service URL."@),
        }
    }

    /// The answer to a question after the service's health is there. `asked` is the status as it
    /// was when the question was asked.
    pub open spec fn health_known(
        self,
        asked: ServiceStatusView,
        error: Option<ServiceErrorView>,
    ) -> (ManagerView, Seq<ManagerEffectView>) {
        let (next, effects) = match error {
            None => (
                if self.status is Running {
                    self
                } else {
                    ManagerView { status: asked, ..self }
                },
                Seq::empty(),
            ),
            Some(error) => self.failed("Health check failed: "@ + whole_message(error)),
        };
        (next, effects.push(announce(LocalMultiAgentManagerEvent::StatusChanged)))
    }

    /// A test came to a result.
    pub open spec fn tested(self, test_status: TestStatusView) -> (
        ManagerView,
        Seq<ManagerEffectView>,
    ) {
        (
            ManagerView { test_status, ..self },
            seq![announce(LocalMultiAgentManagerEvent::TestStatusChanged)],
        )
    }

    /// The provider is tested.
    pub open spec fn test_asked(self) -> (ManagerView, Seq<ManagerEffectView>) {
        match config_error(self.config) {
            Some(error) => self.tested(
                TestStatusView::Failed { message: config_error_message(error) },
            ),
            None => match root_of(self.config) {
                Err(_) => self.tested(
                    TestStatusView::Failed { message: "Invalid local service URL."@ },
                ),
                Ok(root_url) => {
                    let (next, effects) = self.tested(TestStatusView::Testing);
                    (
                        next,
                        effects.push(
                            ManagerEffectView::TestBackend {
                                root_url,
                                provider_base_url: base_url_of(self.config),
                                openai_api_key: self.openai_api_key,
                                config: self.config,
                            },
                        ),
                    )
                },
            },
        }
    }

    /// The service was started for a test, or was running.
    pub open spec fn started_for_test(self, start: Option<StartResultView>) -> (
        ManagerView,
        Seq<ManagerEffectView>,
    ) {
        match start {
            None => (self, Seq::empty()),
            Some(result) => {
                let (next, effects) = self.running(result);
                (next, effects.push(announce(LocalMultiAgentManagerEvent::StatusChanged)))
            },
        }
    }

    /// The provider offers models.
    pub open spec fn models_discovered(self, models: Seq<Seq<char>>, no_cloud: bool) -> (
        ManagerView,
        Seq<ManagerEffectView>,
    ) {
        let (config, changed) = with_discovered(self.config, models);
        let base = ManagerView { config, discovered_models: models, ..self };
        match changed {
            Err(error) => base.tested(
                TestStatusView::Failed { message: config_error_message(error) },
            ),
            Ok(changed) => {
                let (next, effects) = if changed {
                    let (next, effects) = base.restart_scheduled(no_cloud);
                    (
                        next,
                        seq![
                            ManagerEffectView::SaveConfig { config },
                            announce(LocalMultiAgentManagerEvent::ConfigChanged),
                        ] + effects,
                    )
                } else {
                    (base, Seq::empty())
                };
                let (done, told) = next.tested(TestStatusView::Passed { model_count: models.len() });
                (done, effects + told)
            },
        }
    }

    /// The test of the provider is over.
    pub open spec fn test_finished(
        self,
        result: Result<(Option<StartResultView>, Seq<Seq<char>>), ServiceErrorView>,
        no_cloud: bool,
    ) -> (ManagerView, Seq<ManagerEffectView>) {
        match result {
            Err(error) => self.tested(TestStatusView::Failed { message: whole_message(error) }),
            Ok((start, models)) => {
                let (next, effects) = self.started_for_test(start);
                let (done, more) = next.models_discovered(models, no_cloud);
                (done, effects + more)
            },
        }
    }
}

/// The state of a manager that begins.
pub open spec fn fresh_manager(config: AgentConfigView, no_cloud: bool) -> (
    ManagerView,
    Seq<ManagerEffectView>,
) {
    let base = ManagerView {
        config,
        status: if no_cloud {
            ServiceStatusView::Starting
        } else {
            ServiceStatusView::Disabled
        },
        test_status: TestStatusView::NotRun,
        discovered_models: Seq::empty(),
        has_child: false,
        restart_planned: false,
        openai_api_key: None,
    };
    if no_cloud {
        let (next, effects) = base.restart_scheduled(true);
        (next, base.root_published(true) + effects)
    } else {
        (base, base.root_published(false))
    }
}

/// The manager of the local service.
#[derive(Debug)]
pub struct LocalMultiAgentManager {
    config: LocalMultiAgentConfig,
    status: LocalMultiAgentStatus,
    test_status: LocalMultiAgentTestStatus,
    discovered_models: Vec<String>,
    has_child: bool,
    restart_planned: bool,
    openai_api_key: Option<String>,
}

fn no_effects() -> (r: Vec<LocalMultiAgentEffect>)
    ensures
        manager_effects(r@) == Seq::<ManagerEffectView>::empty(),
{
    let r: Vec<LocalMultiAgentEffect> = Vec::new();
    assert(manager_effects(r@) =~= Seq::empty());
    r
}

fn push_effect(effects: &mut Vec<LocalMultiAgentEffect>, effect: LocalMultiAgentEffect)
    ensures
        manager_effects(final(effects)@) == manager_effects(old(effects)@).push(effect@),
{
    let ghost before = manager_effects(effects@);
    effects.push(effect);
    assert(manager_effects(effects@) =~= before.push(effect@));
}

fn push_event(effects: &mut Vec<LocalMultiAgentEffect>, event: LocalMultiAgentManagerEvent)
    ensures
        manager_effects(final(effects)@) == manager_effects(old(effects)@).push(announce(event)),
{
    push_effect(effects, LocalMultiAgentEffect::Emit { event });
}

/// The model of an attempt to start the service.
pub open spec fn start_view(r: Result<StartServiceResult, ServiceError>) -> Result<
    StartResultView,
    ServiceErrorView,
> {
    match r {
        Ok(result) => Ok(result@),
        Err(error) => Err(error@),
    }
}

/// The model of what came of a test of the provider.
pub open spec fn test_view(
    r: Result<(Option<StartServiceResult>, Vec<String>), ServiceError>,
) -> Result<(Option<StartResultView>, Seq<Seq<char>>), ServiceErrorView> {
    match r {
        Ok((start, models)) => Ok(
            (
                match start {
                    Some(result) => Some(result@),
                    None => None,
                },
                views(models@),
            ),
        ),
        Err(error) => Err(error@),
    }
}

impl LocalMultiAgentManager {
    pub closed spec fn view(&self) -> ManagerView {
        ManagerView {
            config: self.config@,
            status: self.status@,
            test_status: self.test_status@,
            discovered_models: views(self.discovered_models@),
            has_child: self.has_child,
            restart_planned: self.restart_planned,
            openai_api_key: opt_view(self.openai_api_key),
        }
    }

    /// A manager for a configuration.
    pub fn new(config: LocalMultiAgentConfig, no_cloud: bool) -> (r: (
        Self,
        Vec<LocalMultiAgentEffect>,
    ))
        ensures
            (r.0@, manager_effects(r.1@)) == fresh_manager(config@, no_cloud),
    {
        let status = if no_cloud {
            LocalMultiAgentStatus::Starting
        } else {
            LocalMultiAgentStatus::Disabled
        };
        let mut manager = LocalMultiAgentManager {
            config,
            status,
            test_status: LocalMultiAgentTestStatus::NotRun,
            discovered_models: Vec::new(),
            has_child: false,
            restart_planned: false,
            openai_api_key: None,
        };
        assert(views(manager.discovered_models@) =~= Seq::empty());
        let mut effects = no_effects();
        manager.publish_root(no_cloud, &mut effects);
        if no_cloud {
            manager.schedule_restart(true, &mut effects);
        }
        assert(manager_effects(effects@) =~= fresh_manager(config@, no_cloud).1);
        (manager, effects)
    }

    /// The configuration.
    pub fn config(&self) -> (r: &LocalMultiAgentConfig)
        ensures
            r@ == self@.config,
    {
        &self.config
    }

    /// How the service is doing.
    pub fn status(&self) -> (r: &LocalMultiAgentStatus)
        ensures
            r@ == self@.status,
    {
        &self.status
    }

    /// What came of the last test of the provider.
    pub fn test_status(&self) -> (r: &LocalMultiAgentTestStatus)
        ensures
            r@ == self@.test_status,
    {
        &self.test_status
    }

    /// The models that the provider offers.
    pub fn discovered_models(&self) -> (r: &Vec<String>)
        ensures
            views(r@) == self@.discovered_models,
    {
        &self.discovered_models
    }

    /// The service's own address.
    pub fn root_url(&self) -> (r: Option<String>)
        ensures
            opt_view(r) == (match root_of(self@.config) {
                Ok(root_url) => Some(root_url),
                Err(_) => None,
            }),
    {
        match self.config.root_url() {
            Ok(root_url) => Some(root_url),
            Err(_) => None,
        }
    }

    fn stop_child(&mut self, effects: &mut Vec<LocalMultiAgentEffect>)
        ensures
            final(self)@ == old(self)@.child_stopped().0,
            manager_effects(final(effects)@) == manager_effects(old(effects)@)
                + old(self)@.child_stopped().1,
    {
        let ghost before = manager_effects(effects@);
        let ghost more = self@.child_stopped().1;
        if self.has_child {
            self.has_child = false;
            push_effect(effects, LocalMultiAgentEffect::KillChild);
        }
        assert(manager_effects(effects@) =~= before + more);
    }

    fn abort_restart(&mut self, effects: &mut Vec<LocalMultiAgentEffect>)
        ensures
            final(self)@ == old(self)@.restart_aborted().0,
            manager_effects(final(effects)@) == manager_effects(old(effects)@)
                + old(self)@.restart_aborted().1,
    {
        let ghost before = manager_effects(effects@);
        let ghost more = self@.restart_aborted().1;
        if self.restart_planned {
            self.restart_planned = false;
            push_effect(effects, LocalMultiAgentEffect::AbortRestart);
        }
        assert(manager_effects(effects@) =~= before + more);
    }

    fn publish_root(&self, no_cloud: bool, effects: &mut Vec<LocalMultiAgentEffect>)
        ensures
            manager_effects(final(effects)@) == manager_effects(old(effects)@)
                + self@.root_published(no_cloud),
    {
        let ghost before = manager_effects(effects@);
        if let Ok(root_url) = self.config.root_url() {
            push_effect(
                effects,
                LocalMultiAgentEffect::SetGlobalRootUrl { root_url: Some(root_url.clone()) },
            );
            if no_cloud {
                push_effect(effects, LocalMultiAgentEffect::OverrideServerRootUrl { root_url });
            }
        }
        assert(manager_effects(effects@) =~= before + self@.root_published(no_cloud));
    }

    fn disable(&mut self, effects: &mut Vec<LocalMultiAgentEffect>)
        ensures
            final(self)@ == old(self)@.disabled().0,
            manager_effects(final(effects)@) == manager_effects(old(effects)@)
                + old(self)@.disabled().1,
    {
        let ghost before = manager_effects(effects@);
        let ghost more = self@.disabled().1;
        self.stop_child(effects);
        self.status = LocalMultiAgentStatus::Disabled;
        push_effect(effects, LocalMultiAgentEffect::SetGlobalRootUrl { root_url: None });
        push_event(effects, LocalMultiAgentManagerEvent::StatusChanged);
        assert(manager_effects(effects@) =~= before + more);
    }

    fn schedule_restart(&mut self, no_cloud: bool, effects: &mut Vec<LocalMultiAgentEffect>)
        ensures
            final(self)@ == old(self)@.restart_scheduled(no_cloud).0,
            manager_effects(final(effects)@) == manager_effects(old(effects)@)
                + old(self)@.restart_scheduled(no_cloud).1,
    {
        let ghost before = manager_effects(effects@);
        let ghost more = self@.restart_scheduled(no_cloud).1;
        if !no_cloud {
            self.disable(effects);
            return;
        }
        self.abort_restart(effects);
        self.status = LocalMultiAgentStatus::Restarting;
        push_event(effects, LocalMultiAgentManagerEvent::StatusChanged);
        self.restart_planned = true;
        push_effect(effects, LocalMultiAgentEffect::ScheduleRestart);
        assert(manager_effects(effects@) =~= before + more);
    }

    fn apply_start_result(
        &mut self,
        result: StartServiceResult,
        effects: &mut Vec<LocalMultiAgentEffect>,
    )
        ensures
            final(self)@ == old(self)@.running(result@).0,
            manager_effects(final(effects)@) == manager_effects(old(effects)@)
                + old(self)@.running(result@).1,
    {
        let ghost before = manager_effects(effects@);
        let ghost more = self@.running(result@).1;
        if result.has_child {
            self.stop_child(effects);
            self.has_child = true;
            push_effect(effects, LocalMultiAgentEffect::KeepChild);
        }
        push_effect(
            effects,
            LocalMultiAgentEffect::SetGlobalRootUrl { root_url: Some(result.root_url.clone()) },
        );
        push_effect(
            effects,
            LocalMultiAgentEffect::OverrideServerRootUrl { root_url: result.root_url.clone() },
        );
        self.status = LocalMultiAgentStatus::Running {
            root_url: result.root_url,
            pid: result.pid,
            config_hash: result.config_hash,
        };
        push_effect(effects, LocalMultiAgentEffect::RefreshAvailableModels);
        assert(manager_effects(effects@) =~= before + more);
    }

    fn set_failed(&mut self, message: String, effects: &mut Vec<LocalMultiAgentEffect>)
        ensures
            final(self)@ == old(self)@.failed(message@).0,
            manager_effects(final(effects)@) == manager_effects(old(effects)@)
                + old(self)@.failed(message@).1,
    {
        let ghost before = manager_effects(effects@);
        let ghost more = self@.failed(message@).1;
        self.stop_child(effects);
        self.status = LocalMultiAgentStatus::Failed { message };
        push_event(effects, LocalMultiAgentManagerEvent::StatusChanged);
        assert(manager_effects(effects@) =~= before + more);
    }

    /// Takes over a key for the provider.
    pub fn update_provider_config(&mut self, openai_api_key: Option<String>, no_cloud: bool) -> (r:
        Vec<LocalMultiAgentEffect>)
        ensures
            (final(self)@, manager_effects(r@)) == old(self)@.provider_updated(
                opt_view(openai_api_key),
                no_cloud,
            ),
    {
        let mut effects = no_effects();
        if same_option(&self.openai_api_key, &openai_api_key) {
            return effects;
        }
        let ghost more = self@.provider_updated(opt_view(openai_api_key), no_cloud).1;
        self.openai_api_key = openai_api_key;
        self.schedule_restart(no_cloud, &mut effects);
        assert(manager_effects(effects@) =~= more);
        effects
    }

    /// Takes over a configuration, where nothing is wrong with it.
    pub fn set_config(&mut self, config: LocalMultiAgentConfig, no_cloud: bool) -> (r: Result<
        Vec<LocalMultiAgentEffect>,
        LocalMultiAgentConfigError,
    >)
        ensures
            match r {
                Ok(effects) => config_error(config@) is None && (
                    final(self)@,
                    manager_effects(effects@),
                ) == old(self)@.configured(config@, no_cloud),
                Err(error) => config_error(config@) == Some(error@) && final(self)@ == old(self)@,
            },
    {
        if let Err(error) = config.validate() {
            return Err(error);
        }
        let mut effects = no_effects();
        if self.config.says_same(&config) {
            return Ok(effects);
        }
        let ghost more = self@.configured(config@, no_cloud).1;
        self.config = config;
        push_effect(
            &mut effects,
            LocalMultiAgentEffect::SaveConfig { config: self.config.clone() },
        );
        self.discovered_models = Vec::new();
        assert(views(self.discovered_models@) =~= Seq::empty());
        self.test_status = LocalMultiAgentTestStatus::NotRun;
        self.publish_root(no_cloud, &mut effects);
        push_event(&mut effects, LocalMultiAgentManagerEvent::ConfigChanged);
        push_event(&mut effects, LocalMultiAgentManagerEvent::TestStatusChanged);
        self.schedule_restart(no_cloud, &mut effects);
        assert(manager_effects(effects@) =~= more);
        Ok(effects)
    }

    /// Plans a restart.
    pub fn restart_with_config(&mut self, no_cloud: bool) -> (r: Vec<LocalMultiAgentEffect>)
        ensures
            (final(self)@, manager_effects(r@)) == old(self)@.restart_scheduled(no_cloud),
    {
        let ghost more = self@.restart_scheduled(no_cloud).1;
        let mut effects = no_effects();
        self.schedule_restart(no_cloud, &mut effects);
        assert(manager_effects(effects@) =~= more);
        effects
    }

    /// Stops the service.
    pub fn shutdown(&mut self) -> (r: Vec<LocalMultiAgentEffect>)
        ensures
            (final(self)@, manager_effects(r@)) == old(self)@.shut_down(),
    {
        let ghost more = self@.shut_down().1;
        let mut effects = no_effects();
        self.abort_restart(&mut effects);
        self.disable(&mut effects);
        assert(manager_effects(effects@) =~= more);
        effects
    }

    /// Starts the service, when the time of a planned restart has come.
    pub fn start_now(&mut self) -> (r: Vec<LocalMultiAgentEffect>)
        ensures
            (final(self)@, manager_effects(r@)) == old(self)@.started(),
    {
        let ghost more = self@.started().1;
        let mut effects = no_effects();
        self.restart_planned = false;
        self.stop_child(&mut effects);
        self.status = LocalMultiAgentStatus::Starting;
        push_event(&mut effects, LocalMultiAgentManagerEvent::StatusChanged);
        push_effect(
            &mut effects,
            LocalMultiAgentEffect::StartService {
                config: self.config.clone(),
                openai_api_key: clone_option(&self.openai_api_key),
            },
        );
        assert(manager_effects(effects@) =~= more);
        effects
    }

    /// Takes up what came of starting the service.
    pub fn finish_start(&mut self, result: Result<StartServiceResult, ServiceError>) -> (r: Vec<
        LocalMultiAgentEffect,
    >)
        ensures
            (final(self)@, manager_effects(r@)) == old(self)@.start_finished(start_view(result)),
    {
        let ghost more = self@.start_finished(start_view(result)).1;
        let mut effects = no_effects();
        match result {
            Ok(result) => self.apply_start_result(result, &mut effects),
            Err(error) => self.set_failed(error.message, &mut effects),
        }
        push_event(&mut effects, LocalMultiAgentManagerEvent::StatusChanged);
        assert(manager_effects(effects@) =~= more);
        effects
    }

    /// Asks after the service's health.
    pub fn health_check(&mut self) -> (r: Vec<LocalMultiAgentEffect>)
        ensures
            (final(self)@, manager_effects(r@)) == old(self)@.health_asked(),
    {
        let ghost more = self@.health_asked().1;
        let mut effects = no_effects();
        match self.root_url() {
            Some(root_url) => {
                push_effect(
                    &mut effects,
                    LocalMultiAgentEffect::CheckHealth { root_url, status: self.status.clone() },
                );
            },
            None => self.set_failed("Invalid local service URL.".to_owned(), &mut effects),
        }
        assert(manager_effects(effects@) =~= more);
        effects
    }

    /// Takes up the answer to the question after the service's health, with the status as it was
    /// when the question was asked.
    pub fn finish_health_check(
        &mut self,
        asked: LocalMultiAgentStatus,
        result: Result<(), ServiceError>,
    ) -> (r: Vec<LocalMultiAgentEffect>)
        ensures
            (final(self)@, manager_effects(r@)) == old(self)@.health_known(
                asked@,
                service_check_view(result),
            ),
    {
        let ghost more = self@.health_known(asked@, service_check_view(result)).1;
        let mut effects = no_effects();
        match result {
            Ok(_) => {
                let is_running = match &self.status {
                    LocalMultiAgentStatus::Running { .. } => true,
                    _ => false,
                };
                if !is_running {
                    self.status = asked;
                }
            },
            Err(error) => {
                let whole = error.whole();
                self.set_failed(concat2("Health check failed: ", whole.as_str()), &mut effects);
            },
        }
        push_event(&mut effects, LocalMultiAgentManagerEvent::StatusChanged);
        assert(manager_effects(effects@) =~= more);
        effects
    }

    /// Tests the provider.
    pub fn test_backend(&mut self) -> (r: Vec<LocalMultiAgentEffect>)
        ensures
            (final(self)@, manager_effects(r@)) == old(self)@.test_asked(),
    {
        let ghost more = self@.test_asked().1;
        let mut effects = no_effects();
        if let Err(error) = self.config.validate() {
            self.test_status = LocalMultiAgentTestStatus::Failed { message: error.message() };
            push_event(&mut effects, LocalMultiAgentManagerEvent::TestStatusChanged);
            assert(manager_effects(effects@) =~= more);
            return effects;
        }
        match self.root_url() {
            None => {
                self.test_status = LocalMultiAgentTestStatus::Failed {
                    message: "Invalid local service URL.".to_owned(),
                };
                push_event(&mut effects, LocalMultiAgentManagerEvent::TestStatusChanged);
            },
            Some(root_url) => {
                let provider_base_url = self.config.provider_base_url().to_owned();
                self.test_status = LocalMultiAgentTestStatus::Testing;
                push_event(&mut effects, LocalMultiAgentManagerEvent::TestStatusChanged);
                push_effect(
                    &mut effects,
                    LocalMultiAgentEffect::TestBackend {
                        root_url,
                        provider_base_url,
                        openai_api_key: clone_option(&self.openai_api_key),
                        config: self.config.clone(),
                    },
                );
            },
        }
        assert(manager_effects(effects@) =~= more);
        effects
    }

    /// Takes up what came of the test of the provider.
    pub fn finish_test(
        &mut self,
        result: Result<(Option<StartServiceResult>, Vec<String>), ServiceError>,
        no_cloud: bool,
    ) -> (r: Vec<LocalMultiAgentEffect>)
        ensures
            (final(self)@, manager_effects(r@)) == old(self)@.test_finished(
                test_view(result),
                no_cloud,
            ),
    {
        let ghost more = self@.test_finished(test_view(result), no_cloud).1;
        let mut effects = no_effects();
        match result {
            Err(error) => {
                self.test_status = LocalMultiAgentTestStatus::Failed { message: error.whole() };
            },
            Ok((start, models)) => {
                if let Some(start) = start {
                    self.apply_start_result(start, &mut effects);
                    push_event(&mut effects, LocalMultiAgentManagerEvent::StatusChanged);
                }
                let model_count: usize = models.len();
                let changed = self.config.apply_discovered_models(&models);
                self.discovered_models = models;
                match changed {
                    Ok(true) => {
                        push_effect(
                            &mut effects,
                            LocalMultiAgentEffect::SaveConfig { config: self.config.clone() },
                        );
                        push_event(&mut effects, LocalMultiAgentManagerEvent::ConfigChanged);
                        self.schedule_restart(no_cloud, &mut effects);
                    },
                    Ok(false) => {},
                    Err(error) => {
                        self.test_status = LocalMultiAgentTestStatus::Failed {
                            message: error.message(),
                        };
                        push_event(&mut effects, LocalMultiAgentManagerEvent::TestStatusChanged);
                        assert(manager_effects(effects@) =~= more);
                        return effects;
                    },
                }
                self.test_status = LocalMultiAgentTestStatus::Passed { model_count };
            },
        }
        push_event(&mut effects, LocalMultiAgentManagerEvent::TestStatusChanged);
        assert(manager_effects(effects@) =~= more);
        effects
    }

    /// Notes that a configuration could not be taken over.
    pub fn record_config_error(&mut self, message: String) -> (r: Vec<LocalMultiAgentEffect>)
        ensures
            final(self)@ == (ManagerView {
                status: ServiceStatusView::Failed { message: message@ },
                ..old(self)@
            }),
            manager_effects(r@) == seq![announce(LocalMultiAgentManagerEvent::StatusChanged)],
    {
        let mut effects = no_effects();
        self.status = LocalMultiAgentStatus::Failed { message };
        push_event(&mut effects, LocalMultiAgentManagerEvent::StatusChanged);
        assert(manager_effects(effects@) =~= seq![
            announce(LocalMultiAgentManagerEvent::StatusChanged),
        ]);
        effects
    }
}

} // verus!
