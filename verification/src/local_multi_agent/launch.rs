//! The order in which the service is started, and in which its provider is tested.
//!
//! A service that answers is used as it is. Otherwise one is started, and each step is taken only
//! where the one before it worked.
use crate::local_multi_agent::config::{
    AgentConfigView, ConfigErrorView, LocalMultiAgentConfig, config_error, config_error_message,
    root_of,
};
use crate::local_multi_agent::manager::{StartResultView, StartServiceResult, test_view};
use crate::local_multi_agent::service::{
    ServiceError, ServiceErrorView, caused_error, offered_view, opt_error_view, plain_error,
    port_error, port_in_use,
};
use crate::local_multi_agent::start::{StartPlan, entrypoint_error, missing_entrypoint};
use crate::local_multi_agent::stored::fingerprint;
use crate::text::{concat2, opt_view, trim, trimmed};
use vstd::prelude::*;

verus! {

/// How far a start has come.
#[derive(Debug, PartialEq, Eq)]
pub enum LaunchStage {
    CheckingHealth,
    CheckingPort,
    FindingBundle,
    CheckingEntrypoint { entrypoint: String },
    PreparingPaths { entrypoint: String },
    SelectingRuntime { entrypoint: String },
    Spawning { entrypoint: String },
    AwaitingHealth { pid: u32 },
    Done,
}

/// The model of a `LaunchStage`.
pub enum LaunchStageView {
    CheckingHealth,
    CheckingPort,
    FindingBundle,
    CheckingEntrypoint { entrypoint: Seq<char> },
    PreparingPaths { entrypoint: Seq<char> },
    SelectingRuntime { entrypoint: Seq<char> },
    Spawning { entrypoint: Seq<char> },
    AwaitingHealth { pid: u32 },
    Done,
}

/// What has to be done next.
#[derive(Debug, PartialEq, Eq)]
pub enum LaunchAction {
    CheckHealth { root_url: String },
    CheckPort { host: String, port: u16 },
    FindBundle,
    CheckEntrypoint { entrypoint: String },
    PreparePaths,
    SelectRuntime,
    Spawn { binary: String, entrypoint: String },
    AwaitHealth { root_url: String },
    Finish { result: StartServiceResult },
    /// The start failed; a process that was spawned has to be killed.
    Fail { error: ServiceError, kills_child: bool },
    Wait,
}

/// The model of a `LaunchAction`.
pub enum LaunchActionView {
    CheckHealth { root_url: Seq<char> },
    CheckPort { host: Seq<char>, port: u16 },
    FindBundle,
    CheckEntrypoint { entrypoint: Seq<char> },
    PreparePaths,
    SelectRuntime,
    Spawn { binary: Seq<char>, entrypoint: Seq<char> },
    AwaitHealth { root_url: Seq<char> },
    Finish { result: StartResultView },
    Fail { error: ServiceErrorView, kills_child: bool },
    Wait,
}

/// What came of an action.
#[derive(Debug, PartialEq, Eq)]
pub enum LaunchEvent {
    /// Whether a service answers, and is well.
    Health { healthy: bool },
    /// Whether the port could be bound: `None`, or the error.
    Port { error: Option<String> },
    /// Where the service is entered, where it is bundled.
    Bundle { entrypoint: Option<String> },
    /// Whether the entry point is there.
    Entrypoint { found: bool },
    /// Whether the directories could be made.
    Paths { error: Option<ServiceError> },
    /// The runtime that was chosen.
    Runtime { binary: Result<String, ServiceError> },
    /// The process, or why it could not be started.
    Spawned { pid: Result<u32, String> },
    /// Whether the started service became healthy.
    Awaited { error: Option<ServiceError> },
}

/// The model of a `LaunchEvent`.
pub enum LaunchEventView {
    Health { healthy: bool },
    Port { error: Option<Seq<char>> },
    Bundle { entrypoint: Option<Seq<char>> },
    Entrypoint { found: bool },
    Paths { error: Option<ServiceErrorView> },
    Runtime { binary: Result<Seq<char>, ServiceErrorView> },
    Spawned { pid: Result<u32, Seq<char>> },
    Awaited { error: Option<ServiceErrorView> },
}

impl LaunchStage {
    pub open spec fn view(&self) -> LaunchStageView {
        match self {
            LaunchStage::CheckingHealth => LaunchStageView::CheckingHealth,
            LaunchStage::CheckingPort => LaunchStageView::CheckingPort,
            LaunchStage::FindingBundle => LaunchStageView::FindingBundle,
            LaunchStage::CheckingEntrypoint { entrypoint } => LaunchStageView::CheckingEntrypoint {
                entrypoint: entrypoint@,
            },
            LaunchStage::PreparingPaths { entrypoint } => LaunchStageView::PreparingPaths {
                entrypoint: entrypoint@,
            },
            LaunchStage::SelectingRuntime { entrypoint } => LaunchStageView::SelectingRuntime {
                entrypoint: entrypoint@,
            },
            LaunchStage::Spawning { entrypoint } => LaunchStageView::Spawning {
                entrypoint: entrypoint@,
            },
            LaunchStage::AwaitingHealth { pid } => LaunchStageView::AwaitingHealth { pid: *pid },
            LaunchStage::Done => LaunchStageView::Done,
        }
    }
}

impl LaunchAction {
    pub open spec fn view(&self) -> LaunchActionView {
        match self {
            LaunchAction::CheckHealth { root_url } => LaunchActionView::CheckHealth {
                root_url: root_url@,
            },
            LaunchAction::CheckPort { host, port } => LaunchActionView::CheckPort {
                host: host@,
                port: *port,
            },
            LaunchAction::FindBundle => LaunchActionView::FindBundle,
            LaunchAction::CheckEntrypoint { entrypoint } => LaunchActionView::CheckEntrypoint {
                entrypoint: entrypoint@,
            },
            LaunchAction::PreparePaths => LaunchActionView::PreparePaths,
            LaunchAction::SelectRuntime => LaunchActionView::SelectRuntime,
            LaunchAction::Spawn { binary, entrypoint } => LaunchActionView::Spawn {
                binary: binary@,
                entrypoint: entrypoint@,
            },
            LaunchAction::AwaitHealth { root_url } => LaunchActionView::AwaitHealth {
                root_url: root_url@,
            },
            LaunchAction::Finish { result } => LaunchActionView::Finish { result: result@ },
            LaunchAction::Fail { error, kills_child } => LaunchActionView::Fail {
                error: error@,
                kills_child: *kills_child,
            },
            LaunchAction::Wait => LaunchActionView::Wait,
        }
    }
}

impl LaunchEvent {
    pub open spec fn view(&self) -> LaunchEventView {
        match self {
            LaunchEvent::Health { healthy } => LaunchEventView::Health { healthy: *healthy },
            LaunchEvent::Port { error } => LaunchEventView::Port { error: opt_view(*error) },
            LaunchEvent::Bundle { entrypoint } => LaunchEventView::Bundle {
                entrypoint: opt_view(*entrypoint),
            },
            LaunchEvent::Entrypoint { found } => LaunchEventView::Entrypoint { found: *found },
            LaunchEvent::Paths { error } => LaunchEventView::Paths {
                error: opt_error_view(*error),
            },
            LaunchEvent::Runtime { binary } => LaunchEventView::Runtime {
                binary: match binary {
                    Ok(binary) => Ok(binary@),
                    Err(error) => Err(error@),
                },
            },
            LaunchEvent::Spawned { pid } => LaunchEventView::Spawned {
                pid: match pid {
                    Ok(pid) => Ok(*pid),
                    Err(error) => Err(error@),
                },
            },
            LaunchEvent::Awaited { error } => LaunchEventView::Awaited {
                error: opt_error_view(*error),
            },
        }
    }
}

/// A start of the service: what is started, and how far it has come.
#[derive(Debug, PartialEq, Eq)]
pub struct ServiceLaunch {
    config: LocalMultiAgentConfig,
    root_url: String,
    config_hash: String,
    stage: LaunchStage,
}

/// The model of a `ServiceLaunch`.
pub struct LaunchView {
    pub config: AgentConfigView,
    pub root_url: Seq<char>,
    pub config_hash: Seq<char>,
    pub stage: LaunchStageView,
}

impl LaunchView {
    /// The start at another stage.
    pub open spec fn at(self, stage: LaunchStageView) -> LaunchView {
        LaunchView { stage, ..self }
    }

    /// The start has failed.
    pub open spec fn failed(self, error: ServiceErrorView, kills_child: bool) -> (
        LaunchView,
        LaunchActionView,
    ) {
        (self.at(LaunchStageView::Done), LaunchActionView::Fail { error, kills_child })
    }

    /// The service is there, in a process of the start where it has one.
    pub open spec fn finished(self, pid: Option<u32>) -> (LaunchView, LaunchActionView) {
        (
            self.at(LaunchStageView::Done),
            LaunchActionView::Finish {
                result: StartResultView {
                    has_child: pid is Some,
                    root_url: self.root_url,
                    pid,
                    config_hash: self.config_hash,
                },
            },
        )
    }

    /// What follows an event. An event that the stage does not wait for changes nothing.
    pub open spec fn next(self, event: LaunchEventView) -> (LaunchView, LaunchActionView) {
        match (self.stage, event) {
            (LaunchStageView::CheckingHealth, LaunchEventView::Health { healthy: true }) => {
                self.finished(None)
            },
            (LaunchStageView::CheckingHealth, LaunchEventView::Health { healthy: false }) => (
                self.at(LaunchStageView::CheckingPort),
                LaunchActionView::CheckPort {
                    host: trim(self.config.host),
                    port: self.config.port,
                },
            ),
            (LaunchStageView::CheckingPort, LaunchEventView::Port { error: Some(error) }) => {
                self.failed(port_error(self.config, error), false)
            },
            (LaunchStageView::CheckingPort, LaunchEventView::Port { error: None }) => (
                self.at(LaunchStageView::FindingBundle),
                LaunchActionView::FindBundle,
            ),
            (LaunchStageView::FindingBundle, LaunchEventView::Bundle { entrypoint: None }) => {
                self.failed(plain_error("Local multi-agent service is not bundled"@), false)
            },
            (
                LaunchStageView::FindingBundle,
                LaunchEventView::Bundle { entrypoint: Some(entrypoint) },
            ) => (
                self.at(LaunchStageView::CheckingEntrypoint { entrypoint }),
                LaunchActionView::CheckEntrypoint { entrypoint },
            ),
            (
                LaunchStageView::CheckingEntrypoint { entrypoint },
                LaunchEventView::Entrypoint { found: false },
            ) => self.failed(entrypoint_error(entrypoint), false),
            (
                LaunchStageView::CheckingEntrypoint { entrypoint },
                LaunchEventView::Entrypoint { found: true },
            ) => (
                self.at(LaunchStageView::PreparingPaths { entrypoint }),
                LaunchActionView::PreparePaths,
            ),
            (
                LaunchStageView::PreparingPaths { .. },
                LaunchEventView::Paths { error: Some(error) },
            ) => self.failed(error, false),
            (
                LaunchStageView::PreparingPaths { entrypoint },
                LaunchEventView::Paths { error: None },
            ) => (
                self.at(LaunchStageView::SelectingRuntime { entrypoint }),
                LaunchActionView::SelectRuntime,
            ),
            (
                LaunchStageView::SelectingRuntime { .. },
                LaunchEventView::Runtime { binary: Err(error) },
            ) => self.failed(error, false),
            (
                LaunchStageView::SelectingRuntime { entrypoint },
                LaunchEventView::Runtime { binary: Ok(binary) },
            ) => (
                self.at(LaunchStageView::Spawning { entrypoint }),
                LaunchActionView::Spawn { binary, entrypoint },
            ),
            (
                LaunchStageView::Spawning { entrypoint },
                LaunchEventView::Spawned { pid: Err(error) },
            ) => self.failed(caused_error("Failed to spawn "@ + entrypoint, error), false),
            (LaunchStageView::Spawning { .. }, LaunchEventView::Spawned { pid: Ok(pid) }) => (
                self.at(LaunchStageView::AwaitingHealth { pid }),
                LaunchActionView::AwaitHealth { root_url: self.root_url },
            ),
            (
                LaunchStageView::AwaitingHealth { .. },
                LaunchEventView::Awaited { error: Some(error) },
            ) => self.failed(error, true),
            (
                LaunchStageView::AwaitingHealth { pid },
                LaunchEventView::Awaited { error: None },
            ) => self.finished(Some(pid)),
            _ => (self, LaunchActionView::Wait),
        }
    }

    /// The steps that can still follow.
    pub open spec fn steps_left(self) -> nat {
        match self.stage {
            LaunchStageView::CheckingHealth => 8,
            LaunchStageView::CheckingPort => 7,
            LaunchStageView::FindingBundle => 6,
            LaunchStageView::CheckingEntrypoint { .. } => 5,
            LaunchStageView::PreparingPaths { .. } => 4,
            LaunchStageView::SelectingRuntime { .. } => 3,
            LaunchStageView::Spawning { .. } => 2,
            LaunchStageView::AwaitingHealth { .. } => 1,
            LaunchStageView::Done => 0,
        }
    }
}

/// A start takes its steps one after the other and leaves none out: an event either is ignored, or
/// ends the start, or leads to the very next step. So a process is spawned only where no service
/// answered, the port was free, and the entry point, the paths and the runtime were there.
pub proof fn law_launch_order(launch: LaunchView, event: LaunchEventView)
    ensures
        launch.next(event).1 is Wait <==> launch.next(event).0.steps_left() == launch.steps_left(),
        launch.next(event).1 is Wait ==> launch.next(event).0 == launch,
        launch.next(event).1 is Finish || launch.next(event).1 is Fail
            ==> launch.next(event).0.stage is Done,
        !(launch.next(event).1 is Wait || launch.next(event).1 is Finish || launch.next(event).1
            is Fail) ==> launch.next(event).0.steps_left() == launch.steps_left() - 1,
{
}

/// A start ends well in two ways alone: with a service that answered at once, and then without a
/// process of its own, or with the process that was spawned and became healthy. A process is killed
/// exactly where it was spawned and did not become healthy.
pub proof fn law_launch_outcome(launch: LaunchView, event: LaunchEventView)
    ensures
        launch.next(event).1 matches LaunchActionView::Finish { result } ==> result.root_url
            == launch.root_url && result.config_hash == launch.config_hash && match result.pid {
            None => !result.has_child && launch.stage is CheckingHealth && event == (
            LaunchEventView::Health { healthy: true }),
            Some(pid) => result.has_child && launch.stage == (LaunchStageView::AwaitingHealth {
                pid,
            }) && event == (LaunchEventView::Awaited { error: None }),
        },
        launch.next(event).1 matches LaunchActionView::Fail { kills_child, .. } ==> (kills_child
            <==> launch.stage is AwaitingHealth),
{
}

impl ServiceLaunch {
    pub closed spec fn view(&self) -> LaunchView {
        LaunchView {
            config: self.config@,
            root_url: self.root_url@,
            config_hash: self.config_hash@,
            stage: self.stage@,
        }
    }

    /// A start that begins with the question whether a service answers already. `Err` where
    /// something is wrong with the configuration.
    pub fn new(config: &LocalMultiAgentConfig) -> (r: Result<(Self, LaunchAction), ServiceError>)
        ensures
            match r {
                Ok((launch, action)) => config_error(config@) is None && root_of(config@) == Ok::<
                    Seq<char>,
                    ConfigErrorView,
                >(launch@.root_url) && launch@ == (LaunchView {
                    config: config@,
                    root_url: launch@.root_url,
                    config_hash: fingerprint(config@),
                    stage: LaunchStageView::CheckingHealth,
                }) && action@ == (LaunchActionView::CheckHealth { root_url: launch@.root_url }),
                Err(error) => config_error(config@) matches Some(e) && error@ == plain_error(
                    config_error_message(e),
                ),
            },
    {
        match config.plan_start() {
            Ok(plan) => {
                let action = LaunchAction::CheckHealth { root_url: plan.root_url.clone() };
                let launch = ServiceLaunch {
                    config: config.clone(),
                    root_url: plan.root_url,
                    config_hash: plan.config_hash,
                    stage: LaunchStage::CheckingHealth,
                };
                Ok((launch, action))
            },
            Err(error) => Err(ServiceError::plain(error.message())),
        }
    }

    fn fail(&mut self, error: ServiceError, kills_child: bool) -> (r: LaunchAction)
        ensures
            (final(self)@, r@) == old(self)@.failed(error@, kills_child),
    {
        self.stage = LaunchStage::Done;
        LaunchAction::Fail { error, kills_child }
    }

    fn finish(&mut self, pid: Option<u32>) -> (r: LaunchAction)
        ensures
            (final(self)@, r@) == old(self)@.finished(pid),
    {
        self.stage = LaunchStage::Done;
        let plan = StartPlan {
            root_url: self.root_url.clone(),
            config_hash: self.config_hash.clone(),
        };
        let result = match pid {
            Some(pid) => plan.spawned(pid),
            None => plan.reused(),
        };
        LaunchAction::Finish { result }
    }

    /// Takes up what came of the last action, and says what is next.
    pub fn next(&mut self, event: LaunchEvent) -> (r: LaunchAction)
        ensures
            (final(self)@, r@) == old(self)@.next(event@),
    {
        let mut stage = LaunchStage::Done;
        std::mem::swap(&mut stage, &mut self.stage);
        match (stage, event) {
            (LaunchStage::CheckingHealth, LaunchEvent::Health { healthy }) => {
                if healthy {
                    return self.finish(None);
                }
                self.stage = LaunchStage::CheckingPort;
                LaunchAction::CheckPort {
                    host: trimmed(self.config.host.as_str()).to_owned(),
                    port: self.config.port,
                }
            },
            (LaunchStage::CheckingPort, LaunchEvent::Port { error: Some(error) }) => {
                let error = port_in_use(&self.config, error.as_str());
                self.fail(error, false)
            },
            (LaunchStage::CheckingPort, LaunchEvent::Port { error: None }) => {
                self.stage = LaunchStage::FindingBundle;
                LaunchAction::FindBundle
            },
            (LaunchStage::FindingBundle, LaunchEvent::Bundle { entrypoint: None }) => {
                self.fail(
                    ServiceError::plain("Local multi-agent service is not bundled".to_owned()),
                    false,
                )
            },
            (LaunchStage::FindingBundle, LaunchEvent::Bundle { entrypoint: Some(entrypoint) }) => {
                self.stage = LaunchStage::CheckingEntrypoint { entrypoint: entrypoint.clone() };
                LaunchAction::CheckEntrypoint { entrypoint }
            },
            (LaunchStage::CheckingEntrypoint { entrypoint }, LaunchEvent::Entrypoint { found }) => {
                if !found {
                    return self.fail(missing_entrypoint(entrypoint.as_str()), false);
                }
                self.stage = LaunchStage::PreparingPaths { entrypoint };
                LaunchAction::PreparePaths
            },
            (LaunchStage::PreparingPaths { .. }, LaunchEvent::Paths { error: Some(error) }) => {
                self.fail(error, false)
            },
            (LaunchStage::PreparingPaths { entrypoint }, LaunchEvent::Paths { error: None }) => {
                self.stage = LaunchStage::SelectingRuntime { entrypoint };
                LaunchAction::SelectRuntime
            },
            (LaunchStage::SelectingRuntime { .. }, LaunchEvent::Runtime { binary: Err(error) }) => {
                self.fail(error, false)
            },
            (
                LaunchStage::SelectingRuntime { entrypoint },
                LaunchEvent::Runtime { binary: Ok(binary) },
            ) => {
                self.stage = LaunchStage::Spawning { entrypoint: entrypoint.clone() };
                LaunchAction::Spawn { binary, entrypoint }
            },
            (LaunchStage::Spawning { entrypoint }, LaunchEvent::Spawned { pid: Err(error) }) => {
                let message = concat2("Failed to spawn ", entrypoint.as_str());
                self.fail(ServiceError::caused(message, error), false)
            },
            (LaunchStage::Spawning { .. }, LaunchEvent::Spawned { pid: Ok(pid) }) => {
                self.stage = LaunchStage::AwaitingHealth { pid };
                LaunchAction::AwaitHealth { root_url: self.root_url.clone() }
            },
            (LaunchStage::AwaitingHealth { .. }, LaunchEvent::Awaited { error: Some(error) }) => {
                self.fail(error, true)
            },
            (LaunchStage::AwaitingHealth { pid }, LaunchEvent::Awaited { error: None }) => {
                self.finish(Some(pid))
            },
            (stage, _) => {
                self.stage = stage;
                LaunchAction::Wait
            },
        }
    }
}

/// How far a test of the provider has come.
#[derive(Debug, PartialEq, Eq)]
pub enum BackendTest {
    CheckingHealth,
    Starting,
    FetchingModels { started: Option<StartServiceResult> },
    Done,
}

/// The model of a `BackendTest`.
pub enum BackendTestView {
    CheckingHealth,
    Starting,
    FetchingModels { started: Option<StartResultView> },
    Done,
}

/// What a test of the provider has to do next.
#[derive(Debug, PartialEq, Eq)]
pub enum BackendTestAction {
    StartService,
    FetchModels,
    /// The test is over; a process that was started for it and is not kept has to be killed.
    Finish {
        result: Result<(Option<StartServiceResult>, Vec<String>), ServiceError>,
        kills_child: bool,
    },
    Wait,
}

/// The model of a `BackendTestAction`.
pub enum BackendTestActionView {
    StartService,
    FetchModels,
    Finish {
        result: Result<(Option<StartResultView>, Seq<Seq<char>>), ServiceErrorView>,
        kills_child: bool,
    },
    Wait,
}

/// What came of an action of a test.
#[derive(Debug, PartialEq, Eq)]
pub enum BackendTestEvent {
    Health { healthy: bool },
    Started { result: Result<StartServiceResult, ServiceError> },
    Models { result: Result<Vec<String>, ServiceError> },
}

/// The model of a `BackendTestEvent`.
pub enum BackendTestEventView {
    Health { healthy: bool },
    Started { result: Result<StartResultView, ServiceErrorView> },
    Models { result: Result<Seq<Seq<char>>, ServiceErrorView> },
}

/// The model of an optional start.
pub open spec fn opt_start_view(started: Option<StartServiceResult>) -> Option<StartResultView> {
    match started {
        Some(result) => Some(result@),
        None => None,
    }
}

impl BackendTestAction {
    pub open spec fn view(&self) -> BackendTestActionView {
        match self {
            BackendTestAction::StartService => BackendTestActionView::StartService,
            BackendTestAction::FetchModels => BackendTestActionView::FetchModels,
            BackendTestAction::Finish { result, kills_child } => BackendTestActionView::Finish {
                result: test_view(*result),
                kills_child: *kills_child,
            },
            BackendTestAction::Wait => BackendTestActionView::Wait,
        }
    }
}

impl BackendTestEvent {
    pub open spec fn view(&self) -> BackendTestEventView {
        match self {
            BackendTestEvent::Health { healthy } => BackendTestEventView::Health {
                healthy: *healthy,
            },
            BackendTestEvent::Started { result } => BackendTestEventView::Started {
                result: match result {
                    Ok(result) => Ok(result@),
                    Err(error) => Err(error@),
                },
            },
            BackendTestEvent::Models { result } => BackendTestEventView::Models {
                result: offered_view(*result),
            },
        }
    }
}

impl BackendTestView {
    /// What follows an event. An event that the test does not wait for changes nothing.
    pub open spec fn next(self, event: BackendTestEventView) -> (
        BackendTestView,
        BackendTestActionView,
    ) {
        match (self, event) {
            (BackendTestView::CheckingHealth, BackendTestEventView::Health { healthy: true }) => (
                BackendTestView::FetchingModels { started: None },
                BackendTestActionView::FetchModels,
            ),
            (BackendTestView::CheckingHealth, BackendTestEventView::Health { healthy: false }) => (
                BackendTestView::Starting,
                BackendTestActionView::StartService,
            ),
            (BackendTestView::Starting, BackendTestEventView::Started { result: Ok(result) }) => (
                BackendTestView::FetchingModels { started: Some(result) },
                BackendTestActionView::FetchModels,
            ),
            (BackendTestView::Starting, BackendTestEventView::Started { result: Err(error) }) => (
                BackendTestView::Done,
                BackendTestActionView::Finish { result: Err(error), kills_child: false },
            ),
            (
                BackendTestView::FetchingModels { started },
                BackendTestEventView::Models { result: Ok(models) },
            ) => (
                BackendTestView::Done,
                BackendTestActionView::Finish {
                    result: Ok((started, models)),
                    kills_child: false,
                },
            ),
            (
                BackendTestView::FetchingModels { started },
                BackendTestEventView::Models { result: Err(error) },
            ) => (
                BackendTestView::Done,
                BackendTestActionView::Finish {
                    result: Err(error),
                    kills_child: started matches Some(result) && result.has_child,
                },
            ),
            _ => (self, BackendTestActionView::Wait),
        }
    }

    /// The steps that can still follow.
    pub open spec fn steps_left(self) -> nat {
        match self {
            BackendTestView::CheckingHealth => 3,
            BackendTestView::Starting => 2,
            BackendTestView::FetchingModels { .. } => 1,
            BackendTestView::Done => 0,
        }
    }
}

/// A test starts a service only where none answers, asks for the models only where one answers or
/// was started, comes to an end, and hands back the service that it started or has its process
/// killed.
pub proof fn law_backend_test(test: BackendTestView, event: BackendTestEventView)
    ensures
        test.next(event).1 is Wait <==> test.next(event).0.steps_left() == test.steps_left(),
        test.next(event).0.steps_left() <= test.steps_left(),
        test.next(event).1 is StartService <==> test is CheckingHealth && event == (
        BackendTestEventView::Health { healthy: false }),
        test.next(event).1 is FetchModels <==> (test is CheckingHealth && event == (
        BackendTestEventView::Health { healthy: true })) || (test is Starting && (event
            matches BackendTestEventView::Started { result } && result is Ok)),
        test.next(event).1 matches BackendTestActionView::Finish { result, kills_child }
            ==> test.next(event).0 is Done && match result {
            Ok((started, _)) => !kills_child && test == (BackendTestView::FetchingModels {
                started,
            }),
            Err(_) => kills_child <==> (test matches BackendTestView::FetchingModels {
                started,
            } && (started matches Some(start) && start.has_child)),
        },
{
}

impl BackendTest {
    pub open spec fn view(&self) -> BackendTestView {
        match self {
            BackendTest::CheckingHealth => BackendTestView::CheckingHealth,
            BackendTest::Starting => BackendTestView::Starting,
            BackendTest::FetchingModels { started } => BackendTestView::FetchingModels {
                started: opt_start_view(*started),
            },
            BackendTest::Done => BackendTestView::Done,
        }
    }

    /// A test, which begins with the question whether the service answers.
    pub fn new() -> (r: Self)
        ensures
            r@ == BackendTestView::CheckingHealth,
    {
        BackendTest::CheckingHealth
    }

    /// Takes up what came of the last action, and says what is next.
    pub fn next(&mut self, event: BackendTestEvent) -> (r: BackendTestAction)
        ensures
            (final(self)@, r@) == old(self)@.next(event@),
    {
        let mut test = BackendTest::Done;
        std::mem::swap(&mut test, self);
        match (test, event) {
            (BackendTest::CheckingHealth, BackendTestEvent::Health { healthy }) => {
                if healthy {
                    *self = BackendTest::FetchingModels { started: None };
                    BackendTestAction::FetchModels
                } else {
                    *self = BackendTest::Starting;
                    BackendTestAction::StartService
                }
            },
            (BackendTest::Starting, BackendTestEvent::Started { result: Ok(result) }) => {
                *self = BackendTest::FetchingModels { started: Some(result) };
                BackendTestAction::FetchModels
            },
            (BackendTest::Starting, BackendTestEvent::Started { result: Err(error) }) => {
                BackendTestAction::Finish { result: Err(error), kills_child: false }
            },
            (
                BackendTest::FetchingModels { started },
                BackendTestEvent::Models { result: Ok(models) },
            ) => BackendTestAction::Finish { result: Ok((started, models)), kills_child: false },
            (
                BackendTest::FetchingModels { started },
                BackendTestEvent::Models { result: Err(error) },
            ) => {
                let kills_child = match &started {
                    Some(result) => result.has_child,
                    None => false,
                };
                BackendTestAction::Finish { result: Err(error), kills_child }
            },
            (test, _) => {
                *self = test;
                BackendTestAction::Wait
            },
        }
    }
}

} // verus!
