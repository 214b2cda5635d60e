//! Choosing the Node.js runtime that the service runs on.
//!
//! A runtime that was installed before comes first, the system's own next; where neither can load
//! what the service needs, one is installed.
use crate::local_multi_agent::service::{ServiceError, ServiceErrorView, caused_error};
use crate::text::{clone_option, concat2, concat3, join, joined, opt_view, trim, trimmed, views};
use vstd::prelude::*;

verus! {

/// How far the choice has come.
#[derive(Debug, PartialEq, Eq)]
pub enum NodeStage {
    FindingInstalled,
    CheckingInstalled { binary: String },
    DetectingSystem,
    CheckingSystem,
    Installing,
    Locating,
    CheckingFresh { binary: String },
    Done,
}

/// The model of a `NodeStage`.
pub enum NodeStageView {
    FindingInstalled,
    CheckingInstalled { binary: Seq<char> },
    DetectingSystem,
    CheckingSystem,
    Installing,
    Locating,
    CheckingFresh { binary: Seq<char> },
    Done,
}

/// What has to be done next.
#[derive(Debug, PartialEq, Eq)]
pub enum NodeAction {
    FindInstalled,
    CheckDependencies { binary: String, path_env: Option<String> },
    DetectSystem { path_env: String },
    Install,
    Locate,
    Use { binary: String },
    Fail { error: ServiceError },
    Wait,
}

/// The model of a `NodeAction`.
pub enum NodeActionView {
    FindInstalled,
    CheckDependencies { binary: Seq<char>, path_env: Option<Seq<char>> },
    DetectSystem { path_env: Seq<char> },
    Install,
    Locate,
    Use { binary: Seq<char> },
    Fail { error: ServiceErrorView },
    Wait,
}

/// What came of an action.
#[derive(Debug, PartialEq, Eq)]
pub enum NodeEvent {
    /// The binary of a runtime that was installed before, where there is one.
    Found { binary: Option<String> },
    /// Whether something worked: `None`, or the error with all that it came from.
    Tried { error: Option<String> },
    /// The binary of the runtime that was just installed.
    Located { binary: Result<String, String> },
}

/// The model of a `NodeEvent`.
pub enum NodeEventView {
    Found { binary: Option<Seq<char>> },
    Tried { error: Option<Seq<char>> },
    Located { binary: Result<Seq<char>, Seq<char>> },
}

impl NodeStage {
    pub open spec fn view(&self) -> NodeStageView {
        match self {
            NodeStage::FindingInstalled => NodeStageView::FindingInstalled,
            NodeStage::CheckingInstalled { binary } => NodeStageView::CheckingInstalled {
                binary: binary@,
            },
            NodeStage::DetectingSystem => NodeStageView::DetectingSystem,
            NodeStage::CheckingSystem => NodeStageView::CheckingSystem,
            NodeStage::Installing => NodeStageView::Installing,
            NodeStage::Locating => NodeStageView::Locating,
            NodeStage::CheckingFresh { binary } => NodeStageView::CheckingFresh { binary: binary@ },
            NodeStage::Done => NodeStageView::Done,
        }
    }
}

impl NodeAction {
    pub open spec fn view(&self) -> NodeActionView {
        match self {
            NodeAction::FindInstalled => NodeActionView::FindInstalled,
            NodeAction::CheckDependencies { binary, path_env } => {
                NodeActionView::CheckDependencies { binary: binary@, path_env: opt_view(*path_env) }
            },
            NodeAction::DetectSystem { path_env } => NodeActionView::DetectSystem {
                path_env: path_env@,
            },
            NodeAction::Install => NodeActionView::Install,
            NodeAction::Locate => NodeActionView::Locate,
            NodeAction::Use { binary } => NodeActionView::Use { binary: binary@ },
            NodeAction::Fail { error } => NodeActionView::Fail { error: error@ },
            NodeAction::Wait => NodeActionView::Wait,
        }
    }
}

impl NodeEvent {
    pub open spec fn view(&self) -> NodeEventView {
        match self {
            NodeEvent::Found { binary } => NodeEventView::Found { binary: opt_view(*binary) },
            NodeEvent::Tried { error } => NodeEventView::Tried { error: opt_view(*error) },
            NodeEvent::Located { binary } => NodeEventView::Located {
                binary: match binary {
                    Ok(binary) => Ok(binary@),
                    Err(error) => Err(error@),
                },
            },
        }
    }
}

/// The choice of a runtime: how far it has come, and what failed so far.
#[derive(Debug, PartialEq, Eq)]
pub struct NodeSelection {
    path_env: Option<String>,
    failures: Vec<String>,
    stage: NodeStage,
}

/// The model of a `NodeSelection`.
pub struct NodeSelectionView {
    pub path_env: Option<Seq<char>>,
    pub failures: Seq<Seq<char>>,
    pub stage: NodeStageView,
}

impl NodeSelectionView {
    /// The choice at another stage.
    pub open spec fn at(self, stage: NodeStageView) -> NodeSelectionView {
        NodeSelectionView { stage, ..self }
    }

    /// The choice with a further failure.
    pub open spec fn failed(self, failure: Seq<char>) -> NodeSelectionView {
        NodeSelectionView { failures: self.failures.push(failure), ..self }
    }

    /// The system's runtime is looked for, where there is a search path; otherwise one is
    /// installed.
    pub open spec fn after_installed(self) -> (NodeSelectionView, NodeActionView) {
        match self.path_env {
            Some(path_env) => (
                self.at(NodeStageView::DetectingSystem),
                NodeActionView::DetectSystem { path_env },
            ),
            None => (self.at(NodeStageView::Installing), NodeActionView::Install),
        }
    }

    /// What is said where the fresh runtime cannot load what the service needs.
    pub open spec fn no_runtime(self, binary: Seq<char>, cause: Seq<char>) -> ServiceErrorView {
        caused_error(
            if self.failures.len() == 0 {
                "Bundled Node.js runtime at "@ + binary
                    + " cannot load local multi-agent service dependencies"@
            } else {
                "No compatible Node.js runtime found for local multi-agent service. Previous attempts: "@
                    + join(self.failures, "; "@)
            },
            cause,
        )
    }

    /// What follows an event. An event that the stage does not wait for changes nothing.
    pub open spec fn next(self, event: NodeEventView) -> (NodeSelectionView, NodeActionView) {
        match (self.stage, event) {
            (NodeStageView::FindingInstalled, NodeEventView::Found { binary: Some(binary) }) => (
                self.at(NodeStageView::CheckingInstalled { binary }),
                NodeActionView::CheckDependencies { binary, path_env: None },
            ),
            (NodeStageView::FindingInstalled, NodeEventView::Found { binary: None }) => {
                self.after_installed()
            },
            (NodeStageView::CheckingInstalled { binary }, NodeEventView::Tried { error: None }) => (
                self.at(NodeStageView::Done),
                NodeActionView::Use { binary },
            ),
            (
                NodeStageView::CheckingInstalled { binary },
                NodeEventView::Tried { error: Some(error) },
            ) => self.failed("custom node "@ + binary + ": "@ + error).after_installed(),
            (NodeStageView::DetectingSystem, NodeEventView::Tried { error: None }) => (
                self.at(NodeStageView::CheckingSystem),
                NodeActionView::CheckDependencies { binary: "node"@, path_env: self.path_env },
            ),
            (NodeStageView::CheckingSystem, NodeEventView::Tried { error: None }) => (
                self.at(NodeStageView::Done),
                NodeActionView::Use { binary: "node"@ },
            ),
            (
                NodeStageView::DetectingSystem | NodeStageView::CheckingSystem,
                NodeEventView::Tried { error: Some(error) },
            ) => (
                self.failed("system node: "@ + error).at(NodeStageView::Installing),
                NodeActionView::Install,
            ),
            (NodeStageView::Installing, NodeEventView::Tried { error: None }) => (
                self.at(NodeStageView::Locating),
                NodeActionView::Locate,
            ),
            (NodeStageView::Installing, NodeEventView::Tried { error: Some(error) }) => (
                self.at(NodeStageView::Done),
                NodeActionView::Fail {
                    error: caused_error("Failed to install bundled Node.js runtime"@, error),
                },
            ),
            (NodeStageView::Locating, NodeEventView::Located { binary: Ok(binary) }) => (
                self.at(NodeStageView::CheckingFresh { binary }),
                NodeActionView::CheckDependencies { binary, path_env: None },
            ),
            (NodeStageView::Locating, NodeEventView::Located { binary: Err(error) }) => (
                self.at(NodeStageView::Done),
                NodeActionView::Fail {
                    error: caused_error(
                        "Failed to locate bundled Node.js runtime after install"@,
                        error,
                    ),
                },
            ),
            (NodeStageView::CheckingFresh { binary }, NodeEventView::Tried { error: None }) => (
                self.at(NodeStageView::Done),
                NodeActionView::Use { binary },
            ),
            (
                NodeStageView::CheckingFresh { binary },
                NodeEventView::Tried { error: Some(error) },
            ) => (
                self.at(NodeStageView::Done),
                NodeActionView::Fail { error: self.no_runtime(binary, error) },
            ),
            _ => (self, NodeActionView::Wait),
        }
    }

    /// The stages that can still follow.
    pub open spec fn stages_left(self) -> nat {
        match self.stage {
            NodeStageView::FindingInstalled => 7,
            NodeStageView::CheckingInstalled { .. } => 6,
            NodeStageView::DetectingSystem => 5,
            NodeStageView::CheckingSystem => 4,
            NodeStageView::Installing => 3,
            NodeStageView::Locating => 2,
            NodeStageView::CheckingFresh { .. } => 1,
            NodeStageView::Done => 0,
        }
    }

    /// The runtime whose check is awaited.
    pub open spec fn checked(self) -> Option<Seq<char>> {
        match self.stage {
            NodeStageView::CheckingInstalled { binary } => Some(binary),
            NodeStageView::CheckingSystem => Some("node"@),
            NodeStageView::CheckingFresh { binary } => Some(binary),
            _ => None,
        }
    }
}

/// A choice moves on with every event that it does not ignore, so that it comes to an end; a
/// runtime is used only where it was just found to load what the service needs, and asked for that
/// before; failures are never forgotten.
pub proof fn law_runtime_is_checked(selection: NodeSelectionView, event: NodeEventView)
    ensures
        selection.next(event).1 is Wait <==> selection.next(event).0.stages_left()
            == selection.stages_left(),
        selection.next(event).0.stages_left() <= selection.stages_left(),
        selection.next(event).1 matches NodeActionView::Use { binary } ==> selection.checked()
            == Some(binary) && event == (NodeEventView::Tried { error: None }),
        selection.next(event).1 matches NodeActionView::CheckDependencies { binary, .. }
            ==> selection.next(event).0.checked() == Some(binary),
        selection.failures.is_prefix_of(selection.next(event).0.failures),
{
}

impl NodeSelection {
    pub closed spec fn view(&self) -> NodeSelectionView {
        NodeSelectionView {
            path_env: opt_view(self.path_env),
            failures: views(self.failures@),
            stage: self.stage@,
        }
    }

    /// A choice that begins with the runtime that was installed before.
    pub fn new(path_env: Option<String>) -> (r: (Self, NodeAction))
        ensures
            r.0@ == (NodeSelectionView {
                path_env: opt_view(path_env),
                failures: Seq::empty(),
                stage: NodeStageView::FindingInstalled,
            }),
            r.1@ == NodeActionView::FindInstalled,
    {
        let selection = NodeSelection {
            path_env,
            failures: Vec::new(),
            stage: NodeStage::FindingInstalled,
        };
        assert(views(selection.failures@) =~= Seq::empty());
        (selection, NodeAction::FindInstalled)
    }

    fn after_installed(&mut self) -> (r: NodeAction)
        ensures
            (final(self)@, r@) == old(self)@.after_installed(),
    {
        match &self.path_env {
            Some(path_env) => {
                let path_env = path_env.clone();
                self.stage = NodeStage::DetectingSystem;
                NodeAction::DetectSystem { path_env }
            },
            None => {
                self.stage = NodeStage::Installing;
                NodeAction::Install
            },
        }
    }

    fn note_failure(&mut self, failure: String)
        ensures
            final(self)@ == old(self)@.failed(failure@),
    {
        let ghost before = views(self.failures@);
        self.failures.push(failure);
        assert(views(self.failures@) =~= before.push(failure@));
    }

    fn finish(&mut self)
        ensures
            final(self)@ == old(self)@.at(NodeStageView::Done),
    {
        self.stage = NodeStage::Done;
    }

    fn no_runtime(&self, binary: &str, cause: String) -> (r: ServiceError)
        ensures
            r@ == self@.no_runtime(binary@, cause@),
    {
        let message = if self.failures.len() == 0 {
            concat3(
                "Bundled Node.js runtime at ",
                binary,
                " cannot load local multi-agent service dependencies",
            )
        } else {
            concat2(
                "No compatible Node.js runtime found for local multi-agent service. Previous attempts: ",
                joined(&self.failures, "; ").as_str(),
            )
        };
        ServiceError::caused(message, cause)
    }

    /// Takes up what came of the last action, and says what is next.
    pub fn next(&mut self, event: NodeEvent) -> (r: NodeAction)
        ensures
            (final(self)@, r@) == old(self)@.next(event@),
    {
        let mut stage = NodeStage::Done;
        std::mem::swap(&mut stage, &mut self.stage);
        match (stage, event) {
            (NodeStage::FindingInstalled, NodeEvent::Found { binary: Some(binary) }) => {
                self.stage = NodeStage::CheckingInstalled { binary: binary.clone() };
                NodeAction::CheckDependencies { binary, path_env: None }
            },
            (NodeStage::FindingInstalled, NodeEvent::Found { binary: None }) => {
                self.after_installed()
            },
            (NodeStage::CheckingInstalled { binary }, NodeEvent::Tried { error: None }) => {
                self.finish();
                NodeAction::Use { binary }
            },
            (NodeStage::CheckingInstalled { binary }, NodeEvent::Tried { error: Some(error) }) => {
                let failure = concat3(
                    concat2("custom node ", binary.as_str()).as_str(),
                    ": ",
                    error.as_str(),
                );
                self.note_failure(failure);
                self.after_installed()
            },
            (NodeStage::DetectingSystem, NodeEvent::Tried { error: None }) => {
                self.stage = NodeStage::CheckingSystem;
                NodeAction::CheckDependencies {
                    binary: "node".to_owned(),
                    path_env: clone_option(&self.path_env),
                }
            },
            (NodeStage::CheckingSystem, NodeEvent::Tried { error: None }) => {
                self.finish();
                NodeAction::Use { binary: "node".to_owned() }
            },
            (NodeStage::DetectingSystem, NodeEvent::Tried { error: Some(error) }) => {
                self.note_failure(concat2("system node: ", error.as_str()));
                self.stage = NodeStage::Installing;
                NodeAction::Install
            },
            (NodeStage::CheckingSystem, NodeEvent::Tried { error: Some(error) }) => {
                self.note_failure(concat2("system node: ", error.as_str()));
                self.stage = NodeStage::Installing;
                NodeAction::Install
            },
            (NodeStage::Installing, NodeEvent::Tried { error: None }) => {
                self.stage = NodeStage::Locating;
                NodeAction::Locate
            },
            (NodeStage::Installing, NodeEvent::Tried { error: Some(error) }) => {
                self.finish();
                NodeAction::Fail {
                    error: ServiceError::caused(
                        "Failed to install bundled Node.js runtime".to_owned(),
                        error,
                    ),
                }
            },
            (NodeStage::Locating, NodeEvent::Located { binary: Ok(binary) }) => {
                self.stage = NodeStage::CheckingFresh { binary: binary.clone() };
                NodeAction::CheckDependencies { binary, path_env: None }
            },
            (NodeStage::Locating, NodeEvent::Located { binary: Err(error) }) => {
                self.finish();
                NodeAction::Fail {
                    error: ServiceError::caused(
                        "Failed to locate bundled Node.js runtime after install".to_owned(),
                        error,
                    ),
                }
            },
            (NodeStage::CheckingFresh { binary }, NodeEvent::Tried { error: None }) => {
                self.finish();
                NodeAction::Use { binary }
            },
            (NodeStage::CheckingFresh { binary }, NodeEvent::Tried { error: Some(error) }) => {
                let error = self.no_runtime(binary.as_str(), error);
                self.finish();
                NodeAction::Fail { error }
            },
            (stage, _) => {
                self.stage = stage;
                NodeAction::Wait
            },
        }
    }
}

/// What came of the attempt to load what the service needs: `None` where it worked.
pub open spec fn dependency_error(is_success: bool, binary: Seq<char>, stderr: Seq<char>) -> Option<
    Seq<char>,
> {
    if is_success {
        None
    } else {
        Some(
            binary + " failed to load local multi-agent service dependencies: "@ + trim(stderr),
        )
    }
}

/// Reads what came of the attempt to load what the service needs.
pub fn validate_service_node_dependencies(is_success: bool, binary: &str, stderr: &str) -> (r:
    Option<String>)
    ensures
        opt_view(r) == dependency_error(is_success, binary@, stderr@),
{
    if is_success {
        None
    } else {
        Some(
            concat3(
                binary,
                " failed to load local multi-agent service dependencies: ",
                trimmed(stderr),
            ),
        )
    }
}

} // verus!
