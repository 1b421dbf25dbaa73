//! Ensuring that one resource exists: fetch it, and create it if and only if
//! the fetch says that it is missing.
//!
//! One reconciliation is a short conversation with the cluster.  It starts
//! in [`Phase::Fetching`].  The functions here hold its decisions: which call
//! a phase stands for, and what follows from the reply to it.

use vstd::prelude::*;
use vstd::string::*;
use crate::access::{Reply, ReplyView, Request, RequestView};
use crate::consts::OLLAMA_OPERATOR_NAMESPACE;
use crate::failure::{ErrorKind, Failure, FailureView};
use crate::record::{
    desired_namespace, desired_namespace_of, desired_workload, desired_workload_of,
    workload_name, workload_name_of,
};

verus! {

/// Where a reconciliation stands: the call whose reply it waits for.
#[derive(Debug, Clone, Copy, PartialEq, Eq, Structural)]
pub enum Phase {
    /// Looking the resource up by name.
    Fetching,
    /// Creating the resource after the lookup found nothing.
    Creating,
}

/// How a reconciliation that succeeded left the cluster.
#[derive(Debug, Clone, Copy, PartialEq, Eq, Structural)]
pub enum Outcome {
    /// The resource was there; nothing was done.
    AlreadyExists,
    /// The resource was missing and has been created.
    Created,
}

/// The operation during which a fatal failure happened.
#[derive(Debug, Clone, Copy, PartialEq, Eq, Structural)]
pub enum Operation {
    Fetch,
    Create,
    Watch,
}

/// The resource an operation was about.
#[derive(Debug, Clone, PartialEq, Eq)]
pub enum Target {
    /// The namespace with this name.
    Namespace { name: String },
    /// The workload that belongs to this node.
    Workload { node: String },
    /// The nodes that match this label selector.
    Nodes { selector: String },
}

/// Mathematical value of a [`Target`].
pub enum TargetView {
    Namespace { name: Seq<char> },
    Workload { node: Seq<char> },
    Nodes { selector: Seq<char> },
}

impl View for Target {
    type V = TargetView;

    open spec fn view(&self) -> TargetView {
        match self {
            Target::Namespace { name } => TargetView::Namespace { name: name@ },
            Target::Workload { node } => TargetView::Workload { node: node@ },
            Target::Nodes { selector } => TargetView::Nodes { selector: selector@ },
        }
    }
}

/// A failure nothing recovers from, with the operation and the resource it
/// struck.
#[derive(Debug, Clone, PartialEq, Eq)]
pub struct ReconcileError {
    pub operation: Operation,
    pub target: Target,
    pub failure: Failure,
}

/// Mathematical value of a [`ReconcileError`].
pub struct ReconcileErrorView {
    pub operation: Operation,
    pub target: TargetView,
    pub failure: FailureView,
}

impl View for ReconcileError {
    type V = ReconcileErrorView;

    open spec fn view(&self) -> ReconcileErrorView {
        ReconcileErrorView {
            operation: self.operation,
            target: self.target@,
            failure: self.failure@,
        }
    }
}

/// What follows from a reply.
#[derive(Debug, Clone, PartialEq, Eq)]
pub enum Progress {
    /// Go on with the call of this phase.
    Next(Phase),
    /// The resource exists; the reconciliation is over.
    Done(Outcome),
    /// The reconciliation is over and has failed.
    Failed(ReconcileError),
}

/// Mathematical value of a [`Progress`].
pub enum ProgressView {
    Next(Phase),
    Done(Outcome),
    Failed(ReconcileErrorView),
}

impl View for Progress {
    type V = ProgressView;

    open spec fn view(&self) -> ProgressView {
        match self {
            Progress::Next(phase) => ProgressView::Next(*phase),
            Progress::Done(outcome) => ProgressView::Done(*outcome),
            Progress::Failed(error) => ProgressView::Failed(error@),
        }
    }
}

/// The decision table of a reconciliation.
///
/// A fetch that succeeds ends it with nothing done.  A fetch that fails
/// because the resource is missing leads to the create; any other failed
/// fetch is fatal.  A create that succeeds ends it; a create that fails is
/// fatal whatever the reason, a conflict included.
pub open spec fn decide(target: TargetView, phase: Phase, reply: ReplyView) -> ProgressView {
    match (phase, reply) {
        (Phase::Fetching, ReplyView::Done) => ProgressView::Done(Outcome::AlreadyExists),
        (Phase::Fetching, ReplyView::Failed(failure)) => if failure.kind()
            == ErrorKind::NotFound {
            ProgressView::Next(Phase::Creating)
        } else {
            ProgressView::Failed(
                ReconcileErrorView { operation: Operation::Fetch, target, failure },
            )
        },
        (Phase::Creating, ReplyView::Done) => ProgressView::Done(Outcome::Created),
        (Phase::Creating, ReplyView::Failed(failure)) => ProgressView::Failed(
            ReconcileErrorView { operation: Operation::Create, target, failure },
        ),
    }
}

/// The call a phase of the namespace reconciliation stands for.
pub open spec fn namespace_request_of(name: Seq<char>, phase: Phase) -> RequestView {
    match phase {
        Phase::Fetching => RequestView::GetNamespace { name },
        Phase::Creating => RequestView::CreateNamespace { record: desired_namespace_of(name) },
    }
}

/// The call a phase of the reconciliation of `node` stands for.  The
/// workload lives in the controller's namespace under its derived name.
pub open spec fn workload_request_of(node: Seq<char>, phase: Phase) -> RequestView {
    match phase {
        Phase::Fetching => RequestView::GetWorkload {
            namespace: OLLAMA_OPERATOR_NAMESPACE@,
            name: workload_name_of(node),
        },
        Phase::Creating => RequestView::CreateWorkload {
            namespace: OLLAMA_OPERATOR_NAMESPACE@,
            workload: desired_workload_of(node),
        },
    }
}

fn decide_next(target: Target, phase: Phase, reply: Reply) -> (progress: Progress)
    ensures
        progress@ == decide(target@, phase, reply@),
{
    match reply {
        Reply::Done => match phase {
            Phase::Fetching => Progress::Done(Outcome::AlreadyExists),
            Phase::Creating => Progress::Done(Outcome::Created),
        },
        Reply::Failed(failure) => match phase {
            Phase::Fetching => {
                if failure.kind() == ErrorKind::NotFound {
                    Progress::Next(Phase::Creating)
                } else {
                    Progress::Failed(
                        ReconcileError { operation: Operation::Fetch, target, failure },
                    )
                }
            },
            Phase::Creating => Progress::Failed(
                ReconcileError { operation: Operation::Create, target, failure },
            ),
        },
    }
}

/// Builds the call that `phase` of the namespace reconciliation waits for.
pub fn namespace_request(name: &str, phase: Phase) -> (request: Request)
    ensures
        request@ == namespace_request_of(name@, phase),
{
    match phase {
        Phase::Fetching => Request::GetNamespace { name: String::from_str(name) },
        Phase::Creating => Request::CreateNamespace { record: desired_namespace(name) },
    }
}

/// Decides how the reconciliation of the namespace `name` goes on after
/// `reply` answered the call of `phase`.
pub fn ensure_namespace(name: &str, phase: Phase, reply: Reply) -> (progress: Progress)
    ensures
        progress@ == decide(TargetView::Namespace { name: name@ }, phase, reply@),
{
    decide_next(Target::Namespace { name: String::from_str(name) }, phase, reply)
}

/// Builds the call that `phase` of the reconciliation of `node_name` waits
/// for.
pub fn workload_request(node_name: &str, phase: Phase) -> (request: Request)
    ensures
        request@ == workload_request_of(node_name@, phase),
{
    match phase {
        Phase::Fetching => Request::GetWorkload {
            namespace: String::from_str(OLLAMA_OPERATOR_NAMESPACE),
            name: workload_name(node_name),
        },
        Phase::Creating => Request::CreateWorkload {
            namespace: String::from_str(OLLAMA_OPERATOR_NAMESPACE),
            workload: desired_workload(node_name),
        },
    }
}

/// Decides how the reconciliation of the workload on `node_name` goes on
/// after `reply` answered the call of `phase`.
pub fn ensure_ollama_on_node(node_name: &str, phase: Phase, reply: Reply) -> (progress: Progress)
    ensures
        progress@ == decide(TargetView::Workload { node: node_name@ }, phase, reply@),
{
    decide_next(Target::Workload { node: String::from_str(node_name) }, phase, reply)
}

} // verus!
