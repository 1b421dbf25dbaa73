//! The control loop as a state machine: from the state and what just
//! happened to the next state and what to do next.
//!
//! The namespace is ensured first.  Then the controller takes nodes from the
//! event stream one at a time and reconciles each to the end before it asks
//! for the next.  A driver runs the loop: it performs the action of a step,
//! and hands the outcome back as an event.

use vstd::prelude::*;
use vstd::string::*;
use crate::access::{Reply, ReplyView, Request, RequestView};
use crate::consts::{OLLAMA_NODE_SELECTOR, OLLAMA_OPERATOR_NAMESPACE};
use crate::failure::{ErrorKind, Failure, FailureView};
use crate::reconcile::{
    decide, ensure_namespace, ensure_ollama_on_node, namespace_request, namespace_request_of,
    workload_request, workload_request_of, Operation, Outcome, Phase, Progress, ProgressView,
    ReconcileError, ReconcileErrorView, Target, TargetView,
};

verus! {

/// What the controller is busy with.
#[derive(Debug, Clone, PartialEq, Eq)]
pub enum Controller {
    /// Making sure the namespace exists, before anything else.
    EnsuringNamespace { phase: Phase },
    /// Waiting for the stream to deliver the next node.
    Watching,
    /// Making sure the workload of `node` exists.
    Reconciling { node: String, phase: Phase },
}

/// Mathematical value of a [`Controller`].
pub enum ControllerView {
    EnsuringNamespace { phase: Phase },
    Watching,
    Reconciling { node: Seq<char>, phase: Phase },
}

impl View for Controller {
    type V = ControllerView;

    open spec fn view(&self) -> ControllerView {
        match self {
            Controller::EnsuringNamespace { phase } => ControllerView::EnsuringNamespace {
                phase: *phase,
            },
            Controller::Watching => ControllerView::Watching,
            Controller::Reconciling { node, phase } => ControllerView::Reconciling {
                node: node@,
                phase: *phase,
            },
        }
    }
}

/// What the driver observed when it did what the controller asked for.
#[derive(Debug, Clone, PartialEq, Eq)]
pub enum Event {
    /// The call on the cluster API came back.
    Reply(Reply),
    /// The stream delivered a node that matches the selector.
    Node(String),
    /// The stream is closed; no node will follow.
    StreamEnded,
    /// The stream reported a failure.
    StreamFailed(Failure),
}

/// Mathematical value of an [`Event`].
pub enum EventView {
    Reply(ReplyView),
    Node(Seq<char>),
    StreamEnded,
    StreamFailed(FailureView),
}

impl View for Event {
    type V = EventView;

    open spec fn view(&self) -> EventView {
        match self {
            Event::Reply(reply) => EventView::Reply(reply@),
            Event::Node(node) => EventView::Node(node@),
            Event::StreamEnded => EventView::StreamEnded,
            Event::StreamFailed(failure) => EventView::StreamFailed(failure@),
        }
    }
}

/// What the controller asks the driver to do.
#[derive(Debug, Clone, PartialEq, Eq)]
pub enum Action {
    /// Make this call on the cluster API and come back with its reply.
    Call(Request),
    /// Take the next node from the stream of nodes that match `selector`.
    NextNode { selector: String },
}

/// Mathematical value of an [`Action`].
pub enum ActionView {
    Call(RequestView),
    NextNode { selector: Seq<char> },
}

impl View for Action {
    type V = ActionView;

    open spec fn view(&self) -> ActionView {
        match self {
            Action::Call(request) => ActionView::Call(request@),
            Action::NextNode { selector } => ActionView::NextNode { selector: selector@ },
        }
    }
}

/// A reconciliation that has just ended well: the resource and how it was
/// left.  Every decision point yields one, for the log.
#[derive(Debug, Clone, PartialEq, Eq)]
pub struct Report {
    pub target: Target,
    pub outcome: Outcome,
}

/// Mathematical value of a [`Report`].
pub struct ReportView {
    pub target: TargetView,
    pub outcome: Outcome,
}

impl View for Report {
    type V = ReportView;

    open spec fn view(&self) -> ReportView {
        ReportView { target: self.target@, outcome: self.outcome }
    }
}

/// The result of one step of the controller.
#[derive(Debug, Clone, PartialEq, Eq)]
pub enum Step {
    /// The controller goes on in `state` and asks for `action`.
    Continue { state: Controller, report: Option<Report>, action: Action },
    /// The stream is closed; the process may leave in peace.
    Finished,
    /// A fatal failure; the process must stop and report it.
    Failed { error: ReconcileError },
}

/// Mathematical value of a [`Step`].
pub enum StepView {
    Continue { state: ControllerView, report: Option<ReportView>, action: ActionView },
    Finished,
    Failed { error: ReconcileErrorView },
}

impl View for Step {
    type V = StepView;

    open spec fn view(&self) -> StepView {
        match self {
            Step::Continue { state, report, action } => StepView::Continue {
                state: state@,
                report: match report {
                    Some(r) => Some(r@),
                    None => None,
                },
                action: action@,
            },
            Step::Finished => StepView::Finished,
            Step::Failed { error } => StepView::Failed { error: error@ },
        }
    }
}

/// The state in which the controller starts.
pub open spec fn initial_state() -> ControllerView {
    ControllerView::EnsuringNamespace { phase: Phase::Fetching }
}

/// The action a state waits for.  It depends on the state alone.
pub open spec fn pending_action(state: ControllerView) -> ActionView {
    match state {
        ControllerView::EnsuringNamespace { phase } => ActionView::Call(
            namespace_request_of(OLLAMA_OPERATOR_NAMESPACE@, phase),
        ),
        ControllerView::Watching => ActionView::NextNode { selector: OLLAMA_NODE_SELECTOR@ },
        ControllerView::Reconciling { node, phase } => ActionView::Call(
            workload_request_of(node, phase),
        ),
    }
}

/// The step that goes on in `state`.
pub open spec fn go_on(state: ControllerView, report: Option<ReportView>) -> StepView {
    StepView::Continue { state, report, action: pending_action(state) }
}

/// The step that follows a decision on the reconciliation of `target`.  If
/// the reconciliation goes on, `next` says in which state.
pub open spec fn after_progress(
    target: TargetView,
    progress: ProgressView,
    next: spec_fn(Phase) -> ControllerView,
) -> StepView {
    match progress {
        ProgressView::Next(phase) => go_on(next(phase), None),
        ProgressView::Done(outcome) => go_on(
            ControllerView::Watching,
            Some(ReportView { target, outcome }),
        ),
        ProgressView::Failed(error) => StepView::Failed { error },
    }
}

/// The transition relation of the controller.
///
/// A reply is handed to the reconciliation under way; when that ends well
/// the controller turns to the stream, and when it fails the controller
/// stops.  A node from the stream starts its reconciliation.  A closed
/// stream ends the run.  A failure of the stream is passed over when it is
/// transient, in which case the controller asks the stream again, and is
/// fatal otherwise.  An event that does not answer the pending action
/// changes nothing: the controller asks for the same action again.
pub open spec fn advance(state: ControllerView, event: EventView) -> StepView {
    match (state, event) {
        (ControllerView::EnsuringNamespace { phase }, EventView::Reply(reply)) => {
            let target = TargetView::Namespace { name: OLLAMA_OPERATOR_NAMESPACE@ };
            after_progress(
                target,
                decide(target, phase, reply),
                |p: Phase| ControllerView::EnsuringNamespace { phase: p },
            )
        },
        (ControllerView::Reconciling { node, phase }, EventView::Reply(reply)) => {
            let target = TargetView::Workload { node };
            after_progress(
                target,
                decide(target, phase, reply),
                |p: Phase| ControllerView::Reconciling { node, phase: p },
            )
        },
        (ControllerView::Watching, EventView::Node(node)) => go_on(
            ControllerView::Reconciling { node, phase: Phase::Fetching },
            None,
        ),
        (ControllerView::Watching, EventView::StreamEnded) => StepView::Finished,
        (ControllerView::Watching, EventView::StreamFailed(failure)) => if failure.kind()
            == ErrorKind::Transient {
            go_on(ControllerView::Watching, None)
        } else {
            StepView::Failed {
                error: ReconcileErrorView {
                    operation: Operation::Watch,
                    target: TargetView::Nodes { selector: OLLAMA_NODE_SELECTOR@ },
                    failure,
                },
            }
        },
        _ => go_on(state, None),
    }
}

fn action_of(state: &Controller) -> (action: Action)
    ensures
        action@ == pending_action(state@),
{
    match state {
        Controller::EnsuringNamespace { phase } => Action::Call(
            namespace_request(OLLAMA_OPERATOR_NAMESPACE, *phase),
        ),
        Controller::Watching => Action::NextNode {
            selector: String::from_str(OLLAMA_NODE_SELECTOR),
        },
        Controller::Reconciling { node, phase } => Action::Call(
            workload_request(node.as_str(), *phase),
        ),
    }
}

fn continue_in(state: Controller, report: Option<Report>) -> (step: Step)
    ensures
        step@ == go_on(
            state@,
            match report {
                Some(r) => Some(r@),
                None => None,
            },
        ),
{
    let action = action_of(&state);
    Step::Continue { state, report, action }
}

/// The first step: the controller starts by looking the namespace up.
pub fn start() -> (step: Step)
    ensures
        step@ == go_on(initial_state(), None),
{
    continue_in(Controller::EnsuringNamespace { phase: Phase::Fetching }, None)
}

/// One step of the control loop: takes the state the controller was in and
/// the event that came back, and says how it goes on.
pub fn step(state: Controller, event: Event) -> (next: Step)
    ensures
        next@ == advance(state@, event@),
{
    match state {
        Controller::EnsuringNamespace { phase } => match event {
            Event::Reply(reply) => {
                match ensure_namespace(OLLAMA_OPERATOR_NAMESPACE, phase, reply) {
                    Progress::Next(p) => continue_in(
                        Controller::EnsuringNamespace { phase: p },
                        None,
                    ),
                    Progress::Done(outcome) => continue_in(
                        Controller::Watching,
                        Some(
                            Report {
                                target: Target::Namespace {
                                    name: String::from_str(OLLAMA_OPERATOR_NAMESPACE),
                                },
                                outcome,
                            },
                        ),
                    ),
                    Progress::Failed(error) => Step::Failed { error },
                }
            },
            _ => continue_in(Controller::EnsuringNamespace { phase }, None),
        },
        Controller::Reconciling { node, phase } => match event {
            Event::Reply(reply) => {
                match ensure_ollama_on_node(node.as_str(), phase, reply) {
                    Progress::Next(p) => continue_in(
                        Controller::Reconciling { node, phase: p },
                        None,
                    ),
                    Progress::Done(outcome) => continue_in(
                        Controller::Watching,
                        Some(Report { target: Target::Workload { node }, outcome }),
                    ),
                    Progress::Failed(error) => Step::Failed { error },
                }
            },
            _ => continue_in(Controller::Reconciling { node, phase }, None),
        },
        Controller::Watching => match event {
            Event::Node(node) => continue_in(
                Controller::Reconciling { node, phase: Phase::Fetching },
                None,
            ),
            Event::StreamEnded => Step::Finished,
            Event::StreamFailed(failure) => {
                if failure.kind() == ErrorKind::Transient {
                    continue_in(Controller::Watching, None)
                } else {
                    Step::Failed {
                        error: ReconcileError {
                            operation: Operation::Watch,
                            target: Target::Nodes {
                                selector: String::from_str(OLLAMA_NODE_SELECTOR),
                            },
                            failure,
                        },
                    }
                }
            },
            Event::Reply(_) => continue_in(Controller::Watching, None),
        },
    }
}

} // verus!
