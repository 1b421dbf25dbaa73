use ollama_operator::access::{Reply, Request};
use ollama_operator::controller::{start, step, Action, Controller, Event, Report, Step};
use ollama_operator::failure::{Cause, Failure};
use ollama_operator::reconcile::{Operation, Outcome, Phase, ReconcileError, Target};
use ollama_operator::record::{desired_workload, NamespaceRecord};

fn failed(cause: Cause, detail: &str) -> Failure {
    Failure { cause, detail: detail.to_string() }
}

fn not_found() -> Event {
    Event::Reply(Reply::Failed(failed(Cause::Status(404), "not found")))
}

fn next_node() -> Action {
    Action::NextNode { selector: "workload=ollama".to_string() }
}

fn get_namespace() -> Action {
    Action::Call(Request::GetNamespace { name: "ollama-operator".to_string() })
}

fn create_namespace() -> Action {
    Action::Call(Request::CreateNamespace {
        record: NamespaceRecord { name: "ollama-operator".to_string() },
    })
}

fn get_workload(node: &str) -> Action {
    Action::Call(Request::GetWorkload {
        namespace: "ollama-operator".to_string(),
        name: format!("ollama-{}", node),
    })
}

fn create_workload(node: &str) -> Action {
    Action::Call(Request::CreateWorkload {
        namespace: "ollama-operator".to_string(),
        workload: desired_workload(node),
    })
}

fn reconciling(node: &str, phase: Phase) -> Controller {
    Controller::Reconciling { node: node.to_string(), phase }
}

#[test]
fn the_controller_starts_by_fetching_the_namespace() {
    assert_eq!(
        start(),
        Step::Continue {
            state: Controller::EnsuringNamespace { phase: Phase::Fetching },
            report: None,
            action: get_namespace(),
        }
    );
}

#[test]
fn namespace_found_turns_to_the_stream() {
    assert_eq!(
        step(Controller::EnsuringNamespace { phase: Phase::Fetching }, Event::Reply(Reply::Done)),
        Step::Continue {
            state: Controller::Watching,
            report: Some(Report {
                target: Target::Namespace { name: "ollama-operator".to_string() },
                outcome: Outcome::AlreadyExists,
            }),
            action: next_node(),
        }
    );
}

#[test]
fn namespace_missing_asks_for_its_creation() {
    assert_eq!(
        step(Controller::EnsuringNamespace { phase: Phase::Fetching }, not_found()),
        Step::Continue {
            state: Controller::EnsuringNamespace { phase: Phase::Creating },
            report: None,
            action: create_namespace(),
        }
    );
}

#[test]
fn namespace_created_turns_to_the_stream() {
    assert_eq!(
        step(Controller::EnsuringNamespace { phase: Phase::Creating }, Event::Reply(Reply::Done)),
        Step::Continue {
            state: Controller::Watching,
            report: Some(Report {
                target: Target::Namespace { name: "ollama-operator".to_string() },
                outcome: Outcome::Created,
            }),
            action: next_node(),
        }
    );
}

#[test]
fn namespace_fetch_failure_stops_the_controller_before_any_watch() {
    let failure = failed(Cause::Status(403), "forbidden");
    assert_eq!(
        step(
            Controller::EnsuringNamespace { phase: Phase::Fetching },
            Event::Reply(Reply::Failed(failure.clone()))
        ),
        Step::Failed {
            error: ReconcileError {
                operation: Operation::Fetch,
                target: Target::Namespace { name: "ollama-operator".to_string() },
                failure,
            }
        }
    );
}

#[test]
fn namespace_transport_failure_is_fatal_at_startup() {
    let failure = failed(Cause::Transport, "connection refused");
    assert_eq!(
        step(
            Controller::EnsuringNamespace { phase: Phase::Fetching },
            Event::Reply(Reply::Failed(failure.clone()))
        ),
        Step::Failed {
            error: ReconcileError {
                operation: Operation::Fetch,
                target: Target::Namespace { name: "ollama-operator".to_string() },
                failure,
            }
        }
    );
}

#[test]
fn namespace_create_failure_stops_the_controller() {
    let failure = failed(Cause::Status(409), "already exists");
    assert_eq!(
        step(
            Controller::EnsuringNamespace { phase: Phase::Creating },
            Event::Reply(Reply::Failed(failure.clone()))
        ),
        Step::Failed {
            error: ReconcileError {
                operation: Operation::Create,
                target: Target::Namespace { name: "ollama-operator".to_string() },
                failure,
            }
        }
    );
}

#[test]
fn a_delivered_node_starts_its_reconciliation() {
    assert_eq!(
        step(Controller::Watching, Event::Node("node-1".to_string())),
        Step::Continue {
            state: reconciling("node-1", Phase::Fetching),
            report: None,
            action: get_workload("node-1"),
        }
    );
}

#[test]
fn workload_found_goes_back_to_the_stream() {
    assert_eq!(
        step(reconciling("node-1", Phase::Fetching), Event::Reply(Reply::Done)),
        Step::Continue {
            state: Controller::Watching,
            report: Some(Report {
                target: Target::Workload { node: "node-1".to_string() },
                outcome: Outcome::AlreadyExists,
            }),
            action: next_node(),
        }
    );
}

#[test]
fn workload_missing_asks_for_its_creation() {
    assert_eq!(
        step(reconciling("node-1", Phase::Fetching), not_found()),
        Step::Continue {
            state: reconciling("node-1", Phase::Creating),
            report: None,
            action: create_workload("node-1"),
        }
    );
}

#[test]
fn workload_created_goes_back_to_the_stream() {
    assert_eq!(
        step(reconciling("node-1", Phase::Creating), Event::Reply(Reply::Done)),
        Step::Continue {
            state: Controller::Watching,
            report: Some(Report {
                target: Target::Workload { node: "node-1".to_string() },
                outcome: Outcome::Created,
            }),
            action: next_node(),
        }
    );
}

#[test]
fn workload_fetch_failure_stops_the_controller() {
    let failure = failed(Cause::Status(500), "internal error");
    assert_eq!(
        step(reconciling("node-1", Phase::Fetching), Event::Reply(Reply::Failed(failure.clone()))),
        Step::Failed {
            error: ReconcileError {
                operation: Operation::Fetch,
                target: Target::Workload { node: "node-1".to_string() },
                failure,
            }
        }
    );
}

#[test]
fn workload_create_conflict_stops_the_controller() {
    let failure = failed(Cause::Status(409), "already exists");
    assert_eq!(
        step(reconciling("node-1", Phase::Creating), Event::Reply(Reply::Failed(failure.clone()))),
        Step::Failed {
            error: ReconcileError {
                operation: Operation::Create,
                target: Target::Workload { node: "node-1".to_string() },
                failure,
            }
        }
    );
}

#[test]
fn a_closed_stream_finishes_the_run() {
    assert_eq!(step(Controller::Watching, Event::StreamEnded), Step::Finished);
}

#[test]
fn a_transient_stream_failure_is_passed_over() {
    for cause in [Cause::Transport, Cause::Status(429), Cause::Status(503)] {
        assert_eq!(
            step(Controller::Watching, Event::StreamFailed(failed(cause, "try again"))),
            Step::Continue { state: Controller::Watching, report: None, action: next_node() }
        );
    }
}

#[test]
fn a_hard_stream_failure_stops_the_controller() {
    for cause in [
        Cause::Status(401),
        Cause::Status(403),
        Cause::Status(404),
        Cause::Status(409),
        Cause::Status(410),
        Cause::Status(500),
        Cause::Client,
    ] {
        let failure = failed(cause, "watch failed");
        assert_eq!(
            step(Controller::Watching, Event::StreamFailed(failure.clone())),
            Step::Failed {
                error: ReconcileError {
                    operation: Operation::Watch,
                    target: Target::Nodes { selector: "workload=ollama".to_string() },
                    failure,
                }
            }
        );
    }
}

#[test]
fn the_stream_is_always_asked_with_the_configured_selector() {
    let steps = vec![
        step(Controller::EnsuringNamespace { phase: Phase::Fetching }, Event::Reply(Reply::Done)),
        step(Controller::EnsuringNamespace { phase: Phase::Creating }, Event::Reply(Reply::Done)),
        step(reconciling("n", Phase::Fetching), Event::Reply(Reply::Done)),
        step(reconciling("n", Phase::Creating), Event::Reply(Reply::Done)),
        step(Controller::Watching, Event::StreamFailed(failed(Cause::Transport, "reset"))),
    ];
    for next in steps {
        match next {
            Step::Continue { action: Action::NextNode { selector }, .. } => {
                assert_eq!(selector, "workload=ollama");
            }
            other => panic!("expected the stream to be asked, got {:?}", other),
        }
    }
}

#[test]
fn stream_events_during_a_call_change_nothing() {
    for event in [
        Event::Node("node-2".to_string()),
        Event::StreamEnded,
        Event::StreamFailed(failed(Cause::Status(500), "x")),
    ] {
        assert_eq!(
            step(Controller::EnsuringNamespace { phase: Phase::Fetching }, event.clone()),
            Step::Continue {
                state: Controller::EnsuringNamespace { phase: Phase::Fetching },
                report: None,
                action: get_namespace(),
            }
        );
        assert_eq!(
            step(Controller::EnsuringNamespace { phase: Phase::Creating }, event.clone()),
            Step::Continue {
                state: Controller::EnsuringNamespace { phase: Phase::Creating },
                report: None,
                action: create_namespace(),
            }
        );
        assert_eq!(
            step(reconciling("node-1", Phase::Fetching), event.clone()),
            Step::Continue {
                state: reconciling("node-1", Phase::Fetching),
                report: None,
                action: get_workload("node-1"),
            }
        );
        assert_eq!(
            step(reconciling("node-1", Phase::Creating), event),
            Step::Continue {
                state: reconciling("node-1", Phase::Creating),
                report: None,
                action: create_workload("node-1"),
            }
        );
    }
}

#[test]
fn a_reply_while_watching_changes_nothing() {
    for reply in [Reply::Done, Reply::Failed(failed(Cause::Status(404), "late"))] {
        assert_eq!(
            step(Controller::Watching, Event::Reply(reply)),
            Step::Continue { state: Controller::Watching, report: None, action: next_node() }
        );
    }
}
