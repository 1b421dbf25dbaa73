use ollama_operator::access::{Reply, Request};
use ollama_operator::failure::{Cause, Failure};
use ollama_operator::reconcile::{
    ensure_namespace, ensure_ollama_on_node, namespace_request, workload_request, Operation,
    Outcome, Phase, Progress, ReconcileError, Target,
};
use ollama_operator::record::{desired_workload, NamespaceRecord};

fn failed(cause: Cause, detail: &str) -> Failure {
    Failure { cause, detail: detail.to_string() }
}

#[test]
fn namespace_fetch_request_names_the_namespace() {
    assert_eq!(
        namespace_request("ollama-operator", Phase::Fetching),
        Request::GetNamespace { name: "ollama-operator".to_string() }
    );
}

#[test]
fn namespace_create_request_holds_a_record_with_only_the_name() {
    assert_eq!(
        namespace_request("ollama-operator", Phase::Creating),
        Request::CreateNamespace {
            record: NamespaceRecord { name: "ollama-operator".to_string() }
        }
    );
}

#[test]
fn workload_fetch_request_uses_namespace_and_derived_name() {
    assert_eq!(
        workload_request("node-1", Phase::Fetching),
        Request::GetWorkload {
            namespace: "ollama-operator".to_string(),
            name: "ollama-node-1".to_string(),
        }
    );
}

#[test]
fn workload_create_request_holds_the_desired_record() {
    assert_eq!(
        workload_request("node-1", Phase::Creating),
        Request::CreateWorkload {
            namespace: "ollama-operator".to_string(),
            workload: desired_workload("node-1"),
        }
    );
}

#[test]
fn only_creates_write() {
    assert!(!namespace_request("n", Phase::Fetching).is_create());
    assert!(namespace_request("n", Phase::Creating).is_create());
    assert!(!workload_request("n", Phase::Fetching).is_create());
    assert!(workload_request("n", Phase::Creating).is_create());
}

#[test]
fn namespace_found_is_a_no_op() {
    assert_eq!(
        ensure_namespace("ollama-operator", Phase::Fetching, Reply::Done),
        Progress::Done(Outcome::AlreadyExists)
    );
}

#[test]
fn namespace_missing_leads_to_create() {
    let reply = Reply::Failed(failed(Cause::Status(404), "namespaces not found"));
    assert_eq!(
        ensure_namespace("ollama-operator", Phase::Fetching, reply),
        Progress::Next(Phase::Creating)
    );
}

#[test]
fn namespace_created_is_reported() {
    assert_eq!(
        ensure_namespace("ollama-operator", Phase::Creating, Reply::Done),
        Progress::Done(Outcome::Created)
    );
}

#[test]
fn namespace_fetch_failure_other_than_missing_is_fatal() {
    for cause in [
        Cause::Status(403),
        Cause::Status(409),
        Cause::Status(429),
        Cause::Status(500),
        Cause::Status(503),
        Cause::Transport,
        Cause::Client,
    ] {
        let failure = failed(cause, "refused");
        assert_eq!(
            ensure_namespace("ollama-operator", Phase::Fetching, Reply::Failed(failure.clone())),
            Progress::Failed(ReconcileError {
                operation: Operation::Fetch,
                target: Target::Namespace { name: "ollama-operator".to_string() },
                failure,
            })
        );
    }
}

#[test]
fn namespace_create_failure_is_fatal_whatever_the_cause() {
    for cause in [
        Cause::Status(404),
        Cause::Status(409),
        Cause::Status(403),
        Cause::Status(503),
        Cause::Transport,
        Cause::Client,
    ] {
        let failure = failed(cause, "no");
        assert_eq!(
            ensure_namespace("ollama-operator", Phase::Creating, Reply::Failed(failure.clone())),
            Progress::Failed(ReconcileError {
                operation: Operation::Create,
                target: Target::Namespace { name: "ollama-operator".to_string() },
                failure,
            })
        );
    }
}

#[test]
fn workload_found_is_a_no_op() {
    assert_eq!(
        ensure_ollama_on_node("node-1", Phase::Fetching, Reply::Done),
        Progress::Done(Outcome::AlreadyExists)
    );
}

#[test]
fn workload_missing_leads_to_create() {
    let reply = Reply::Failed(failed(Cause::Status(404), "pods \"ollama-node-1\" not found"));
    assert_eq!(
        ensure_ollama_on_node("node-1", Phase::Fetching, reply),
        Progress::Next(Phase::Creating)
    );
}

#[test]
fn workload_created_is_reported() {
    assert_eq!(
        ensure_ollama_on_node("node-1", Phase::Creating, Reply::Done),
        Progress::Done(Outcome::Created)
    );
}

#[test]
fn workload_fetch_failure_other_than_missing_is_fatal() {
    for cause in [Cause::Status(401), Cause::Status(500), Cause::Transport, Cause::Client] {
        let failure = failed(cause, "boom");
        assert_eq!(
            ensure_ollama_on_node("node-1", Phase::Fetching, Reply::Failed(failure.clone())),
            Progress::Failed(ReconcileError {
                operation: Operation::Fetch,
                target: Target::Workload { node: "node-1".to_string() },
                failure,
            })
        );
    }
}

#[test]
fn workload_create_conflict_is_fatal() {
    let failure = failed(Cause::Status(409), "pods \"ollama-node-1\" already exists");
    assert_eq!(
        ensure_ollama_on_node("node-1", Phase::Creating, Reply::Failed(failure.clone())),
        Progress::Failed(ReconcileError {
            operation: Operation::Create,
            target: Target::Workload { node: "node-1".to_string() },
            failure,
        })
    );
}

#[test]
fn workload_create_failure_is_fatal_even_when_not_found() {
    let failure = failed(Cause::Status(404), "namespaces \"ollama-operator\" not found");
    assert_eq!(
        ensure_ollama_on_node("node-1", Phase::Creating, Reply::Failed(failure.clone())),
        Progress::Failed(ReconcileError {
            operation: Operation::Create,
            target: Target::Workload { node: "node-1".to_string() },
            failure,
        })
    );
}

#[test]
fn failure_detail_reaches_the_error_unchanged() {
    let failure = failed(Cause::Status(403), "nodes is forbidden: User \"x\" cannot get");
    match ensure_ollama_on_node("node-1", Phase::Fetching, Reply::Failed(failure)) {
        Progress::Failed(error) => {
            assert_eq!(error.failure.detail, "nodes is forbidden: User \"x\" cannot get");
            assert_eq!(error.failure.cause, Cause::Status(403));
        }
        other => panic!("expected a failure, got {:?}", other),
    }
}
