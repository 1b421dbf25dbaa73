//! A model of the cluster the controller talks to, and what the
//! reconciliations achieve against it.
//!
//! Nothing here runs.  The model is a cluster that answers truthfully: a
//! fetch finds what exists, a create adds what is missing and is refused for
//! what exists.  Against it the decisions of the controller can be followed
//! call by call, and what is claimed of them is proved for every cluster.

use vstd::prelude::*;
use crate::access::{ReplyView, RequestView};
use crate::consts::OLLAMA_OPERATOR_NAMESPACE;
use crate::failure::{Cause, FailureView, STATUS_CONFLICT, STATUS_NOT_FOUND};
use crate::reconcile::{
    decide, namespace_request_of, workload_request_of, Outcome, Phase, ProgressView, TargetView,
};
use crate::record::{
    desired_workload_of, lemma_workload_name_injective, workload_name_of, WorkloadRecordView,
};

verus! {

/// The state of the cluster as far as the controller can tell: the
/// namespaces that exist, and the workloads by namespace and name.
pub struct Cluster {
    pub namespaces: Set<Seq<char>>,
    pub workloads: Map<(Seq<char>, Seq<char>), WorkloadRecordView>,
}

/// The failure with which the model answers for a missing resource.
pub open spec fn not_found() -> FailureView {
    FailureView { cause: Cause::Status(STATUS_NOT_FOUND), detail: Seq::empty() }
}

/// The failure with which the model refuses to create what exists.
pub open spec fn conflict() -> FailureView {
    FailureView { cause: Cause::Status(STATUS_CONFLICT), detail: Seq::empty() }
}

impl Cluster {
    /// The cluster with nothing in it.
    pub open spec fn empty() -> Cluster {
        Cluster { namespaces: Set::empty(), workloads: Map::empty() }
    }

    pub open spec fn has_namespace(self, name: Seq<char>) -> bool {
        self.namespaces.contains(name)
    }

    /// A workload exists under a name inside a namespace that exists.
    pub open spec fn has_workload(self, namespace: Seq<char>, name: Seq<char>) -> bool {
        self.namespaces.contains(namespace) && self.workloads.dom().contains((namespace, name))
    }

    /// Whether the model carries the call out.
    pub open spec fn accepts(self, request: RequestView) -> bool {
        match request {
            RequestView::GetNamespace { name } => self.has_namespace(name),
            RequestView::CreateNamespace { record } => !self.has_namespace(record.name),
            RequestView::GetWorkload { namespace, name } => self.has_workload(namespace, name),
            RequestView::CreateWorkload { namespace, workload } => self.has_namespace(namespace)
                && !self.has_workload(namespace, workload.name),
        }
    }

    /// The reply of the model to a call.
    ///
    /// What is asked of a thing that is missing, a namespace or a workload
    /// or the namespace to put a workload in, is answered with not-found; a
    /// create of what exists is answered with a conflict.
    pub open spec fn reply_to(self, request: RequestView) -> ReplyView {
        if self.accepts(request) {
            ReplyView::Done
        } else {
            match request {
                RequestView::CreateNamespace { .. } => ReplyView::Failed(conflict()),
                RequestView::CreateWorkload { namespace, .. } => if self.has_namespace(
                    namespace,
                ) {
                    ReplyView::Failed(conflict())
                } else {
                    ReplyView::Failed(not_found())
                },
                _ => ReplyView::Failed(not_found()),
            }
        }
    }

    /// The cluster after a call: a create that is carried out adds its
    /// record, and nothing else changes anything.
    pub open spec fn after(self, request: RequestView) -> Cluster {
        if self.accepts(request) {
            match request {
                RequestView::CreateNamespace { record } => Cluster {
                    namespaces: self.namespaces.insert(record.name),
                    workloads: self.workloads,
                },
                RequestView::CreateWorkload { namespace, workload } => Cluster {
                    namespaces: self.namespaces,
                    workloads: self.workloads.insert((namespace, workload.name), workload),
                },
                _ => self,
            }
        } else {
            self
        }
    }
}

/// The call that a phase of the reconciliation of `target` stands for.
/// Nodes are watched, not reconciled: for them it stands for nothing.
pub open spec fn request_of(target: TargetView, phase: Phase) -> RequestView
    recommends
        !(target is Nodes),
{
    match target {
        TargetView::Workload { node } => workload_request_of(node, phase),
        TargetView::Namespace { name } => namespace_request_of(name, phase),
        TargetView::Nodes { .. } => arbitrary(),
    }
}

/// One for a call that writes, zero for one that reads.
pub open spec fn creates_in(request: RequestView) -> nat {
    if request.is_create() {
        1
    } else {
        0
    }
}

/// What one reconciliation did: the cluster it left, how it ended, and how
/// many creates it issued.
pub struct Run {
    pub cluster: Cluster,
    pub end: ProgressView,
    pub creates: nat,
}

/// One reconciliation of `target` against `cluster`, from its first call to
/// its end: the fetch, and then the call that the decision on the fetch
/// names, if it names one.
pub open spec fn reconcile(cluster: Cluster, target: TargetView) -> Run
    recommends
        !(target is Nodes),
{
    let fetch = request_of(target, Phase::Fetching);
    let fetched = cluster.after(fetch);
    match decide(target, Phase::Fetching, cluster.reply_to(fetch)) {
        ProgressView::Next(phase) => {
            let call = request_of(target, phase);
            Run {
                cluster: fetched.after(call),
                end: decide(target, phase, fetched.reply_to(call)),
                creates: creates_in(fetch) + creates_in(call),
            }
        },
        end => Run { cluster: fetched, end, creates: creates_in(fetch) },
    }
}

/// What a number of reconciliations of the same target, one after the other,
/// leave behind: the cluster, and the creates issued in all of them.
pub open spec fn reconcile_times(cluster: Cluster, target: TargetView, times: nat) -> (Cluster, nat)
    recommends
        !(target is Nodes),
    decreases times,
{
    if times == 0 {
        (cluster, 0)
    } else {
        let first = reconcile(cluster, target);
        let rest = reconcile_times(first.cluster, target, (times - 1) as nat);
        (rest.0, first.creates + rest.1)
    }
}

/// Whether the resource that `target` names exists in `cluster`.
pub open spec fn exists_in(cluster: Cluster, target: TargetView) -> bool {
    match target {
        TargetView::Namespace { name } => cluster.has_namespace(name),
        TargetView::Workload { node } => cluster.has_workload(
            OLLAMA_OPERATOR_NAMESPACE@,
            workload_name_of(node),
        ),
        TargetView::Nodes { .. } => false,
    }
}

/// A reconciliation of what exists finds it, issues no create and leaves
/// the cluster as it was.
pub proof fn lemma_reconcile_existing(cluster: Cluster, target: TargetView)
    requires
        exists_in(cluster, target),
    ensures
        reconcile(cluster, target).end == ProgressView::Done(Outcome::AlreadyExists),
        reconcile(cluster, target).creates == 0,
        reconcile(cluster, target).cluster == cluster,
{
}

/// Ensuring a namespace twice in a row: where it was missing the first run
/// creates it with one create, where it was there the first run does
/// nothing; either way the second run finds it, does nothing and issues no
/// create, so that both runs together issue at most one.
pub proof fn lemma_ensure_namespace_idempotent(cluster: Cluster, name: Seq<char>)
    ensures
        ({
            let target = TargetView::Namespace { name };
            let first = reconcile(cluster, target);
            let second = reconcile(first.cluster, target);
            &&& !cluster.has_namespace(name) ==> first.end == ProgressView::Done(Outcome::Created)
                && first.creates == 1
            &&& cluster.has_namespace(name) ==> first.end == ProgressView::Done(
                Outcome::AlreadyExists,
            ) && first.creates == 0
            &&& first.cluster.has_namespace(name)
            &&& second.end == ProgressView::Done(Outcome::AlreadyExists)
            &&& second.creates == 0
            &&& second.cluster == first.cluster
        }),
{
}

/// In a cluster that has the controller's namespace, reconciling a node
/// leaves exactly the desired record under the derived name where none was,
/// and leaves what was there untouched.
pub proof fn lemma_reconcile_places_workload(cluster: Cluster, node: Seq<char>)
    requires
        cluster.has_namespace(OLLAMA_OPERATOR_NAMESPACE@),
    ensures
        ({
            let target = TargetView::Workload { node };
            let key = (OLLAMA_OPERATOR_NAMESPACE@, workload_name_of(node));
            let run = reconcile(cluster, target);
            &&& exists_in(run.cluster, target)
            &&& run.cluster.namespaces == cluster.namespaces
            &&& exists_in(cluster, target) ==> run.cluster == cluster && run.creates == 0 && run.end
                == ProgressView::Done(Outcome::AlreadyExists)
            &&& !exists_in(cluster, target) ==> run.creates == 1 && run.end == ProgressView::Done(
                Outcome::Created,
            ) && run.cluster.workloads == cluster.workloads.insert(key, desired_workload_of(node))
            &&& !exists_in(cluster, target) ==> run.cluster.workloads[key].node_name == node
        }),
{
}

/// However often a node is reconciled, if its record exists once the first
/// reconciliation is over, all the reconciliations together issue at most
/// one create.
pub proof fn lemma_at_most_one_create(cluster: Cluster, node: Seq<char>, times: nat)
    requires
        times > 0 ==> exists_in(
            reconcile(cluster, TargetView::Workload { node }).cluster,
            TargetView::Workload { node },
        ),
    ensures
        reconcile_times(cluster, TargetView::Workload { node }, times).1 <= 1,
{
    let target = TargetView::Workload { node };
    if times > 0 {
        let first = reconcile(cluster, target);
        lemma_no_create_once_present(first.cluster, target, (times - 1) as nat);
    }
}

/// Reconciling what exists, however often, issues no create and changes
/// nothing.
pub proof fn lemma_no_create_once_present(cluster: Cluster, target: TargetView, times: nat)
    requires
        exists_in(cluster, target),
    ensures
        reconcile_times(cluster, target, times) == (cluster, 0nat),
    decreases times,
{
    if times > 0 {
        lemma_reconcile_existing(cluster, target);
        lemma_no_create_once_present(cluster, target, (times - 1) as nat);
    }
}

/// The records of two different nodes never stand in each other's way: to
/// reconcile one node does not bring the record of another into being.
pub proof fn lemma_reconcile_leaves_other_nodes(cluster: Cluster, node: Seq<char>, other: Seq<char>)
    requires
        node != other,
    ensures
        exists_in(reconcile(cluster, TargetView::Workload { node }).cluster, TargetView::Workload {
            node: other,
        }) == exists_in(cluster, TargetView::Workload { node: other }),
{
    lemma_workload_name_injective(node, other);
}

} // verus!
