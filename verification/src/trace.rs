//! Runs of the whole control loop against the cluster model.
//!
//! A run starts from a cluster and a finite stream of deliveries.  The
//! controller's actions are carried out as a driver would: a call is
//! answered by the model, the next node is taken from the front of the
//! stream, and an empty stream counts as closed.  What is proved here holds
//! of every cluster and every stream.

use vstd::prelude::*;
use crate::access::RequestView;
use crate::cluster::Cluster;
use crate::consts::OLLAMA_OPERATOR_NAMESPACE;
use crate::controller::{
    advance, initial_state, pending_action, ActionView, ControllerView, EventView, StepView,
};
use crate::failure::{ErrorKind, FailureView};
use crate::reconcile::{workload_request_of, Phase};
use crate::record::{desired_workload_of, workload_name_of};

verus! {

/// What the node stream hands out.
pub enum Delivery {
    /// A node that matches the selector.
    Node(Seq<char>),
    /// A failure of the watch underneath.
    Failed(FailureView),
}

impl Delivery {
    /// The event with which a driver reports the delivery.
    pub open spec fn event(self) -> EventView {
        match self {
            Delivery::Node(node) => EventView::Node(node),
            Delivery::Failed(failure) => EventView::StreamFailed(failure),
        }
    }

    /// A failure that the controller passes over.
    pub open spec fn is_transient_failure(self) -> bool {
        self matches Delivery::Failed(failure) && failure.kind() == ErrorKind::Transient
    }
}

/// What a run did: the cluster it left, every call it made in order, and the
/// step it ended with.
pub struct Trace {
    pub cluster: Cluster,
    pub calls: Seq<RequestView>,
    pub end: StepView,
}

/// How many calls a state is away from the stream, at most.
pub open spec fn calls_ahead(state: ControllerView) -> nat {
    match state {
        ControllerView::Watching => 0,
        ControllerView::EnsuringNamespace { phase } => if phase == Phase::Fetching {
            2
        } else {
            1
        },
        ControllerView::Reconciling { phase, .. } => if phase == Phase::Fetching {
            2
        } else {
            1
        },
    }
}

/// The run of the controller from `state` against `cluster` and `stream`.
pub open spec fn drive(cluster: Cluster, state: ControllerView, stream: Seq<Delivery>) -> Trace
    decreases stream.len(), calls_ahead(state),
{
    match pending_action(state) {
        ActionView::Call(request) => {
            let answered = cluster.after(request);
            match advance(state, EventView::Reply(cluster.reply_to(request))) {
                StepView::Continue { state: next, .. } => {
                    let rest = drive(answered, next, stream);
                    Trace { cluster: rest.cluster, calls: seq![request] + rest.calls, end: rest.end }
                },
                end => Trace { cluster: answered, calls: seq![request], end },
            }
        },
        ActionView::NextNode { .. } => {
            if stream.len() == 0 {
                Trace {
                    cluster,
                    calls: Seq::empty(),
                    end: advance(state, EventView::StreamEnded),
                }
            } else {
                match advance(state, stream[0].event()) {
                    StepView::Continue { state: next, .. } => drive(
                        cluster,
                        next,
                        stream.drop_first(),
                    ),
                    end => Trace { cluster, calls: Seq::empty(), end },
                }
            }
        },
    }
}

/// The run of the controller from its start.
pub open spec fn run(cluster: Cluster, stream: Seq<Delivery>) -> Trace {
    drive(cluster, initial_state(), stream)
}

/// What a state takes for granted of the cluster: the namespace is there
/// once the controller has turned to the stream, and a create is under way
/// only for what the fetch before it found missing.
pub open spec fn fits(cluster: Cluster, state: ControllerView) -> bool {
    match state {
        ControllerView::EnsuringNamespace { phase } => phase == Phase::Creating
            ==> !cluster.has_namespace(OLLAMA_OPERATOR_NAMESPACE@),
        ControllerView::Watching => cluster.has_namespace(OLLAMA_OPERATOR_NAMESPACE@),
        ControllerView::Reconciling { node, phase } => {
            &&& cluster.has_namespace(OLLAMA_OPERATOR_NAMESPACE@)
            &&& phase == Phase::Creating ==> !cluster.has_workload(
                OLLAMA_OPERATOR_NAMESPACE@,
                workload_name_of(node),
            )
        },
    }
}

/// The cluster holds nothing under the name that the create would take.
pub open spec fn lacks(cluster: Cluster, request: RequestView) -> bool {
    match request {
        RequestView::CreateNamespace { record } => !cluster.namespaces.contains(record.name),
        RequestView::CreateWorkload { namespace, workload } => !cluster.workloads.dom().contains(
            (namespace, workload.name),
        ),
        _ => false,
    }
}

/// Everything in `before` is in `after`, unchanged.
pub open spec fn kept(before: Cluster, after: Cluster) -> bool {
    &&& before.namespaces.subset_of(after.namespaces)
    &&& before.workloads.submap_of(after.workloads)
}

/// Every workload in the cluster is the record the controller wants for the
/// node it is pinned to, and stands in the controller's namespace under the
/// name derived from that node.
pub open spec fn well_placed(cluster: Cluster) -> bool {
    forall|key: (Seq<char>, Seq<char>)| #[trigger]
        cluster.workloads.dom().contains(key) ==> {
            let node = cluster.workloads[key].node_name;
            &&& key == (OLLAMA_OPERATOR_NAMESPACE@, workload_name_of(node))
            &&& cluster.workloads[key] == desired_workload_of(node)
        }
}

/// No two workloads in the cluster are pinned to the same node.
pub open spec fn one_per_node(cluster: Cluster) -> bool {
    forall|a: (Seq<char>, Seq<char>), b: (Seq<char>, Seq<char>)|
        #[trigger] cluster.workloads.dom().contains(a) && #[trigger] cluster.workloads.dom().contains(
            b,
        ) && cluster.workloads[a].node_name == cluster.workloads[b].node_name ==> a == b
}

/// The calls about the namespace come before every other call.
pub open spec fn namespace_first(calls: Seq<RequestView>) -> bool {
    forall|i: int, j: int|
        0 <= i < j < calls.len() && calls[j].is_about_namespace() ==> calls[i].is_about_namespace()
}

/// The call is one of the two that the reconciliation of `node` makes.
pub open spec fn asked_for(request: RequestView, node: Seq<char>) -> bool {
    request == workload_request_of(node, Phase::Fetching) || request == workload_request_of(
        node,
        Phase::Creating,
    )
}

/// The delivery is a node, and the call belongs to its reconciliation.
pub open spec fn concerns(delivery: Delivery, request: RequestView) -> bool {
    delivery matches Delivery::Node(node) && asked_for(request, node)
}

/// The stream delivers a node to whose reconciliation the call belongs.
pub open spec fn served(stream: Seq<Delivery>, request: RequestView) -> bool {
    exists|k: int| 0 <= k < stream.len() && concerns(#[trigger] stream[k], request)
}

/// Every call about a workload belongs to the reconciliation of a node that
/// the stream delivers.
pub open spec fn only_delivered(calls: Seq<RequestView>, stream: Seq<Delivery>) -> bool {
    forall|i: int|
        0 <= i < calls.len() && !(#[trigger] calls[i]).is_about_namespace() ==> served(
            stream,
            calls[i],
        )
}

/// The call belongs to the reconciliation that `state` is in the middle of.
pub open spec fn in_hand(state: ControllerView, request: RequestView) -> bool {
    state matches ControllerView::Reconciling { node, .. } && asked_for(request, node)
}

/// No call that writes occurs twice.
pub open spec fn creates_once(calls: Seq<RequestView>) -> bool {
    forall|i: int, j: int|
        0 <= i < j < calls.len() && calls[i].is_create() ==> calls[i] != calls[j]
}

/// Every node in the stream has its workload in the cluster.
pub open spec fn all_placed(cluster: Cluster, stream: Seq<Delivery>) -> bool {
    forall|k: int|
        0 <= k < stream.len() ==> (#[trigger] stream[k] matches Delivery::Node(node)
            ==> cluster.has_workload(OLLAMA_OPERATOR_NAMESPACE@, workload_name_of(node)))
}

/// Every delivery is a node or a failure that the controller passes over.
pub open spec fn survivable(stream: Seq<Delivery>) -> bool {
    forall|k: int|
        0 <= k < stream.len() ==> (#[trigger] stream[k] is Node
            || stream[k].is_transient_failure())
}

proof fn lemma_kept_transitive(first: Cluster, second: Cluster, third: Cluster)
    requires
        kept(first, second),
        kept(second, third),
    ensures
        kept(first, third),
{
    assert forall|k: (Seq<char>, Seq<char>)| #[trigger]
        first.workloads.dom().contains(k) implies third.workloads.dom().contains(k)
        && first.workloads[k] == third.workloads[k] by {
        assert(second.workloads.dom().contains(k));
    }
}

proof fn lemma_drive(cluster: Cluster, state: ControllerView, stream: Seq<Delivery>)
    requires
        fits(cluster, state),
    ensures
        ({
            let trace = drive(cluster, state, stream);
            &&& kept(cluster, trace.cluster)
            &&& creates_once(trace.calls)
            &&& forall|i: int|
                0 <= i < trace.calls.len() && trace.calls[i].is_create() ==> lacks(
                    cluster,
                    #[trigger] trace.calls[i],
                )
            &&& !(trace.end is Continue)
            &&& well_placed(cluster) ==> well_placed(trace.cluster)
            &&& namespace_first(trace.calls)
            &&& !(state is EnsuringNamespace) ==> forall|i: int|
                0 <= i < trace.calls.len() ==> !(#[trigger] trace.calls[i]).is_about_namespace()
            &&& forall|i: int|
                0 <= i < trace.calls.len() && !(#[trigger] trace.calls[i]).is_about_namespace()
                    ==> in_hand(state, trace.calls[i]) || served(stream, trace.calls[i])
            &&& survivable(stream) ==> trace.end is Finished && all_placed(trace.cluster, stream)
                && trace.cluster.has_namespace(OLLAMA_OPERATOR_NAMESPACE@)
            &&& state matches ControllerView::Reconciling { node, .. } ==> (survivable(stream)
                ==> trace.cluster.has_workload(OLLAMA_OPERATOR_NAMESPACE@, workload_name_of(node)))
        }),
    decreases stream.len(), calls_ahead(state),
{
    let trace = drive(cluster, state, stream);
    match pending_action(state) {
        ActionView::Call(request) => {
            let answered = cluster.after(request);
            match advance(state, EventView::Reply(cluster.reply_to(request))) {
                StepView::Continue { state: next, .. } => {
                    assert(fits(answered, next));
                    lemma_drive(answered, next, stream);
                    let rest = drive(answered, next, stream);
                    assert(trace.calls == seq![request] + rest.calls);
                    assert(kept(cluster, answered));
                    assert forall|i: int|
                        0 <= i < trace.calls.len() && trace.calls[i].is_create() implies lacks(
                        cluster,
                        #[trigger] trace.calls[i],
                    ) by {
                        if i > 0 {
                            assert(trace.calls[i] == rest.calls[i - 1]);
                            assert(lacks(answered, rest.calls[i - 1]));
                        }
                    }
                    assert forall|i: int, j: int|
                        0 <= i < j < trace.calls.len()
                            && trace.calls[i].is_create() implies trace.calls[i]
                        != trace.calls[j] by {
                        assert(trace.calls[j] == rest.calls[j - 1]);
                        if i > 0 {
                            assert(trace.calls[i] == rest.calls[i - 1]);
                        } else {
                            assert(!lacks(answered, request));
                            if rest.calls[j - 1].is_create() {
                                assert(lacks(answered, rest.calls[j - 1]));
                            }
                        }
                    }
                    if let ControllerView::Reconciling { node, .. } = state {
                        let key = (OLLAMA_OPERATOR_NAMESPACE@, workload_name_of(node));
                        if next is Watching {
                            assert(answered.workloads.dom().contains(key));
                            assert(kept(answered, rest.cluster));
                            assert(rest.cluster.workloads.dom().contains(key));
                        }
                    }
                    lemma_kept_transitive(cluster, answered, rest.cluster);
                    assert(well_placed(cluster) ==> well_placed(answered));
                    assert forall|i: int, j: int|
                        0 <= i < j < trace.calls.len()
                            && trace.calls[j].is_about_namespace() implies trace.calls[i].is_about_namespace() by {
                        assert(trace.calls[j] == rest.calls[j - 1]);
                        if i > 0 {
                            assert(trace.calls[i] == rest.calls[i - 1]);
                        }
                    }
                    if !(state is EnsuringNamespace) {
                        assert forall|i: int| 0 <= i < trace.calls.len() implies !(
                        #[trigger] trace.calls[i]).is_about_namespace() by {
                            if i > 0 {
                                assert(trace.calls[i] == rest.calls[i - 1]);
                            }
                        }
                    }
                    assert forall|i: int|
                        0 <= i < trace.calls.len() && !(
                        #[trigger] trace.calls[i]).is_about_namespace() implies in_hand(
                        state,
                        trace.calls[i],
                    ) || served(stream, trace.calls[i]) by {
                        if i > 0 {
                            assert(trace.calls[i] == rest.calls[i - 1]);
                            assert(in_hand(next, rest.calls[i - 1]) || served(
                                stream,
                                rest.calls[i - 1],
                            ));
                        }
                    }
                },
                _ => {},
            }
        },
        ActionView::NextNode { .. } => {
            if stream.len() > 0 {
                let rest_stream = stream.drop_first();
                match advance(state, stream[0].event()) {
                    StepView::Continue { state: next, .. } => {
                        lemma_drive(cluster, next, rest_stream);
                        assert forall|i: int|
                            0 <= i < trace.calls.len() && !(
                            #[trigger] trace.calls[i]).is_about_namespace() implies served(
                            stream,
                            trace.calls[i],
                        ) by {
                            let request = trace.calls[i];
                            if in_hand(next, request) {
                                assert(concerns(stream[0], request));
                            } else {
                                let k = choose|k: int|
                                    0 <= k < rest_stream.len() && concerns(
                                        #[trigger] rest_stream[k],
                                        request,
                                    );
                                assert(rest_stream[k] == stream[k + 1]);
                                assert(concerns(stream[k + 1], request));
                            }
                        }
                        if survivable(stream) {
                            assert forall|k: int| 0 <= k < rest_stream.len() implies (
                            #[trigger] rest_stream[k] is Node
                                || rest_stream[k].is_transient_failure()) by {
                                assert(rest_stream[k] == stream[k + 1]);
                            }
                            assert forall|k: int| 0 <= k < stream.len() implies (
                            #[trigger] stream[k] matches Delivery::Node(node)
                                ==> trace.cluster.has_workload(
                                OLLAMA_OPERATOR_NAMESPACE@,
                                workload_name_of(node),
                            )) by {
                                if k > 0 {
                                    assert(stream[k] == rest_stream[k - 1]);
                                }
                            }
                        }
                    },
                    _ => {
                        if survivable(stream) {
                            assert(stream[0] is Node || stream[0].is_transient_failure());
                        }
                    },
                }
            }
        },
    }
}

/// Whatever the cluster holds and whatever the stream delivers, a run of
/// the controller issues no create twice: at most one for the namespace,
/// and at most one for the workload of any node, however often the node is
/// delivered.  And every create it issues is for something that the cluster
/// did not hold when the run began.
pub proof fn lemma_run_creates_once(cluster: Cluster, stream: Seq<Delivery>)
    ensures
        creates_once(run(cluster, stream).calls),
        forall|i: int|
            0 <= i < run(cluster, stream).calls.len() && run(cluster, stream).calls[i].is_create()
                ==> lacks(cluster, #[trigger] run(cluster, stream).calls[i]),
{
    lemma_drive(cluster, initial_state(), stream);
}

/// A run touches the workloads of the nodes that the stream delivers, and
/// of no other: every call about a workload is the fetch or the create of a
/// node that is in the stream.  A node that the stream keeps back is left
/// alone.
pub proof fn lemma_run_serves_only_delivered_nodes(cluster: Cluster, stream: Seq<Delivery>)
    ensures
        only_delivered(run(cluster, stream).calls, stream),
{
    lemma_drive(cluster, initial_state(), stream);
}

/// A run changes nothing that was there: what the cluster held before, it
/// holds after, as it was.
pub proof fn lemma_run_keeps_what_exists(cluster: Cluster, stream: Seq<Delivery>)
    ensures
        kept(cluster, run(cluster, stream).cluster),
{
    lemma_drive(cluster, initial_state(), stream);
}

/// Where the stream delivers nodes, and failures of the transient kind
/// only, the run goes through to the end of the stream, and then the
/// namespace exists and every node that was delivered has its workload.
pub proof fn lemma_run_places_every_node(cluster: Cluster, stream: Seq<Delivery>)
    requires
        survivable(stream),
    ensures
        run(cluster, stream).end is Finished,
        run(cluster, stream).cluster.has_namespace(OLLAMA_OPERATOR_NAMESPACE@),
        all_placed(run(cluster, stream).cluster, stream),
{
    lemma_drive(cluster, initial_state(), stream);
}

/// A run leaves every workload well placed if it found them so.  From the
/// empty cluster on, then, each workload is the desired record of the node
/// it is pinned to, and no node has two.
pub proof fn lemma_run_keeps_placement(cluster: Cluster, stream: Seq<Delivery>)
    requires
        well_placed(cluster),
    ensures
        well_placed(run(cluster, stream).cluster),
        one_per_node(run(cluster, stream).cluster),
{
    lemma_drive(cluster, initial_state(), stream);
}

/// The namespace is seen to before anything else: in a run every call about
/// the namespace comes before every call about a workload.
pub proof fn lemma_run_ensures_namespace_first(cluster: Cluster, stream: Seq<Delivery>)
    ensures
        namespace_first(run(cluster, stream).calls),
        run(cluster, stream).calls.len() > 0,
        run(cluster, stream).calls[0] == (RequestView::GetNamespace {
            name: OLLAMA_OPERATOR_NAMESPACE@,
        }),
{
    lemma_drive(cluster, initial_state(), stream);
}

/// A run ends only when the stream is closed or on a fatal failure; it
/// never stops half way.
pub proof fn lemma_run_ends(cluster: Cluster, stream: Seq<Delivery>)
    ensures
        !(run(cluster, stream).end is Continue),
{
    lemma_drive(cluster, initial_state(), stream);
}

/// The stream with every transient failure taken out.
pub open spec fn without_transient(stream: Seq<Delivery>) -> Seq<Delivery>
    decreases stream.len(),
{
    if stream.len() == 0 {
        stream
    } else if stream[0].is_transient_failure() {
        without_transient(stream.drop_first())
    } else {
        seq![stream[0]] + without_transient(stream.drop_first())
    }
}

proof fn lemma_drive_ignores_transient(
    cluster: Cluster,
    state: ControllerView,
    stream: Seq<Delivery>,
)
    ensures
        drive(cluster, state, stream) == drive(cluster, state, without_transient(stream)),
    decreases stream.len(), calls_ahead(state),
{
    let calm = without_transient(stream);
    match pending_action(state) {
        ActionView::Call(request) => {
            match advance(state, EventView::Reply(cluster.reply_to(request))) {
                StepView::Continue { state: next, .. } => {
                    lemma_drive_ignores_transient(cluster.after(request), next, stream);
                },
                _ => {},
            }
        },
        ActionView::NextNode { .. } => {
            if stream.len() > 0 {
                let rest = stream.drop_first();
                lemma_drive_ignores_transient(cluster, ControllerView::Watching, rest);
                if !stream[0].is_transient_failure() {
                    assert(calm[0] == stream[0]);
                    assert(calm.drop_first() =~= without_transient(rest));
                    match advance(state, stream[0].event()) {
                        StepView::Continue { state: next, .. } => {
                            lemma_drive_ignores_transient(cluster, next, rest);
                        },
                        _ => {},
                    }
                }
            }
        },
    }
}

/// Transient failures of the stream leave no trace: a run is what it is
/// with every one of them taken out of the stream.  It makes the same calls,
/// leaves the same cluster and ends the same way, wherever they fall and
/// however many there are.
pub proof fn lemma_run_ignores_transient_failures(cluster: Cluster, stream: Seq<Delivery>)
    ensures
        run(cluster, stream) == run(cluster, without_transient(stream)),
{
    lemma_drive_ignores_transient(cluster, initial_state(), stream);
}

/// Transient failures of the stream are passed over: while the controller
/// waits for a node, any number of them in a row leaves the run what it is
/// without them.  No call is made for them, and the nodes that follow are
/// reconciled as if nothing had failed.
pub proof fn lemma_transient_failures_absorbed(
    cluster: Cluster,
    failures: Seq<Delivery>,
    stream: Seq<Delivery>,
)
    requires
        forall|k: int| 0 <= k < failures.len() ==> (#[trigger] failures[k]).is_transient_failure(),
    ensures
        drive(cluster, ControllerView::Watching, failures + stream) == drive(
            cluster,
            ControllerView::Watching,
            stream,
        ),
    decreases failures.len(),
{
    if failures.len() == 0 {
        assert(failures + stream =~= stream);
    } else {
        let all = failures + stream;
        assert(all[0] == failures[0]);
        assert(failures[0].is_transient_failure());
        assert(all.drop_first() =~= failures.drop_first() + stream);
        assert forall|k: int| 0 <= k < failures.drop_first().len() implies (
        #[trigger] failures.drop_first()[k]).is_transient_failure() by {
            assert(failures.drop_first()[k] == failures[k + 1]);
        }
        lemma_transient_failures_absorbed(cluster, failures.drop_first(), stream);
    }
}

} // verus!
