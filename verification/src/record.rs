//! The records the controller wants to exist in the cluster.

use vstd::prelude::*;
use vstd::string::*;
use crate::consts::OLLAMA_IMAGE_NAME;

verus! {

/// A named logical partition of the cluster.  Only its name matters here.
#[derive(Debug, Clone, PartialEq, Eq)]
pub struct NamespaceRecord {
    pub name: String,
}

/// Mathematical value of a [`NamespaceRecord`].
pub struct NamespaceRecordView {
    pub name: Seq<char>,
}

impl View for NamespaceRecord {
    type V = NamespaceRecordView;

    open spec fn view(&self) -> NamespaceRecordView {
        NamespaceRecordView { name: self.name@ }
    }
}

/// One descriptive label of a record.
#[derive(Debug, Clone, PartialEq, Eq)]
pub struct Label {
    pub key: String,
    pub value: String,
}

/// Mathematical value of a [`Label`].
pub struct LabelView {
    pub key: Seq<char>,
    pub value: Seq<char>,
}

impl View for Label {
    type V = LabelView;

    open spec fn view(&self) -> LabelView {
        LabelView { key: self.key@, value: self.value@ }
    }
}

/// The managed workload instance pinned to one node.
#[derive(Debug, Clone, PartialEq, Eq)]
pub struct WorkloadRecord {
    /// Name under which the record is looked up.
    pub name: String,
    /// Descriptive labels, in the order they are written.
    pub labels: Vec<Label>,
    /// Name of the single container.
    pub container_name: String,
    /// Image the container runs.
    pub image: String,
    /// Node the record must be scheduled onto, and no other.
    pub node_name: String,
}

/// Mathematical value of a [`WorkloadRecord`].
pub struct WorkloadRecordView {
    pub name: Seq<char>,
    pub labels: Seq<LabelView>,
    pub container_name: Seq<char>,
    pub image: Seq<char>,
    pub node_name: Seq<char>,
}

impl View for WorkloadRecord {
    type V = WorkloadRecordView;

    open spec fn view(&self) -> WorkloadRecordView {
        WorkloadRecordView {
            name: self.name@,
            labels: self.labels@.map_values(|label: Label| label@),
            container_name: self.container_name@,
            image: self.image@,
            node_name: self.node_name@,
        }
    }
}

/// Name of the workload that belongs to `node`: a fixed prefix followed by
/// the node identity.
pub open spec fn workload_name_of(node: Seq<char>) -> Seq<char> {
    "ollama-"@ + node
}

/// The namespace record with nothing but its name set.
pub open spec fn desired_namespace_of(name: Seq<char>) -> NamespaceRecordView {
    NamespaceRecordView { name }
}

/// The workload record that must exist for `node`.
pub open spec fn desired_workload_of(node: Seq<char>) -> WorkloadRecordView {
    WorkloadRecordView {
        name: workload_name_of(node),
        labels: seq![
            LabelView { key: "app"@, value: "ollama"@ },
            LabelView { key: "operator"@, value: "ollama-kubernetes-operator"@ },
            LabelView { key: "node"@, value: node },
        ],
        container_name: "ollama"@,
        image: OLLAMA_IMAGE_NAME@,
        node_name: node,
    }
}

/// Derives the name of the workload pinned to `node_name`.
pub fn workload_name(node_name: &str) -> (name: String)
    ensures
        name@ == workload_name_of(node_name@),
{
    String::from_str("ollama-").concat(node_name)
}

/// Builds the namespace record to create: only the name is populated.
pub fn desired_namespace(name: &str) -> (record: NamespaceRecord)
    ensures
        record@ == desired_namespace_of(name@),
{
    NamespaceRecord { name: String::from_str(name) }
}

/// Builds the full workload record for `node_name`: derived name, the three
/// labels, the container with the configured image, and the pin to the node.
pub fn desired_workload(node_name: &str) -> (record: WorkloadRecord)
    ensures
        record@ == desired_workload_of(node_name@),
{
    let mut labels: Vec<Label> = Vec::new();
    labels.push(Label { key: String::from_str("app"), value: String::from_str("ollama") });
    labels.push(
        Label {
            key: String::from_str("operator"),
            value: String::from_str("ollama-kubernetes-operator"),
        },
    );
    labels.push(Label { key: String::from_str("node"), value: String::from_str(node_name) });
    let record = WorkloadRecord {
        name: workload_name(node_name),
        labels,
        container_name: String::from_str("ollama"),
        image: String::from_str(OLLAMA_IMAGE_NAME),
        node_name: String::from_str(node_name),
    };
    assert(record@.labels =~= desired_workload_of(node_name@).labels);
    record
}

/// Two nodes share a workload name only if they are the same node: the
/// derived name determines the node identity it was derived from.
pub proof fn lemma_workload_name_injective(a: Seq<char>, b: Seq<char>)
    ensures
        workload_name_of(a) == workload_name_of(b) <==> a == b,
{
    let prefix = "ollama-"@;
    if workload_name_of(a) == workload_name_of(b) {
        assert((prefix + a).subrange(prefix.len() as int, (prefix + a).len() as int) =~= a);
        assert((prefix + b).subrange(prefix.len() as int, (prefix + b).len() as int) =~= b);
    }
}

} // verus!
