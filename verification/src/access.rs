//! The vocabulary shared with the cluster accessor: the calls the controller
//! asks for and the replies it takes back.

use vstd::prelude::*;
use crate::failure::{Failure, FailureView};
use crate::record::{NamespaceRecord, NamespaceRecordView, WorkloadRecord, WorkloadRecordView};

verus! {

/// A call on the cluster API that the controller asks its driver to make.
#[derive(Debug, Clone, PartialEq, Eq)]
pub enum Request {
    /// Fetch the namespace with this name.
    GetNamespace { name: String },
    /// Create this namespace.
    CreateNamespace { record: NamespaceRecord },
    /// Fetch the workload with this name inside the namespace.
    GetWorkload { namespace: String, name: String },
    /// Create this workload inside the namespace.
    CreateWorkload { namespace: String, workload: WorkloadRecord },
}

/// Mathematical value of a [`Request`].
pub enum RequestView {
    GetNamespace { name: Seq<char> },
    CreateNamespace { record: NamespaceRecordView },
    GetWorkload { namespace: Seq<char>, name: Seq<char> },
    CreateWorkload { namespace: Seq<char>, workload: WorkloadRecordView },
}

impl View for Request {
    type V = RequestView;

    open spec fn view(&self) -> RequestView {
        match self {
            Request::GetNamespace { name } => RequestView::GetNamespace { name: name@ },
            Request::CreateNamespace { record } => RequestView::CreateNamespace { record: record@ },
            Request::GetWorkload { namespace, name } => RequestView::GetWorkload {
                namespace: namespace@,
                name: name@,
            },
            Request::CreateWorkload { namespace, workload } => RequestView::CreateWorkload {
                namespace: namespace@,
                workload: workload@,
            },
        }
    }
}

impl RequestView {
    /// Whether the call writes to the cluster.
    pub open spec fn is_create(self) -> bool {
        self is CreateNamespace || self is CreateWorkload
    }

    /// Whether the call is about a namespace rather than a workload.
    pub open spec fn is_about_namespace(self) -> bool {
        self is GetNamespace || self is CreateNamespace
    }
}

impl Request {
    /// Whether the call writes to the cluster.
    pub fn is_create(&self) -> (create: bool)
        ensures
            create == self@.is_create(),
    {
        match self {
            Request::CreateNamespace { .. } => true,
            Request::CreateWorkload { .. } => true,
            _ => false,
        }
    }
}

/// How a call on the cluster API ended.
#[derive(Debug, Clone, PartialEq, Eq)]
pub enum Reply {
    /// The call succeeded: the resource was found, or was created.
    Done,
    /// The call failed.
    Failed(Failure),
}

/// Mathematical value of a [`Reply`].
pub enum ReplyView {
    Done,
    Failed(FailureView),
}

impl View for Reply {
    type V = ReplyView;

    open spec fn view(&self) -> ReplyView {
        match self {
            Reply::Done => ReplyView::Done,
            Reply::Failed(failure) => ReplyView::Failed(failure@),
        }
    }
}

} // verus!
