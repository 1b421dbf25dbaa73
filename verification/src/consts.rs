//! Process-wide configuration of the controller.

use vstd::prelude::*;

verus! {

/// Namespace that owns every workload this controller places.
pub const OLLAMA_OPERATOR_NAMESPACE: &'static str = "ollama-operator";

/// Label selector that a node must match to receive a workload.
pub const OLLAMA_NODE_SELECTOR: &'static str = "workload=ollama";

/// Container image every placed workload runs.
pub const OLLAMA_IMAGE_NAME: &'static str = "ollama/ollama:latest";

} // verus!
