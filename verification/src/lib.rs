//! Decision core of a cluster controller that keeps one Ollama workload on
//! every node opted in by label, inside a dedicated namespace.
//!
//! The library decides; it performs no I/O.  A driver makes the calls the
//! library asks for and hands back what happened.
//!
//! - [`consts`]: the configured namespace, selector and image.
//! - [`failure`]: failures of calls and the kinds they fall into.
//! - [`record`]: the namespace and workload records that must exist.
//! - [`access`]: the calls asked of the cluster and the replies to them.
//! - [`reconcile`]: ensuring that one resource exists, reply by reply.
//! - [`controller`]: the control loop as a state machine.
//! - [`cluster`]: a model of the cluster, and what a reconciliation
//!   achieves against it.
//! - [`trace`]: whole runs of the control loop against the model, and what
//!   holds of every run.

pub mod access;
pub mod cluster;
pub mod consts;
pub mod controller;
pub mod failure;
pub mod reconcile;
pub mod record;
pub mod trace;
