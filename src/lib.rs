//! The pod-lifecycle engine of a node agent: each pod assigned to the node runs
//! its own state machine through an ordered set of phases until it ends.
//!
//! - `status`: the status records that phases report.
//! - `pod`: the per-pod data that phases fill in.
//! - `phase`: the phase types, the `TransitionTo` markers that declare the
//!   lifecycle graph, and `Transition`, which can only be built along a marker.
//! - `steps`: what each phase decides from the outcome of its outside work.
//! - `machine`: one pod's state machine, driven step by step.
//! - `shared`: provider-wide resources behind a reader/writer lock.

pub mod machine;
pub mod phase;
pub mod pod;
pub mod shared;
pub mod status;
pub mod steps;
