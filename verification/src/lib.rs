//! Verified core of a job deployment engine: the classifier that maps remote
//! job-resource snapshots to a closed status enum, the pod-selection and
//! job-lifecycle state machines, the structured-output parser, and the small
//! pure decision functions around them. Remote I/O (the Kubernetes API, Helm,
//! container registries) stays outside the library; callers drive the state
//! machines and hand events back in as plain values.
use vstd::prelude::*;

pub mod database;
pub mod eks;
pub mod io_models;
pub mod karpenter;
pub mod nginx;
pub mod output;
pub mod pod;
pub mod runner;
pub mod scaleway;
pub mod service;
pub mod status;
pub mod strutil;
pub mod teardown;

verus! {

} // verus!
