//! Library behind a cluster-visualization front-end: a model of the cluster
//! (nodes and workloads), the input-driven navigation and creation state
//! machine, a credit economy fed by miner/processor workloads, and the
//! construction of workload descriptors submitted to the control plane.
//!
//! Everything here is pure logic over plain values; fetching cluster state,
//! rendering, and submitting descriptors live in the surrounding application.

pub mod descriptor;
pub mod economy;
pub mod model;
pub mod nav;
pub mod store;
pub mod text;
