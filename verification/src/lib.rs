//! Verified core of a compute-node agent for a distributed job-execution
//! platform.
//!
//! The library holds the decision logic of the agent: the staging-directory
//! layout, the plans for staging a runtime bundle and input artifacts, the
//! plans for harvesting output artifacts, the execution-backend dispatch,
//! and the lifecycle engine that drives one claim-execute-report-cleanup
//! cycle after another. All I/O (control-plane calls, transfers, archive
//! processes) is performed outside the library, which only decides what to
//! do next.

pub mod capabilities;
pub mod config;
pub mod dispatch;
pub mod engine;
pub mod harvest;
pub mod model;
pub mod properties;
pub mod staging;
pub mod status;
