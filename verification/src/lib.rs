//! Reachability probing: job planning, attempt classification, per-job
//! summaries, report assembly, and the delivery / durable-queue rules.
//!
//! Network and file access are left to the caller; everything here works on
//! plain values and states exactly what it returns.

pub mod config;
pub mod json;
pub mod model;
pub mod plan;
pub mod probes;
pub mod queue;
pub mod reporting;
pub mod schedule;
pub mod text;

pub use plan::run_plan;
