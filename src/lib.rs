//! Host telemetry sampling engine: which metric categories are sampled, how
//! provider readings become typed records, and the lifecycle of a run.

pub mod config;
pub mod records;
pub mod provider;
pub mod registry;
pub mod scheduler;
