//! Orchestration core of a hardware-diagnostics tool: choosing and staging a
//! platform-specific load generator, retrying flaky command runs, sampling
//! process snapshots and deciding how the service shuts down.

pub mod text;
pub mod platform;
pub mod sample;
pub mod command;
pub mod retry;
pub mod staging;
pub mod sampler;
pub mod supervisor;
pub mod config;
pub mod host_info;
pub mod web;
pub mod snapshot;
