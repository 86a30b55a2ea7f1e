//! Task scheduling: dependency graph, execution log, resource gate, cron.
pub mod cron;
pub mod dependency;
pub mod engine;
pub mod log;
pub mod resource;
pub mod task;
