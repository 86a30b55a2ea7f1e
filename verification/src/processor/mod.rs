//! Event processing: tasks, discovery, review, SLA and reports.
pub mod audit_pipeline;
pub mod classifier;
pub mod due_date;
pub mod error;
pub mod event;
pub mod extraction;
pub mod paths;
pub mod persist;
pub mod pipeline;
pub mod record;
pub mod review;
pub mod review_rules;
pub mod reviewer;
pub mod sla;
pub mod report;
pub mod task;
