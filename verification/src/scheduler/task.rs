//! Scheduled-task results and layers.
use vstd::prelude::*;

verus! {

/// Outcome of one task execution.
#[derive(PartialEq, Eq, Structural, Clone, Copy, Debug)]
pub enum TaskStatus {
    Success,
    Failed,
    Timeout,
    Aborted,
}

/// The result of executing a task (times in milliseconds since the epoch).
#[derive(Clone, Debug)]
pub struct TaskResult {
    pub task_id: String,
    pub task_name: String,
    pub status: TaskStatus,
    pub started_at_ms: i64,
    pub finished_at_ms: i64,
    pub duration_ms: u64,
    pub summary: String,
    pub error: Option<String>,
    pub retry_count: u32,
}

/// The architectural layer a task belongs to.
#[derive(PartialEq, Eq, Structural, Clone, Copy, Debug)]
pub enum TaskLayer {
    Collection,
    Processing,
    Storage,
    Presentation,
}

/// The name a layer is displayed with.
pub open spec fn layer_name(l: TaskLayer) -> Seq<char> {
    match l {
        TaskLayer::Collection => "Collection"@,
        TaskLayer::Processing => "Processing"@,
        TaskLayer::Storage => "Storage"@,
        TaskLayer::Presentation => "Presentation"@,
    }
}

impl TaskLayer {
    /// The layer's display name.
    pub fn to_string(&self) -> (r: String)
        ensures
            r@ == layer_name(*self),
    {
        match self {
            TaskLayer::Collection => String::from_str("Collection"),
            TaskLayer::Processing => String::from_str("Processing"),
            TaskLayer::Storage => String::from_str("Storage"),
            TaskLayer::Presentation => String::from_str("Presentation"),
        }
    }
}

/// Default SLA of a task: 5 minutes.
pub const DEFAULT_SLA_MS: u64 = 300_000;

/// Default number of retries after a failed attempt.
pub const DEFAULT_RETRY_LIMIT: u32 = 3;

} // verus!
