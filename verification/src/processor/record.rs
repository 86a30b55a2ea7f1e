//! Work records and review findings: the data the processing layer works on.
//! Confidences are held in thousandths (0 to 1000) and instants in
//! milliseconds since the Unix epoch.
use vstd::prelude::*;

verus! {

/// What a work record is about.
#[derive(PartialEq, Eq, Structural, Clone, Copy, Debug)]
pub enum Category {
    Task,
    Meeting,
    Communication,
    Research,
    Review,
    Planning,
    Document,
    Decision,
}

/// A unit of observed work, as extracted from events.
#[derive(Debug, Clone)]
pub struct WorkRecord {
    pub id: String,
    /// Creation instant, in milliseconds since the Unix epoch.
    pub created_at_ms: i64,
    pub source_event_ids: Vec<String>,
    pub title: String,
    pub summary: String,
    pub detail: String,
    pub category: Category,
    pub project: Option<String>,
    pub people: Vec<String>,
    pub tags: Vec<String>,
    pub task_status: Option<String>,
    /// The task's due instant, in milliseconds since the Unix epoch.
    pub task_due_ms: Option<i64>,
    /// The task's priority name (`P0` to `P3`), when one was found.
    pub task_priority: Option<String>,
    pub task_progress: Option<String>,
    pub model_used: String,
    /// The extraction's confidence, in thousandths.
    pub confidence_permille: u32,
    pub needs_review: bool,
    pub obsidian_path: String,
}

/// A problem a review found.
#[derive(Debug, Clone)]
pub struct Issue {
    pub issue_type: String,
    pub severity: String,
    pub description: String,
    pub suggestion: String,
}

/// A review's verdict.
#[derive(Debug, Clone, PartialEq, Eq)]
pub enum ReviewVerdict {
    Approved,
    /// Needs a human look; carries the reasons.
    NeedsReview(String),
    /// Must be fixed; carries the reasons.
    NeedsFix(String),
}

/// The outcome of a review.
#[derive(Debug, Clone)]
pub struct ReviewResult {
    pub verdict: ReviewVerdict,
    pub issues: Vec<Issue>,
    pub reviewer: String,
    /// The reviewed output's confidence after review, in thousandths.
    pub confidence_permille: u32,
}

} // verus!
