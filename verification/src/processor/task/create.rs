//! Task creation: manual tasks and discovered tasks.
use vstd::prelude::*;
use crate::processor::task::model::{Task, TaskPriority, TaskSource, TaskStatus};

verus! {

/// Manual tasks start `Open`; discovered ones await confirmation as `Pending`.
pub open spec fn initial_status(source: TaskSource) -> TaskStatus {
    match source {
        TaskSource::Manual => TaskStatus::Open,
        _ => TaskStatus::Pending,
    }
}

/// Creates a task with a fresh id, stamped with the current time.
pub fn create_task(title: &str, priority: TaskPriority, source: TaskSource) -> (t: Task)
    ensures
        t.id@.len() == 36,
        t.title@ == title@,
        t.description is None,
        t.status == initial_status(source),
        t.priority == priority,
        t.source == source,
        t.parent_id is None,
        t.children_ids@.len() == 0,
        t.due_date is None,
        t.tags@.len() == 0,
        t.created_at@ == t.updated_at@,
        t.completed_at is None,
        t.feishu_task_id is None,
        t.obsidian_path is None,
{
    let now = crate::clock::now_rfc3339();
    let status = match source {
        TaskSource::Manual => TaskStatus::Open,
        _ => TaskStatus::Pending,
    };
    Task {
        id: crate::clock::new_uuid(),
        title: String::from_str(title),
        description: None,
        status,
        priority,
        source,
        parent_id: None,
        children_ids: Vec::new(),
        due_date: None,
        tags: Vec::new(),
        created_at: now.clone(),
        updated_at: now,
        completed_at: None,
        feishu_task_id: None,
        obsidian_path: None,
    }
}

/// Creates an `Open` subtask of `parent`, inheriting its priority and source.
pub fn create_subtask(parent: &Task, title: &str) -> (t: Task)
    ensures
        t.id@.len() == 36,
        t.title@ == title@,
        t.description is None,
        t.status == TaskStatus::Open,
        t.priority == parent.priority,
        t.source == parent.source,
        t.parent_id matches Some(p) && p@ == parent.id@,
        t.children_ids@.len() == 0,
        t.due_date is None,
        t.tags@.len() == 0,
        t.created_at@ == t.updated_at@,
        t.completed_at is None,
        t.feishu_task_id is None,
        t.obsidian_path is None,
{
    let now = crate::clock::now_rfc3339();
    Task {
        id: crate::clock::new_uuid(),
        title: String::from_str(title),
        description: None,
        status: TaskStatus::Open,
        priority: parent.priority,
        source: parent.source,
        parent_id: Some(parent.id.clone()),
        children_ids: Vec::new(),
        due_date: None,
        tags: Vec::new(),
        created_at: now.clone(),
        updated_at: now,
        completed_at: None,
        feishu_task_id: None,
        obsidian_path: None,
    }
}

} // verus!
