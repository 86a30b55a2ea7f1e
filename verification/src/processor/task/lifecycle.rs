//! Task lifecycle: Pending → Open → InProgress → Done → Archived, never back.
use vstd::prelude::*;
use crate::processor::error::WbError;
use crate::processor::task::model::{Task, TaskStatus, copy_opt, copy_strings};

verus! {

/// The name a status is printed with.
pub open spec fn status_name(s: TaskStatus) -> Seq<char> {
    match s {
        TaskStatus::Pending => "Pending"@,
        TaskStatus::Open => "Open"@,
        TaskStatus::InProgress => "InProgress"@,
        TaskStatus::Done => "Done"@,
        TaskStatus::Archived => "Archived"@,
    }
}

pub fn map_task_status(s: TaskStatus) -> (r: String)
    ensures
        r@ == status_name(s),
{
    match s {
        TaskStatus::Pending => String::from_str("Pending"),
        TaskStatus::Open => String::from_str("Open"),
        TaskStatus::InProgress => String::from_str("InProgress"),
        TaskStatus::Done => String::from_str("Done"),
        TaskStatus::Archived => String::from_str("Archived"),
    }
}

/// The legal transitions: each status moves only to the next one.
pub open spec fn valid_transition(current: TaskStatus, target: TaskStatus) -> bool {
    ||| (current == TaskStatus::Pending && target == TaskStatus::Open)
    ||| (current == TaskStatus::Open && target == TaskStatus::InProgress)
    ||| (current == TaskStatus::InProgress && target == TaskStatus::Done)
    ||| (current == TaskStatus::Done && target == TaskStatus::Archived)
}

/// Position of a status along the lifecycle.
pub open spec fn stage(s: TaskStatus) -> int {
    match s {
        TaskStatus::Pending => 0,
        TaskStatus::Open => 1,
        TaskStatus::InProgress => 2,
        TaskStatus::Done => 3,
        TaskStatus::Archived => 4,
    }
}

/// The message of a refused transition.
pub open spec fn transition_error(current: TaskStatus, target: TaskStatus) -> Seq<char> {
    "非法状态流转: "@ + status_name(current) + " → "@ + status_name(target)
}

/// Checks that `current → target` is a legal transition.
pub fn validate_transition(current: &TaskStatus, target: &TaskStatus) -> (r: Result<(), WbError>)
    ensures
        r is Ok == valid_transition(*current, *target),
        r matches Err(e) ==> e is Ai && e.message() == transition_error(*current, *target),
{
    let valid = match (current, target) {
        (TaskStatus::Pending, TaskStatus::Open) => true,
        (TaskStatus::Open, TaskStatus::InProgress) => true,
        (TaskStatus::InProgress, TaskStatus::Done) => true,
        (TaskStatus::Done, TaskStatus::Archived) => true,
        _ => false,
    };
    if valid {
        Ok(())
    } else {
        let mut m = String::from_str("非法状态流转: ");
        let a = map_task_status(*current);
        crate::text::append_str(&mut m, a.as_str());
        crate::text::append_str(&mut m, " → ");
        let b = map_task_status(*target);
        crate::text::append_str(&mut m, b.as_str());
        Err(WbError::Ai(m))
    }
}

/// `n` is `t` moved to `status` at time `now`: only the status, the update
/// time and (when reaching `Done`) the completion time change.
pub open spec fn transitioned(t: Task, n: Task, status: TaskStatus, now: Seq<char>) -> bool {
    &&& n.id == t.id
    &&& n.title == t.title
    &&& n.description == t.description
    &&& n.status == status
    &&& n.priority == t.priority
    &&& n.source == t.source
    &&& n.parent_id == t.parent_id
    &&& n.children_ids@ == t.children_ids@
    &&& n.due_date == t.due_date
    &&& n.tags@ == t.tags@
    &&& n.created_at == t.created_at
    &&& n.updated_at@ == now
    &&& (if status == TaskStatus::Done {
        n.completed_at matches Some(c) && c@ == now
    } else {
        n.completed_at == t.completed_at
    })
    &&& n.feishu_task_id == t.feishu_task_id
    &&& n.obsidian_path == t.obsidian_path
}

/// Moves a task to `new_status`, returning the updated copy; refuses an
/// illegal transition.
pub fn transition(task: &Task, new_status: TaskStatus) -> (r: Result<Task, WbError>)
    ensures
        r is Ok == valid_transition(task.status, new_status),
        r matches Ok(n) ==> transitioned(*task, n, new_status, n.updated_at@),
        r matches Err(e) ==> e is Ai && e.message() == transition_error(task.status, new_status),
{
    validate_transition(&task.status, &new_status)?;
    let now = crate::clock::now_rfc3339();
    let completed_at = if new_status == TaskStatus::Done {
        Some(now.clone())
    } else {
        copy_opt(&task.completed_at)
    };
    Ok(Task {
        id: task.id.clone(),
        title: task.title.clone(),
        description: copy_opt(&task.description),
        status: new_status,
        priority: task.priority,
        source: task.source,
        parent_id: copy_opt(&task.parent_id),
        children_ids: copy_strings(&task.children_ids),
        due_date: copy_opt(&task.due_date),
        tags: copy_strings(&task.tags),
        created_at: task.created_at.clone(),
        updated_at: now,
        completed_at,
        feishu_task_id: copy_opt(&task.feishu_task_id),
        obsidian_path: copy_opt(&task.obsidian_path),
    })
}

/// Archives a task (legal only from `Done`).
pub fn archive(task: &Task) -> (r: Result<Task, WbError>)
    ensures
        r is Ok == (task.status == TaskStatus::Done),
        r matches Ok(n) ==> transitioned(*task, n, TaskStatus::Archived, n.updated_at@),
{
    transition(task, TaskStatus::Archived)
}

/// The lifecycle only moves forward, one stage at a time: a legal transition
/// goes to the next stage, so no status is ever re-entered.
pub proof fn lemma_transition_forward(current: TaskStatus, target: TaskStatus)
    requires
        valid_transition(current, target),
    ensures
        stage(target) == stage(current) + 1,
{
}

/// `Archived` is final: nothing leaves it.
pub proof fn lemma_archived_final(target: TaskStatus)
    ensures
        !valid_transition(TaskStatus::Archived, target),
{
}

} // verus!
