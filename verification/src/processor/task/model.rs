//! The task data model.
use vstd::prelude::*;

verus! {

/// Task status.
#[derive(PartialEq, Eq, Structural, Clone, Copy, Debug)]
pub enum TaskStatus {
    /// Awaiting confirmation (discovered automatically).
    Pending,
    /// Confirmed, not started.
    Open,
    InProgress,
    Done,
    Archived,
}

/// Task priority, `P0` most urgent.
#[derive(PartialEq, Eq, Structural, Clone, Copy, Debug)]
pub enum TaskPriority {
    P0,
    P1,
    P2,
    P3,
}

/// Where a task came from.
#[derive(PartialEq, Eq, Structural, Clone, Copy, Debug)]
pub enum TaskSource {
    Manual,
    Meeting,
    Message,
    Email,
    Document,
    Feishu,
}

/// A task.
#[derive(Debug, Clone)]
pub struct Task {
    pub id: String,
    pub title: String,
    pub description: Option<String>,
    pub status: TaskStatus,
    pub priority: TaskPriority,
    pub source: TaskSource,
    pub parent_id: Option<String>,
    pub children_ids: Vec<String>,
    pub due_date: Option<String>,
    pub tags: Vec<String>,
    pub created_at: String,
    pub updated_at: String,
    pub completed_at: Option<String>,
    pub feishu_task_id: Option<String>,
    pub obsidian_path: Option<String>,
}

/// A partial update of a task; `None` leaves a field as it is.
#[derive(Debug)]
pub struct TaskUpdate {
    pub title: Option<String>,
    pub description: Option<Option<String>>,
    pub priority: Option<TaskPriority>,
    pub due_date: Option<Option<String>>,
    pub tags: Option<Vec<String>>,
    pub feishu_task_id: Option<Option<String>>,
    pub obsidian_path: Option<Option<String>>,
}

impl Default for TaskUpdate {
    fn default() -> (r: Self)
        ensures
            r.title is None && r.description is None && r.priority is None && r.due_date is None
                && r.tags is None && r.feishu_task_id is None && r.obsidian_path is None,
    {
        TaskUpdate {
            title: None,
            description: None,
            priority: None,
            due_date: None,
            tags: None,
            feishu_task_id: None,
            obsidian_path: None,
        }
    }
}

/// A task query; `None` matches anything.
#[derive(Debug)]
pub struct TaskFilter {
    pub status: Option<TaskStatus>,
    pub priority: Option<TaskPriority>,
    pub source: Option<TaskSource>,
    pub parent_id: Option<Option<String>>,
}

impl Default for TaskFilter {
    fn default() -> (r: Self)
        ensures
            r.status is None && r.priority is None && r.source is None && r.parent_id is None,
    {
        TaskFilter { status: None, priority: None, source: None, parent_id: None }
    }
}

/// The view of an optional string.
pub open spec fn opt_view(o: Option<String>) -> Option<Seq<char>> {
    match o {
        Some(s) => Some(s@),
        None => None,
    }
}

/// A task matches a filter when every field the filter sets is equal.
pub open spec fn matches_filter(t: Task, f: TaskFilter) -> bool {
    &&& (f.status matches Some(s) ==> t.status == s)
    &&& (f.priority matches Some(p) ==> t.priority == p)
    &&& (f.source matches Some(s) ==> t.source == s)
    &&& (f.parent_id matches Some(p) ==> opt_view(t.parent_id) == opt_view(p))
}

impl Task {
    /// A root task has no parent.
    pub fn is_root(&self) -> (r: bool)
        ensures
            r == self.parent_id is None,
    {
        self.parent_id.is_none()
    }

    /// A leaf task has no children.
    pub fn is_leaf(&self) -> (r: bool)
        ensures
            r == (self.children_ids@.len() == 0),
    {
        self.children_ids.len() == 0
    }

    /// A task is completed when it is `Done` or `Archived`.
    pub fn is_completed(&self) -> (r: bool)
        ensures
            r == (self.status == TaskStatus::Done || self.status == TaskStatus::Archived),
    {
        self.status == TaskStatus::Done || self.status == TaskStatus::Archived
    }
}

/// An exact copy of a list of strings.
pub fn copy_strings(v: &Vec<String>) -> (r: Vec<String>)
    ensures
        r@ == v@,
{
    let mut r: Vec<String> = Vec::new();
    let mut i: usize = 0;
    while i < v.len()
        invariant
            i <= v@.len(),
            r@ == v@.subrange(0, i as int),
        decreases v.len() - i,
    {
        r.push(v[i].clone());
        i = i + 1;
        assert(r@ =~= v@.subrange(0, i as int));
    }
    assert(r@ =~= v@);
    r
}

/// An exact copy of an optional string.
pub fn copy_opt(s: &Option<String>) -> (r: Option<String>)
    ensures
        r == *s,
{
    match s {
        Some(x) => Some(x.clone()),
        None => None,
    }
}

/// Two tasks hold the same values.
pub open spec fn same_task(a: Task, b: Task) -> bool {
    &&& a.id == b.id
    &&& a.title == b.title
    &&& a.description == b.description
    &&& a.status == b.status
    &&& a.priority == b.priority
    &&& a.source == b.source
    &&& a.parent_id == b.parent_id
    &&& a.children_ids@ == b.children_ids@
    &&& a.due_date == b.due_date
    &&& a.tags@ == b.tags@
    &&& a.created_at == b.created_at
    &&& a.updated_at == b.updated_at
    &&& a.completed_at == b.completed_at
    &&& a.feishu_task_id == b.feishu_task_id
    &&& a.obsidian_path == b.obsidian_path
}

/// An exact copy of a task.
pub fn copy_task(t: &Task) -> (r: Task)
    ensures
        same_task(r, *t),
{
    Task {
        id: t.id.clone(),
        title: t.title.clone(),
        description: copy_opt(&t.description),
        status: t.status,
        priority: t.priority,
        source: t.source,
        parent_id: copy_opt(&t.parent_id),
        children_ids: copy_strings(&t.children_ids),
        due_date: copy_opt(&t.due_date),
        tags: copy_strings(&t.tags),
        created_at: t.created_at.clone(),
        updated_at: t.updated_at.clone(),
        completed_at: copy_opt(&t.completed_at),
        feishu_task_id: copy_opt(&t.feishu_task_id),
        obsidian_path: copy_opt(&t.obsidian_path),
    }
}

} // verus!
