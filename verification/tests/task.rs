use workbetter::processor::task::create::{create_subtask, create_task};
use workbetter::processor::task::discovery::{PendingTask, TaskDiscovery};
use workbetter::processor::task::discovery_ai::{extraction_to_pending_task, tasks_from_extraction};
use workbetter::processor::task::discovery_confirm::ConfirmationFlow;
use workbetter::processor::extraction::Extraction;
use workbetter::processor::task::hierarchy::{add_subtask, collect_descendant_ids, is_ancestor};
use workbetter::processor::task::lifecycle::{archive, transition, validate_transition};
use workbetter::processor::task::model::{Task, TaskPriority, TaskSource, TaskStatus};
use workbetter::processor::task::sync::{
    ConflictType, FeishuTask, Resolution, SyncAction, SyncDirection, TaskSync,
};

fn plain_task(id: &str, title: &str, parent: Option<&str>, children: Vec<&str>) -> Task {
    Task {
        id: id.into(),
        title: title.into(),
        description: None,
        status: TaskStatus::Open,
        priority: TaskPriority::P2,
        source: TaskSource::Manual,
        parent_id: parent.map(|p| p.to_string()),
        children_ids: children.into_iter().map(String::from).collect(),
        due_date: None,
        tags: vec![],
        created_at: "2026-01-01".into(),
        updated_at: "2026-01-01".into(),
        completed_at: None,
        feishu_task_id: None,
        obsidian_path: None,
    }
}

#[test]
fn test_task_is_root() {
    let task = plain_task("1", "Test", None, vec![]);
    assert!(task.is_root());
    assert!(task.is_leaf());
}

#[test]
fn test_task_with_parent_is_not_root() {
    let task = plain_task("2", "Child", Some("1"), vec![]);
    assert!(!task.is_root());
    assert!(task.is_leaf());
}

#[test]
fn test_task_with_children_is_not_leaf() {
    let task = plain_task("1", "Parent", None, vec!["2", "3"]);
    assert!(task.is_root());
    assert!(!task.is_leaf());
}

#[test]
fn test_is_completed() {
    let mut task = plain_task("1", "Test", None, vec![]);
    assert!(!task.is_completed());
    task.status = TaskStatus::Done;
    assert!(task.is_completed());
    task.status = TaskStatus::Archived;
    assert!(task.is_completed());
    task.status = TaskStatus::InProgress;
    assert!(!task.is_completed());
}

#[test]
fn test_create_manual_task_is_open() {
    let task = create_task("Test task", TaskPriority::P1, TaskSource::Manual);
    assert_eq!(task.status, TaskStatus::Open);
    assert_eq!(task.title, "Test task");
    assert_eq!(task.priority, TaskPriority::P1);
    assert_eq!(task.source, TaskSource::Manual);
    assert!(task.parent_id.is_none());
    assert!(task.children_ids.is_empty());
    assert!(!task.id.is_empty());
}

#[test]
fn test_create_auto_discovered_task_is_pending() {
    for source in [
        TaskSource::Meeting,
        TaskSource::Message,
        TaskSource::Email,
        TaskSource::Document,
        TaskSource::Feishu,
    ] {
        let task = create_task("Auto task", TaskPriority::P2, source);
        assert_eq!(task.status, TaskStatus::Pending, "source {:?} should yield Pending", source);
    }
}

#[test]
fn test_create_subtask_inherits_parent_info() {
    let parent = create_task("Parent", TaskPriority::P0, TaskSource::Feishu);
    let child = create_subtask(&parent, "Child");
    assert_eq!(child.parent_id, Some(parent.id));
    assert_eq!(child.priority, TaskPriority::P0);
    assert_eq!(child.source, TaskSource::Feishu);
    assert_eq!(child.status, TaskStatus::Open);
    assert_eq!(child.title, "Child");
}

#[test]
fn test_created_at_and_updated_at_are_set() {
    let task = create_task("T", TaskPriority::P3, TaskSource::Manual);
    assert!(!task.created_at.is_empty());
    assert!(!task.updated_at.is_empty());
    assert_eq!(task.created_at, task.updated_at);
}

fn make_task_with_status(status: TaskStatus) -> Task {
    let mut task = create_task("Test", TaskPriority::P2, TaskSource::Manual);
    task.status = status;
    task
}

#[test]
fn test_valid_transition_pending_to_open() {
    let task = make_task_with_status(TaskStatus::Pending);
    let updated = transition(&task, TaskStatus::Open).unwrap();
    assert_eq!(updated.status, TaskStatus::Open);
}

#[test]
fn test_valid_transition_open_to_in_progress() {
    let task = make_task_with_status(TaskStatus::Open);
    let updated = transition(&task, TaskStatus::InProgress).unwrap();
    assert_eq!(updated.status, TaskStatus::InProgress);
}

#[test]
fn test_valid_transition_in_progress_to_done() {
    let task = make_task_with_status(TaskStatus::InProgress);
    let updated = transition(&task, TaskStatus::Done).unwrap();
    assert_eq!(updated.status, TaskStatus::Done);
    assert!(updated.completed_at.is_some());
}

#[test]
fn test_valid_transition_done_to_archived() {
    let task = make_task_with_status(TaskStatus::Done);
    let updated = transition(&task, TaskStatus::Archived).unwrap();
    assert_eq!(updated.status, TaskStatus::Archived);
}

#[test]
fn lifecycle_test_full_lifecycle() {
    let task = make_task_with_status(TaskStatus::Pending);
    let task = transition(&task, TaskStatus::Open).unwrap();
    let task = transition(&task, TaskStatus::InProgress).unwrap();
    let task = transition(&task, TaskStatus::Done).unwrap();
    let task = transition(&task, TaskStatus::Archived).unwrap();
    assert_eq!(task.status, TaskStatus::Archived);
}

#[test]
fn test_invalid_done_to_open() {
    let task = make_task_with_status(TaskStatus::Done);
    assert!(transition(&task, TaskStatus::Open).is_err());
}

#[test]
fn test_invalid_open_to_done() {
    let task = make_task_with_status(TaskStatus::Open);
    assert!(transition(&task, TaskStatus::Done).is_err());
}

#[test]
fn test_invalid_archived_to_anything() {
    let task = make_task_with_status(TaskStatus::Archived);
    assert!(transition(&task, TaskStatus::Open).is_err());
    assert!(transition(&task, TaskStatus::InProgress).is_err());
    assert!(transition(&task, TaskStatus::Done).is_err());
    assert!(transition(&task, TaskStatus::Pending).is_err());
}

#[test]
fn test_invalid_in_progress_to_open() {
    let task = make_task_with_status(TaskStatus::InProgress);
    assert!(transition(&task, TaskStatus::Open).is_err());
}

#[test]
fn test_invalid_pending_to_in_progress() {
    let task = make_task_with_status(TaskStatus::Pending);
    assert!(transition(&task, TaskStatus::InProgress).is_err());
}

#[test]
fn test_invalid_same_status() {
    let task = make_task_with_status(TaskStatus::Open);
    assert!(transition(&task, TaskStatus::Open).is_err());
}

#[test]
fn test_archive_from_done() {
    let task = make_task_with_status(TaskStatus::Done);
    let archived = archive(&task).unwrap();
    assert_eq!(archived.status, TaskStatus::Archived);
}

#[test]
fn test_archive_fails_from_non_done() {
    for status in [TaskStatus::Pending, TaskStatus::Open, TaskStatus::InProgress, TaskStatus::Archived] {
        let task = make_task_with_status(status);
        assert!(archive(&task).is_err(), "archive should fail from {:?}", status);
    }
}

#[test]
fn test_transition_preserves_immutability() {
    let task = make_task_with_status(TaskStatus::Open);
    let updated = transition(&task, TaskStatus::InProgress).unwrap();
    assert_eq!(task.status, TaskStatus::Open);
    assert_eq!(updated.status, TaskStatus::InProgress);
}

#[test]
fn test_completed_at_only_set_on_done() {
    let task = make_task_with_status(TaskStatus::Open);
    assert!(task.completed_at.is_none());
    let task = transition(&task, TaskStatus::InProgress).unwrap();
    assert!(task.completed_at.is_none());
    let task = transition(&task, TaskStatus::Done).unwrap();
    assert!(task.completed_at.is_some());
    let task = transition(&task, TaskStatus::Archived).unwrap();
    assert!(task.completed_at.is_some());
}

#[test]
fn test_transition_updates_updated_at() {
    let task = make_task_with_status(TaskStatus::Open);
    let old_updated = task.updated_at.clone();
    let updated = transition(&task, TaskStatus::InProgress).unwrap();
    assert_ne!(updated.updated_at, old_updated);
}

#[test]
fn invalid_transition_message_names_both_states() {
    let err = validate_transition(&TaskStatus::Open, &TaskStatus::Done).unwrap_err();
    let msg = err.to_string();
    assert!(msg.contains("Open") && msg.contains("Done"));
}

#[test]
fn test_add_subtask_to_leaf() {
    let parent = create_task("Parent", TaskPriority::P1, TaskSource::Manual);
    let (updated_parent, child) = add_subtask(&parent, "Child 1").unwrap();
    assert_eq!(updated_parent.children_ids.len(), 1);
    assert_eq!(updated_parent.children_ids[0], child.id);
    assert_eq!(child.parent_id, Some(parent.id));
}

#[test]
fn test_add_multiple_subtasks() {
    let parent = create_task("Parent", TaskPriority::P1, TaskSource::Manual);
    let (parent, _c1) = add_subtask(&parent, "Child 1").unwrap();
    let (parent, c2) = add_subtask(&parent, "Child 2").unwrap();
    assert_eq!(parent.children_ids.len(), 2);
    assert_eq!(parent.children_ids[1], c2.id);
}

#[test]
fn test_add_subtask_fails_on_archived() {
    let mut parent = create_task("Parent", TaskPriority::P1, TaskSource::Manual);
    parent.status = TaskStatus::Archived;
    assert!(add_subtask(&parent, "Child").is_err());
}

#[test]
fn test_add_subtask_preserves_immutability() {
    let parent = create_task("Parent", TaskPriority::P1, TaskSource::Manual);
    let (updated, _child) = add_subtask(&parent, "Child").unwrap();
    assert!(parent.children_ids.is_empty());
    assert_eq!(updated.children_ids.len(), 1);
}

#[test]
fn test_add_subtask_inherits_priority() {
    let parent = create_task("Parent", TaskPriority::P0, TaskSource::Feishu);
    let (_parent, child) = add_subtask(&parent, "Child").unwrap();
    assert_eq!(child.priority, TaskPriority::P0);
    assert_eq!(child.source, TaskSource::Feishu);
}

#[test]
fn test_collect_descendant_ids_empty() {
    let tasks: Vec<Task> = Vec::new();
    let result = collect_descendant_ids("nonexistent", &tasks);
    assert!(result.is_empty());
}

#[test]
fn test_collect_descendant_ids_single_level() {
    let parent = create_task("Parent", TaskPriority::P2, TaskSource::Manual);
    let (parent, c1) = add_subtask(&parent, "C1").unwrap();
    let (parent, c2) = add_subtask(&parent, "C2").unwrap();
    let tasks = vec![parent.clone(), c1.clone(), c2.clone()];
    let descendants = collect_descendant_ids(&parent.id, &tasks);
    assert_eq!(descendants.len(), 2);
    assert!(descendants.contains(&c1.id));
    assert!(descendants.contains(&c2.id));
}

#[test]
fn test_collect_descendant_ids_multi_level() {
    let grandparent = create_task("GP", TaskPriority::P2, TaskSource::Manual);
    let (grandparent, parent) = add_subtask(&grandparent, "P").unwrap();
    let (parent, child) = add_subtask(&parent, "C").unwrap();
    let tasks = vec![grandparent.clone(), parent.clone(), child.clone()];
    let descendants = collect_descendant_ids(&grandparent.id, &tasks);
    assert_eq!(descendants.len(), 2);
    assert!(descendants.contains(&parent.id));
    assert!(descendants.contains(&child.id));
}

#[test]
fn test_is_ancestor() {
    let gp = create_task("GP", TaskPriority::P2, TaskSource::Manual);
    let (gp, p) = add_subtask(&gp, "P").unwrap();
    let (p, c) = add_subtask(&p, "C").unwrap();
    let tasks = vec![gp.clone(), p.clone(), c.clone()];
    assert!(is_ancestor(&gp.id, &p.id, &tasks));
    assert!(is_ancestor(&gp.id, &c.id, &tasks));
    assert!(is_ancestor(&p.id, &c.id, &tasks));
    assert!(!is_ancestor(&c.id, &gp.id, &tasks));
    assert!(!is_ancestor(&p.id, &gp.id, &tasks));
}

fn make_pending(title: &str) -> PendingTask {
    PendingTask::new(title, None, TaskSource::Meeting, TaskPriority::P2, None, "origin text")
}

#[test]
fn test_add_and_pending() {
    let mut flow = ConfirmationFlow::new();
    let id = flow.add(make_pending("Task 1"));
    assert_eq!(flow.pending_count(), 1);
    assert!(flow.get(&id).is_some());
}

#[test]
fn test_add_batch() {
    let mut flow = ConfirmationFlow::new();
    let tasks = vec![make_pending("A"), make_pending("B"), make_pending("C")];
    let ids = flow.add_batch(tasks);
    assert_eq!(ids.len(), 3);
    assert_eq!(flow.pending_count(), 3);
}

#[test]
fn discovery_confirm_test_confirm_removes_from_pending() {
    let mut flow = ConfirmationFlow::new();
    let id = flow.add(make_pending("Confirm me"));
    let confirmed = flow.confirm(&id).unwrap();
    assert_eq!(confirmed.title, "Confirm me");
    assert_eq!(flow.pending_count(), 0);
}

#[test]
fn discovery_confirm_test_confirm_nonexistent() {
    let mut flow = ConfirmationFlow::new();
    let result = flow.confirm("no-such-id");
    assert!(result.is_err());
    assert_eq!(result.unwrap_err().to_string(), "待确认任务不存在: no-such-id");
}

#[test]
fn discovery_confirm_test_reject_removes_from_pending() {
    let mut flow = ConfirmationFlow::new();
    let id = flow.add(make_pending("Reject me"));
    flow.reject(&id).unwrap();
    assert_eq!(flow.pending_count(), 0);
    assert_eq!(flow.rejected_count(), 1);
}

#[test]
fn discovery_confirm_test_reject_nonexistent() {
    let mut flow = ConfirmationFlow::new();
    let result = flow.reject("no-such-id");
    assert!(result.is_err());
    assert_eq!(flow.rejected_count(), 0);
}

#[test]
fn test_pending_returns_all() {
    let mut flow = ConfirmationFlow::new();
    flow.add(make_pending("A"));
    flow.add(make_pending("B"));
    let pending = flow.pending();
    assert_eq!(pending.len(), 2);
}

#[test]
fn discovery_confirm_test_full_lifecycle() {
    let mut flow = ConfirmationFlow::new();
    let id1 = flow.add(make_pending("Will confirm"));
    let id2 = flow.add(make_pending("Will reject"));
    let id3 = flow.add(make_pending("Still pending"));
    flow.confirm(&id1).unwrap();
    flow.reject(&id2).unwrap();
    assert_eq!(flow.pending_count(), 1);
    assert_eq!(flow.rejected_count(), 1);
    assert!(flow.get(&id3).is_some());
}

#[test]
fn pending_task_new_keeps_fields() {
    let t = PendingTask::new("标题", Some("说明"), TaskSource::Email, TaskPriority::P1, Some("2026-06-15".into()), "原文");
    assert_eq!(t.id.chars().count(), 36);
    let cs: Vec<char> = t.id.chars().collect();
    for (i, c) in cs.iter().enumerate() {
        if i == 8 || i == 13 || i == 18 || i == 23 {
            assert_eq!(*c, '-');
        } else {
            assert!(c.is_ascii_digit() || ('a'..='f').contains(c));
        }
    }
    assert_eq!(cs[14], '4');
    assert!(['8', '9', 'a', 'b'].contains(&cs[19]));
    assert_eq!(t.title, "标题");
    assert_eq!(t.description.as_deref(), Some("说明"));
    assert_eq!(t.source, TaskSource::Email);
    assert_eq!(t.priority, TaskPriority::P1);
    assert_eq!(t.due_date.as_deref(), Some("2026-06-15"));
    assert_eq!(t.origin_text, "原文");
}

#[test]
fn discovery_test_confirm_nonexistent() {
    let mut discovery = TaskDiscovery::new();
    assert!(discovery.confirm("bad-id").is_err());
}

#[test]
fn discovery_test_reject_nonexistent() {
    let mut discovery = TaskDiscovery::new();
    assert!(discovery.reject("bad-id").is_err());
}

#[test]
fn discovery_add_pending_then_confirm() {
    let mut discovery = TaskDiscovery::new();
    let t = make_pending("修复 bug");
    let id = t.id.clone();
    discovery.add_pending(t);
    assert_eq!(discovery.pending_count(), 1);
    let confirmed = discovery.confirm(&id).unwrap();
    assert_eq!(confirmed.title, "修复 bug");
    assert_eq!(discovery.pending_count(), 0);
}

#[test]
fn discovery_add_discovered_returns_ids() {
    let mut discovery = TaskDiscovery::new();
    let a = make_pending("A");
    let b = make_pending("B");
    let (ia, ib) = (a.id.clone(), b.id.clone());
    let ids = discovery.add_discovered(vec![a, b]);
    assert_eq!(ids, vec![ia, ib]);
    assert_eq!(discovery.pending().len(), 2);
}

fn make_task_with_feishu(id: &str, title: &str, status: TaskStatus, updated_at: &str, feishu_task_id: Option<String>) -> Task {
    Task {
        id: id.into(),
        title: title.into(),
        description: None,
        status,
        priority: TaskPriority::P2,
        source: TaskSource::Feishu,
        parent_id: None,
        children_ids: vec![],
        due_date: None,
        tags: vec![],
        created_at: "2026-01-01T00:00:00Z".into(),
        updated_at: updated_at.into(),
        completed_at: None,
        feishu_task_id,
        obsidian_path: None,
    }
}

fn make_task(id: &str, title: &str, status: TaskStatus, updated_at: &str) -> Task {
    make_task_with_feishu(id, title, status, updated_at, Some(format!("feishu-{}", id)))
}

fn make_feishu_task(id: &str, title: &str, status: &str, updated_at: &str) -> FeishuTask {
    FeishuTask { id: id.into(), title: title.into(), status: status.into(), updated_at: updated_at.into() }
}

#[test]
fn test_new_sync_is_empty() {
    let sync = TaskSync::new();
    assert!(sync.log().is_empty());
}

#[test]
fn test_sync_from_feishu_creates_new_task() {
    let mut sync = TaskSync::new();
    let feishu_tasks = vec![make_feishu_task("f1", "New Task", "todo", "2026-01-02T00:00:00Z")];
    let local_tasks: Vec<Task> = vec![];
    let results = sync.sync_from_feishu(&feishu_tasks, &local_tasks);
    assert_eq!(results.len(), 1);
    assert_eq!(results[0].action, SyncAction::Created);
    assert_eq!(results[0].direction, SyncDirection::FeishuToObsidian);
    assert!(results[0].conflict.is_none());
    assert_eq!(sync.log().len(), 1);
}

#[test]
fn test_sync_from_feishu_skips_unchanged() {
    let mut sync = TaskSync::new();
    let feishu_tasks = vec![make_feishu_task("f1", "Same Task", "todo", "2026-01-01T00:00:00Z")];
    let local_tasks = vec![make_task_with_feishu("t1", "Same Task", TaskStatus::Open, "2026-01-01T00:00:00Z", Some("f1".into()))];
    let results = sync.sync_from_feishu(&feishu_tasks, &local_tasks);
    assert_eq!(results.len(), 1);
    assert_eq!(results[0].action, SyncAction::Skipped);
}

#[test]
fn test_sync_from_feishu_updates_changed_task() {
    let mut sync = TaskSync::new();
    let feishu_tasks = vec![make_feishu_task("f1", "Same Title", "todo", "2026-01-02T00:00:00Z")];
    let local_tasks = vec![make_task_with_feishu("t1", "Same Title", TaskStatus::Open, "2026-01-01T00:00:00Z", Some("f1".into()))];
    let results = sync.sync_from_feishu(&feishu_tasks, &local_tasks);
    assert_eq!(results.len(), 1);
    assert_eq!(results[0].action, SyncAction::Updated);
}

#[test]
fn test_sync_from_feishu_detects_conflict() {
    let mut sync = TaskSync::new();
    let feishu_tasks = vec![make_feishu_task("f1", "Remote Changed", "in_progress", "2026-01-03T00:00:00Z")];
    let local_tasks = vec![make_task_with_feishu("t1", "Local Changed", TaskStatus::Open, "2026-01-02T00:00:00Z", Some("f1".into()))];
    let results = sync.sync_from_feishu(&feishu_tasks, &local_tasks);
    assert_eq!(results.len(), 1);
    assert_eq!(results[0].action, SyncAction::ConflictResolved);
    assert!(results[0].conflict.is_some());
}

#[test]
fn test_sync_to_feishu_skips_no_feishu_id() {
    let mut sync = TaskSync::new();
    let local_tasks = vec![Task { feishu_task_id: None, ..make_task("t1", "No Feishu", TaskStatus::Open, "2026-01-01T00:00:00Z") }];
    let feishu_tasks: Vec<FeishuTask> = vec![];
    let results = sync.sync_to_feishu(&local_tasks, &feishu_tasks);
    assert!(results.is_empty());
}

#[test]
fn test_sync_to_feishu_detects_remote_deleted() {
    let mut sync = TaskSync::new();
    let local_tasks = vec![make_task("t1", "Task", TaskStatus::Open, "2026-01-01T00:00:00Z")];
    let feishu_tasks: Vec<FeishuTask> = vec![];
    let results = sync.sync_to_feishu(&local_tasks, &feishu_tasks);
    assert_eq!(results.len(), 1);
    assert_eq!(results[0].conflict, Some(ConflictType::DeletedOnOneSide));
}

#[test]
fn test_sync_to_feishu_marks_for_sync() {
    let mut sync = TaskSync::new();
    let local_tasks = vec![make_task("t1", "Task", TaskStatus::Open, "2026-01-02T00:00:00Z")];
    let feishu_tasks = vec![make_feishu_task("feishu-t1", "Task", "todo", "2026-01-01T00:00:00Z")];
    let results = sync.sync_to_feishu(&local_tasks, &feishu_tasks);
    assert_eq!(results.len(), 1);
    assert_eq!(results[0].action, SyncAction::Updated);
    assert_eq!(results[0].direction, SyncDirection::ObsidianToFeishu);
}

#[test]
fn test_sync_to_feishu_skips_unchanged() {
    let mut sync = TaskSync::new();
    let local_tasks = vec![make_task("t1", "Task", TaskStatus::Open, "2026-01-01T00:00:00Z")];
    let feishu_tasks = vec![make_feishu_task("feishu-t1", "Task", "todo", "2026-01-01T00:00:00Z")];
    let results = sync.sync_to_feishu(&local_tasks, &feishu_tasks);
    assert_eq!(results.len(), 1);
    assert_eq!(results[0].action, SyncAction::Skipped);
}

#[test]
fn test_detect_conflicts_both_modified() {
    let sync = TaskSync::new();
    let local = make_task("t1", "Local Title", TaskStatus::Open, "2026-01-02T00:00:00Z");
    let remote = make_feishu_task("f1", "Remote Title", "in_progress", "2026-01-03T00:00:00Z");
    assert_eq!(sync.detect_conflicts(&local, &remote), Some(ConflictType::BothModified));
}

#[test]
fn test_detect_conflicts_status_mismatch() {
    let sync = TaskSync::new();
    let local = make_task("t1", "Same Title", TaskStatus::Open, "2026-01-01T00:00:00Z");
    let remote = make_feishu_task("f1", "Same Title", "done", "2026-01-01T00:00:00Z");
    assert_eq!(sync.detect_conflicts(&local, &remote), Some(ConflictType::StatusMismatch));
}

#[test]
fn test_detect_conflicts_no_conflict() {
    let sync = TaskSync::new();
    let local = make_task("t1", "Same Title", TaskStatus::Open, "2026-01-01T00:00:00Z");
    let remote = make_feishu_task("f1", "Same Title", "todo", "2026-01-01T00:00:00Z");
    assert!(sync.detect_conflicts(&local, &remote).is_none());
}

#[test]
fn detect_conflicts_status_compared_case_insensitively() {
    let sync = TaskSync::new();
    let local = make_task("t1", "Same Title", TaskStatus::Done, "2026-01-01T00:00:00Z");
    let remote = make_feishu_task("f1", "Same Title", "COMPLETED", "2026-01-01T00:00:00Z");
    assert!(sync.detect_conflicts(&local, &remote).is_none());
}

#[test]
fn test_resolve_conflict_keep_local() {
    let mut sync = TaskSync::new();
    let local = make_task("t1", "Local", TaskStatus::Open, "2026-01-02T00:00:00Z");
    let remote = make_feishu_task("f1", "Remote", "in_progress", "2026-01-03T00:00:00Z");
    let result = sync.resolve_conflict(&local, &remote, Resolution::KeepLocal);
    assert_eq!(result.action, SyncAction::ConflictResolved);
    assert!(result.conflict.is_some());
}

#[test]
fn test_resolve_conflict_keep_remote() {
    let mut sync = TaskSync::new();
    let local = make_task("t1", "Local", TaskStatus::Open, "2026-01-02T00:00:00Z");
    let remote = make_feishu_task("f1", "Remote", "in_progress", "2026-01-03T00:00:00Z");
    let result = sync.resolve_conflict(&local, &remote, Resolution::KeepRemote);
    assert_eq!(result.action, SyncAction::ConflictResolved);
    assert!(result.conflict.is_some());
}

#[test]
fn test_resolve_conflict_timestamp_priority() {
    let mut sync = TaskSync::new();
    let local = make_task("t1", "Local", TaskStatus::Open, "2026-01-02T00:00:00Z");
    let remote = make_feishu_task("f1", "Remote", "in_progress", "2026-01-03T00:00:00Z");
    let result = sync.resolve_conflict(&local, &remote, Resolution::TimestampPriority);
    assert_eq!(result.action, SyncAction::ConflictResolved);
}

#[test]
fn resolve_conflict_timestamp_priority_newer_local_wins() {
    let mut sync = TaskSync::new();
    let local = make_task("t1", "Local", TaskStatus::Open, "2026-01-04T00:00:00Z");
    let remote = make_feishu_task("f1", "Remote", "in_progress", "2026-01-03T00:00:00Z");
    let result = sync.resolve_conflict(&local, &remote, Resolution::TimestampPriority);
    assert_eq!(result.action, SyncAction::Updated);
    assert_eq!(sync.log().len(), 1);
}

#[test]
fn test_sync_log_accumulates() {
    let mut sync = TaskSync::new();
    let feishu_tasks = vec![
        make_feishu_task("f1", "Task 1", "todo", "2026-01-01T00:00:00Z"),
        make_feishu_task("f2", "Task 2", "todo", "2026-01-01T00:00:00Z"),
    ];
    let local_tasks: Vec<Task> = vec![];
    sync.sync_from_feishu(&feishu_tasks, &local_tasks);
    assert_eq!(sync.log().len(), 2);
    assert_eq!(sync.log()[0].task_id, "f1");
    assert_eq!(sync.log()[1].task_id, "f2");
}

#[test]
fn test_sync_log_has_timestamp() {
    let mut sync = TaskSync::new();
    let feishu_tasks = vec![make_feishu_task("f1", "Task", "todo", "2026-01-01T00:00:00Z")];
    let local_tasks: Vec<Task> = vec![];
    sync.sync_from_feishu(&feishu_tasks, &local_tasks);
    let entry = &sync.log()[0];
    assert!(!entry.timestamp.is_empty());
}

#[test]
fn test_batch_sync_mixed_results() {
    let mut sync = TaskSync::new();
    let feishu_tasks = vec![
        make_feishu_task("f-new", "New Task", "todo", "2026-01-01T00:00:00Z"),
        make_feishu_task("feishu-t-same", "Same Task", "todo", "2026-01-01T00:00:00Z"),
        make_feishu_task("feishu-t-conflict", "Remote Changed", "in_progress", "2026-01-03T00:00:00Z"),
    ];
    let local_tasks = vec![
        make_task("t-same", "Same Task", TaskStatus::Open, "2026-01-01T00:00:00Z"),
        make_task("t-conflict", "Local Changed", TaskStatus::Open, "2026-01-02T00:00:00Z"),
    ];
    let results = sync.sync_from_feishu(&feishu_tasks, &local_tasks);
    assert_eq!(results.len(), 3);
    assert_eq!(results[0].action, SyncAction::Created);
    assert_eq!(results[1].action, SyncAction::Skipped);
    assert_eq!(results[2].action, SyncAction::ConflictResolved);
}

fn ai_extraction(title: &str, summary: &str, tags: Vec<&str>, due: Option<&str>, confidence_permille: u32, status_update: bool) -> Extraction {
    Extraction {
        title: title.to_string(),
        summary: summary.to_string(),
        detail: String::new(),
        people: vec![],
        tags: tags.into_iter().map(|t| t.to_string()).collect(),
        project: None,
        due_date: due.map(|d| d.to_string()),
        confidence_permille,
        is_status_update: status_update,
        related_task_id: if status_update { Some("existing-task-1".to_string()) } else { None },
    }
}

#[test]
fn ai_discovers_task_with_deadline() {
    let e = ai_extraction("完成报告", "明天完成报告", vec![], Some("明天"), 900, false);
    let tasks = tasks_from_extraction(Some(&e), "请帮忙明天完成报告");
    assert_eq!(tasks.len(), 1);
    assert_eq!(tasks[0].title, "完成报告");
    assert_eq!(tasks[0].due_date, Some("明天".to_string()));
    assert_eq!(tasks[0].description, Some("明天完成报告".to_string()));
    assert_eq!(tasks[0].origin_text, "请帮忙明天完成报告");
    assert_eq!(tasks[0].priority, TaskPriority::P2);
}

#[test]
fn ai_non_task_low_confidence_status_update_and_failure_give_nothing() {
    let none = ai_extraction("", "", vec![], None, 200, false);
    assert!(tasks_from_extraction(Some(&none), "今天天气真好").is_empty());
    let low = ai_extraction("可能的任务", "", vec![], None, 300, false);
    assert!(tasks_from_extraction(Some(&low), "请你帮忙检查 API").is_empty());
    let update = ai_extraction("", "", vec![], None, 900, true);
    assert!(tasks_from_extraction(Some(&update), "给Lily的邮件已经发送了").is_empty());
    assert!(tasks_from_extraction(None, "anything").is_empty());
    // Exactly one half is enough.
    let half = ai_extraction("写周报", "", vec![], None, 500, false);
    assert_eq!(tasks_from_extraction(Some(&half), "今天要写周报").len(), 1);
}

#[test]
fn ai_urgent_tag_raises_priority_and_empty_summary_gives_no_description() {
    let e = ai_extraction("修复线上问题", "", vec!["backend", "ASAP"], None, 900, false);
    let t = extraction_to_pending_task(&e, "线上挂了");
    assert_eq!(t.priority, TaskPriority::P1);
    assert_eq!(t.description, None);
    assert_eq!(t.source, TaskSource::Message);
    let lower = ai_extraction("修复", "s", vec!["asap"], None, 900, false);
    assert_eq!(extraction_to_pending_task(&lower, "x").priority, TaskPriority::P2);
}

#[test]
fn existing_task_context_lists_pending_tasks() {
    let mut d = TaskDiscovery::new();
    let t = PendingTask::new("发邮件给lily", None, TaskSource::Message, TaskPriority::P2, None, "o");
    let id = t.id.clone();
    d.add_discovered(vec![t]);
    let ctx = d.existing_task_context();
    assert_eq!(ctx.len(), 1);
    assert_eq!(ctx[0].id, id);
    assert_eq!(ctx[0].title, "发邮件给lily");
    assert_eq!(ctx[0].status, "Pending");
}

#[test]
fn test_confirm_flow() {
    let mut discovery = TaskDiscovery::new();
    let e = ai_extraction("修复 bug", "", vec![], None, 900, false);
    let tasks = tasks_from_extraction(Some(&e), "TODO: 修复 bug");
    discovery.add_discovered(tasks.clone());
    let id = tasks[0].id.clone();

    let confirmed = discovery.confirm(&id).unwrap();
    assert_eq!(confirmed.title, "修复 bug");
    assert_eq!(discovery.pending_count(), 0);
}

#[test]
fn test_reject_flow() {
    let mut discovery = TaskDiscovery::new();
    let e = ai_extraction("误报的任务", "", vec![], None, 900, false);
    let tasks = tasks_from_extraction(Some(&e), "TODO: 误报的任务");
    discovery.add_discovered(tasks.clone());
    let id = tasks[0].id.clone();

    discovery.reject(&id).unwrap();
    assert_eq!(discovery.pending_count(), 0);
}

#[test]
fn test_ai_discovers_task_with_deadline() {
    let e = ai_extraction("完成报告", "明天完成报告", vec![], Some("明天"), 900, false);
    let tasks = tasks_from_extraction(Some(&e), "请帮忙明天完成报告");
    assert_eq!(tasks.len(), 1);
    assert_eq!(tasks[0].title, "完成报告");
    assert_eq!(tasks[0].due_date, Some("明天".to_string()));
}

#[test]
fn test_ai_returns_empty_for_non_task() {
    let e = ai_extraction("", "", vec![], None, 200, false);
    assert!(tasks_from_extraction(Some(&e), "今天天气真好").is_empty());
}

#[test]
fn test_ai_low_confidence_returns_empty() {
    let e = ai_extraction("可能的任务", "", vec![], None, 300, false);
    assert!(tasks_from_extraction(Some(&e), "请你帮忙检查 API").is_empty());
}

#[test]
fn test_ai_status_update_returns_empty() {
    let e = ai_extraction("", "", vec![], None, 900, true);
    assert!(tasks_from_extraction(Some(&e), "给Lily的邮件已经发送了").is_empty());
}

#[test]
fn test_ai_new_task_with_context() {
    let mut discovery = TaskDiscovery::new();
    discovery.add_pending(PendingTask::new("发邮件给lily", None, TaskSource::Message, TaskPriority::P2, None, "发邮件给lily"));
    let context = discovery.existing_task_context();
    assert_eq!(context.len(), 1);
    assert_eq!(context[0].title, "发邮件给lily");
    assert_eq!(context[0].status, "Pending");
    let e = ai_extraction("写周报", "本周工作总结", vec![], None, 900, false);
    let tasks = tasks_from_extraction(Some(&e), "今天要写周报");
    assert_eq!(tasks.len(), 1);
    assert_eq!(tasks[0].title, "写周报");
    discovery.add_discovered(tasks);
    assert_eq!(discovery.pending_count(), 2);
}

#[test]
fn ancestry_is_a_strict_order_on_a_tree() {
    let all = vec![
        plain_task("gp", "GP", None, vec!["p"]),
        plain_task("p", "P", Some("gp"), vec!["c"]),
        plain_task("c", "C", Some("p"), vec![]),
        plain_task("x", "X", None, vec![]),
    ];
    assert!(!is_ancestor("gp", "gp", &all));
    assert!(is_ancestor("gp", "p", &all) && !is_ancestor("p", "gp", &all));
    assert!(is_ancestor("gp", "p", &all) && is_ancestor("p", "c", &all) && is_ancestor("gp", "c", &all));
    assert!(!is_ancestor("x", "c", &all));
}
