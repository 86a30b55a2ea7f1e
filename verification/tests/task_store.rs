use workbetter::processor::task::manager::TaskManager;
use workbetter::processor::task::model::{TaskFilter, TaskPriority, TaskSource, TaskStatus, TaskUpdate};

fn mgr() -> TaskManager {
    TaskManager::new()
}

#[test]
fn test_create_task() {
    let mut m = mgr();
    let task = m.create("Test", TaskPriority::P1, TaskSource::Manual).unwrap();
    assert_eq!(task.title, "Test");
    assert_eq!(task.status, TaskStatus::Open);
}

#[test]
fn test_create_auto_discovered_is_pending() {
    let mut m = mgr();
    let task = m.create("Auto", TaskPriority::P2, TaskSource::Meeting).unwrap();
    assert_eq!(task.status, TaskStatus::Pending);
}

#[test]
fn test_get_existing() {
    let mut m = mgr();
    let created = m.create("T", TaskPriority::P2, TaskSource::Manual).unwrap();
    let fetched = m.get(&created.id).unwrap();
    assert!(fetched.is_some());
    assert_eq!(fetched.unwrap().title, "T");
}

#[test]
fn test_get_nonexistent() {
    let m = mgr();
    let result = m.get("no-such-id").unwrap();
    assert!(result.is_none());
}

#[test]
fn test_update_title() {
    let mut m = mgr();
    let task = m.create("Old", TaskPriority::P2, TaskSource::Manual).unwrap();
    let updated = m
        .update(&task.id, TaskUpdate { title: Some("New".into()), ..TaskUpdate::default() })
        .unwrap();
    assert_eq!(updated.title, "New");
}

#[test]
fn test_update_nonexistent() {
    let mut m = mgr();
    let result = m.update("bad", TaskUpdate { title: Some("X".into()), ..TaskUpdate::default() });
    assert!(result.is_err());
}

#[test]
fn test_transition_open_to_in_progress() {
    let mut m = mgr();
    let task = m.create("T", TaskPriority::P2, TaskSource::Manual).unwrap();
    let t = m.transition(&task.id, TaskStatus::InProgress).unwrap();
    assert_eq!(t.status, TaskStatus::InProgress);
}

#[test]
fn test_transition_rejected() {
    let mut m = mgr();
    let task = m.create("T", TaskPriority::P2, TaskSource::Manual).unwrap();
    let result = m.transition(&task.id, TaskStatus::Done);
    assert!(result.is_err());
}

#[test]
fn test_transition_nonexistent() {
    let mut m = mgr();
    let result = m.transition("bad", TaskStatus::InProgress);
    assert!(result.is_err());
}

#[test]
fn test_archive_full_flow() {
    let mut m = mgr();
    let task = m.create("T", TaskPriority::P2, TaskSource::Manual).unwrap();
    let id = task.id.clone();
    m.transition(&id, TaskStatus::InProgress).unwrap();
    m.transition(&id, TaskStatus::Done).unwrap();
    let archived = m.archive(&id).unwrap();
    assert_eq!(archived.status, TaskStatus::Archived);
}

#[test]
fn test_archive_fails_from_open() {
    let mut m = mgr();
    let task = m.create("T", TaskPriority::P2, TaskSource::Manual).unwrap();
    assert!(m.archive(&task.id).is_err());
}

#[test]
fn test_add_subtask() {
    let mut m = mgr();
    let parent = m.create("Parent", TaskPriority::P1, TaskSource::Manual).unwrap();
    let child = m.add_subtask(&parent.id, "Child").unwrap();

    assert_eq!(child.parent_id, Some(parent.id.clone()));
    assert_eq!(child.priority, TaskPriority::P1);

    let parent = m.get(&parent.id).unwrap().unwrap();
    assert_eq!(parent.children_ids.len(), 1);
    assert_eq!(parent.children_ids[0], child.id);
}

#[test]
fn test_add_subtask_to_nonexistent() {
    let mut m = mgr();
    assert!(m.add_subtask("bad", "Child").is_err());
}

#[test]
fn test_list_by_status() {
    let mut m = mgr();
    m.create("A", TaskPriority::P2, TaskSource::Manual).unwrap();
    m.create("B", TaskPriority::P2, TaskSource::Manual).unwrap();
    m.create("C", TaskPriority::P2, TaskSource::Meeting).unwrap();

    let open = m.list_by_status(TaskStatus::Open).unwrap();
    assert_eq!(open.len(), 2);

    let pending = m.list_by_status(TaskStatus::Pending).unwrap();
    assert_eq!(pending.len(), 1);
}

#[test]
fn test_list_filter_by_priority() {
    let mut m = mgr();
    m.create("A", TaskPriority::P0, TaskSource::Manual).unwrap();
    m.create("B", TaskPriority::P1, TaskSource::Manual).unwrap();
    m.create("C", TaskPriority::P0, TaskSource::Manual).unwrap();

    let p0 = m.list(TaskFilter { priority: Some(TaskPriority::P0), ..TaskFilter::default() }).unwrap();
    assert_eq!(p0.len(), 2);
}

#[test]
fn test_list_filter_by_source() {
    let mut m = mgr();
    m.create("A", TaskPriority::P2, TaskSource::Manual).unwrap();
    m.create("B", TaskPriority::P2, TaskSource::Feishu).unwrap();

    let manual = m.list(TaskFilter { source: Some(TaskSource::Manual), ..TaskFilter::default() }).unwrap();
    assert_eq!(manual.len(), 1);
    assert_eq!(manual[0].source, TaskSource::Manual);
}

#[test]
fn test_list_filter_by_parent_id() {
    let mut m = mgr();
    let parent = m.create("Parent", TaskPriority::P2, TaskSource::Manual).unwrap();
    m.add_subtask(&parent.id, "Child").unwrap();
    m.create("Orphan", TaskPriority::P2, TaskSource::Manual).unwrap();

    let children = m.list(TaskFilter { parent_id: Some(Some(parent.id)), ..TaskFilter::default() }).unwrap();
    assert_eq!(children.len(), 1);

    let roots = m.list(TaskFilter { parent_id: Some(None), ..TaskFilter::default() }).unwrap();
    assert_eq!(roots.len(), 2);
}

#[test]
fn test_list_combined_filter() {
    let mut m = mgr();
    m.create("A", TaskPriority::P0, TaskSource::Manual).unwrap();
    m.create("B", TaskPriority::P0, TaskSource::Manual).unwrap();
    m.create("C", TaskPriority::P1, TaskSource::Manual).unwrap();

    let result = m
        .list(TaskFilter { status: Some(TaskStatus::Open), priority: Some(TaskPriority::P0), ..TaskFilter::default() })
        .unwrap();
    assert_eq!(result.len(), 2);
}

#[test]
fn test_list_empty() {
    let m = mgr();
    let all = m.list(TaskFilter::default()).unwrap();
    assert!(all.is_empty());
}

#[test]
fn get_reads_back_the_last_write() {
    let mut m = mgr();
    let a = m.create("A", TaskPriority::P2, TaskSource::Manual).unwrap();
    let b = m.create("B", TaskPriority::P3, TaskSource::Manual).unwrap();
    let updated = m
        .update(&a.id, TaskUpdate { title: Some("A2".into()), priority: Some(TaskPriority::P0), ..TaskUpdate::default() })
        .unwrap();
    let read = m.get(&a.id).unwrap().unwrap();
    assert_eq!(read.title, updated.title);
    assert_eq!(read.priority, TaskPriority::P0);
    assert_eq!(read.updated_at, updated.updated_at);
    let other = m.get(&b.id).unwrap().unwrap();
    assert_eq!(other.title, "B");
    assert_eq!(other.priority, TaskPriority::P3);
}
