use workbetter::processor::persist::{lcs_length, merged_content, note_has_id, PersistStep};
use workbetter::processor::record::{Category, WorkRecord};

fn make_record(title: &str, category: Category) -> WorkRecord {
    WorkRecord {
        id: "test-001".to_string(),
        created_at_ms: 1780747200000,
        source_event_ids: vec!["evt-1".to_string()],
        title: title.to_string(),
        summary: "Test summary".to_string(),
        detail: "Test detail content that is long enough".to_string(),
        category,
        project: None,
        people: vec![],
        tags: vec![],
        task_status: None,
        task_due_ms: None,
        task_priority: None,
        task_progress: None,
        model_used: "test-model".to_string(),
        confidence_permille: 900,
        needs_review: false,
        obsidian_path: String::new(),
    }
}

#[test]
fn test_generate_path_task() {
    let record = make_record("Fix login bug", Category::Task);
    let path = PersistStep::generate_path(&record).unwrap();
    assert!(path.starts_with("journal/"));
    assert!(path.contains("/task/"));
    assert!(path.ends_with(".md"));
    assert!(path.contains("Fix-login-bug"));
    assert_eq!(path, "journal/2026-06-06/task/Fix-login-bug.md");
}

#[test]
fn test_generate_path_meeting() {
    let record = make_record("Weekly Standup", Category::Meeting);
    let path = PersistStep::generate_path(&record).unwrap();
    assert!(path.contains("/meeting/"));
}

#[test]
fn test_sanitize_filename_special_chars() {
    assert_eq!(PersistStep::sanitize_filename("file/name:test*?"), "file-name-test");
}

#[test]
fn test_sanitize_filename_spaces() {
    assert_eq!(PersistStep::sanitize_filename("hello world"), "hello-world");
}

#[test]
fn test_title_similarity_identical() {
    assert_eq!(PersistStep::title_similarity("hello", "hello"), (1, 1));
}

#[test]
fn test_title_similarity_case_insensitive() {
    assert_eq!(PersistStep::title_similarity("Hello", "hello"), (1, 1));
}

#[test]
fn test_title_similarity_completely_different() {
    let (n, d) = PersistStep::title_similarity("abcdef", "uvwxyz");
    assert!(2 * n < d);
}

#[test]
fn test_title_similarity_similar_tasks() {
    let (n, d) = PersistStep::title_similarity("Fix-login-bug", "Fix-login-bug-again");
    assert!(10 * n >= 6 * d, "similarity {}/{} should be >= 0.6", n, d);
}

#[test]
fn lcs_of_known_strings() {
    let a: Vec<char> = "ABCBDAB".chars().collect();
    let b: Vec<char> = "BDCABA".chars().collect();
    assert_eq!(lcs_length(&a, &b), 4);
    assert_eq!(lcs_length(&a, &[]), 0);
}

#[test]
fn find_similar_picks_first_best_duplicate() {
    let cands = vec!["Weekly-sync".to_string(), "Fix-login-bug".to_string(), "fix-login-bug".to_string()];
    assert_eq!(PersistStep::find_similar("Fix-login-bug", &cands), Some(1));
    assert_eq!(PersistStep::find_similar("Totally-else", &cands), None);
}

#[test]
fn merge_adds_events_and_status() {
    let note = "---\nid: x\n---\n\n# T\n";
    let merged = merged_content(note, &["evt-1".to_string(), "evt-2".to_string()], Some("done"));
    assert!(merged.contains("evt-1"));
    assert!(merged.contains("evt-2"));
    assert!(merged.contains("task_status: done"));
    assert_eq!(merged, "---\nid: x\ntask_status: done\n---\n\n# T\n\n---\n**来源事件:**\n- `evt-2`\n- `evt-1`\n");
    let again = merged_content(&merged, &["evt-1".to_string()], Some("archived"));
    assert_eq!(again.matches("evt-1").count(), 1);
    assert!(again.contains("task_status: archived") && !again.contains("task_status: done"));
}

#[test]
fn merge_into_existing_uses_record() {
    let mut record = make_record("T", Category::Task);
    record.task_status = Some("in_progress".into());
    let merged = PersistStep::merge_into_existing("---\n\n", &record);
    assert_eq!(merged, "task_status: in_progress\n---\n\n\n---\n**来源事件:**\n- `evt-1`\n");
}

#[test]
fn note_has_id_reads_trimmed_front_matter_lines() {
    let note = "---\r\n  id: rec-7  \r\ntitle: x\n---\n\nbody id: rec-8\n";
    assert!(note_has_id(note, "rec-7"));
    assert!(!note_has_id(note, "rec-8"));
    assert!(!note_has_id(note, "rec"));
    assert!(!note_has_id("", "rec-7"));
}

#[test]
fn title_similarity_is_symmetric_and_at_most_one() {
    let ab = PersistStep::title_similarity("Weekly sync", "weekly synch notes");
    let ba = PersistStep::title_similarity("weekly synch notes", "Weekly sync");
    assert_eq!(ab, ba);
    assert_eq!(ab, (11, 18));
    assert!(ab.0 <= ab.1);
}
