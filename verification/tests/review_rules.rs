use workbetter::processor::record::{Category, WorkRecord};
use workbetter::processor::review_rules::{
    CategoryConsistencyRule, ConfidenceThresholdRule, ContentLengthRule, RequiredFieldsRule, ReviewRule,
};
fn make_record(confidence_permille: u32) -> WorkRecord {
    WorkRecord {
        id: "rec-1".to_string(),
        created_at_ms: 0,
        source_event_ids: vec!["evt-1".to_string()],
        title: "Test Title".to_string(),
        summary: "Test summary with enough content".to_string(),
        detail: "Detail content that is long enough to pass the length check".to_string(),
        category: Category::Task,
        project: None,
        people: vec![],
        tags: vec![],
        task_status: None,
        task_due_ms: None,
        task_priority: None,
        task_progress: None,
        model_used: "gpt-4".to_string(),
        confidence_permille,
        needs_review: false,
        obsidian_path: String::new(),
    }
}

// --- RequiredFieldsRule ---

#[test]
fn test_required_fields_passes_with_valid_record() {
    let rule = RequiredFieldsRule;
    let record = make_record(900);
    assert!(rule.check(&record).is_none());
}

#[test]
fn test_required_fields_fails_on_empty_title() {
    let rule = RequiredFieldsRule;
    let mut record = make_record(900);
    record.title = String::new();
    let issue = rule.check(&record).unwrap();
    assert_eq!(issue.issue_type, "missing_field");
    assert_eq!(issue.severity, "critical");
    assert!(issue.description.contains("title"));
}

#[test]
fn test_required_fields_fails_on_empty_summary() {
    let rule = RequiredFieldsRule;
    let mut record = make_record(900);
    record.summary = "  ".to_string();
    let issue = rule.check(&record).unwrap();
    assert!(issue.description.contains("summary"));
}

#[test]
fn test_required_fields_fails_on_empty_detail() {
    let rule = RequiredFieldsRule;
    let mut record = make_record(900);
    record.detail = String::new();
    let issue = rule.check(&record).unwrap();
    assert!(issue.description.contains("detail"));
}

#[test]
fn test_required_fields_fails_on_all_empty() {
    let rule = RequiredFieldsRule;
    let mut record = make_record(900);
    record.title = String::new();
    record.summary = String::new();
    record.detail = String::new();
    let issue = rule.check(&record).unwrap();
    assert!(issue.description.contains("title"));
    assert!(issue.description.contains("summary"));
    assert!(issue.description.contains("detail"));
}

// --- ConfidenceThresholdRule ---

#[test]
fn test_confidence_threshold_passes_above() {
    let rule = ConfidenceThresholdRule::default();
    let record = make_record(700);
    assert!(rule.check(&record).is_none());
}

#[test]
fn test_confidence_threshold_fails_below() {
    let rule = ConfidenceThresholdRule::default();
    let record = make_record(300);
    let issue = rule.check(&record).unwrap();
    assert_eq!(issue.issue_type, "low_confidence");
    assert_eq!(issue.severity, "high");
}

#[test]
fn test_confidence_threshold_at_boundary() {
    let rule = ConfidenceThresholdRule::default();
    let record = make_record(600);
    assert!(rule.check(&record).is_none(), "0.6 should not trigger (threshold is < 0.6)");
}

// --- ContentLengthRule ---

#[test]
fn test_content_length_passes() {
    let rule = ContentLengthRule::default();
    let record = make_record(900);
    assert!(rule.check(&record).is_none());
}

#[test]
fn test_content_length_fails_short_detail() {
    let rule = ContentLengthRule::default();
    let mut record = make_record(900);
    record.detail = "short".to_string();
    let issue = rule.check(&record).unwrap();
    assert_eq!(issue.issue_type, "format_error");
    assert_eq!(issue.severity, "medium");
}

// --- CategoryConsistencyRule ---

#[test]
fn test_category_consistency_task_with_status() {
    let rule = CategoryConsistencyRule;
    let mut record = make_record(900);
    record.task_status = Some("in_progress".to_string());
    assert!(rule.check(&record).is_none());
}

#[test]
fn test_category_consistency_task_without_status() {
    let rule = CategoryConsistencyRule;
    let record = make_record(900);
    let issue = rule.check(&record).unwrap();
    assert_eq!(issue.issue_type, "invalid_state");
    assert_eq!(issue.severity, "medium");
}

#[test]
fn test_category_consistency_non_task_with_status() {
    let rule = CategoryConsistencyRule;
    let mut record = make_record(900);
    record.category = Category::Meeting;
    record.task_status = Some("done".to_string());
    let issue = rule.check(&record).unwrap();
    assert_eq!(issue.issue_type, "invalid_state");
    assert_eq!(issue.severity, "low");
}

#[test]
fn test_category_consistency_non_task_without_status() {
    let rule = CategoryConsistencyRule;
    let mut record = make_record(900);
    record.category = Category::Meeting;
    assert!(rule.check(&record).is_none());
}

#[test]
fn required_fields_lists_missing_in_order() {
    let mut record = make_record(900);
    record.title = String::new();
    record.detail = " ".to_string();
    let issue = RequiredFieldsRule.check(&record).unwrap();
    assert_eq!(issue.description, "Required fields are empty: title, detail");
    assert_eq!(issue.suggestion, "Ensure the AI extraction populates: title, detail");
}

#[test]
fn confidence_message_has_two_decimals() {
    let issue = ConfidenceThresholdRule::default().check(&make_record(300)).unwrap();
    assert_eq!(issue.description, "Confidence 0.30 is below threshold 0.60");
}

#[test]
fn content_length_counts_bytes() {
    let mut record = make_record(900);
    record.detail = "短内容".to_string();
    let issue = ContentLengthRule::default().check(&record);
    assert!(issue.is_some(), "9 bytes is below 10");
    record.detail = "四个汉字".to_string();
    assert!(ContentLengthRule::default().check(&record).is_none(), "12 bytes passes");
    let mut r2 = make_record(900);
    r2.detail = "short".to_string();
    assert_eq!(ContentLengthRule::default().check(&r2).unwrap().description, "Detail content is too short (5 chars, minimum 10)");
}

#[test]
fn category_consistency_names_category() {
    let mut record = make_record(900);
    record.category = Category::Meeting;
    record.task_status = Some("done".to_string());
    let issue = CategoryConsistencyRule.check(&record).unwrap();
    assert_eq!(issue.description, "Category is Meeting but task_status is set");
}

#[test]
fn rule_names() {
    assert_eq!(RequiredFieldsRule.name(), "required_fields");
    assert_eq!(ConfidenceThresholdRule::default().name(), "confidence_threshold");
    assert_eq!(ContentLengthRule::default().name(), "content_length");
    assert_eq!(CategoryConsistencyRule.name(), "category_consistency");
}
