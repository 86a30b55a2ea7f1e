use workbetter::processor::record::ReviewVerdict;
use workbetter::processor::review::{
    ConfirmRequest, DataScope, LargeModelReview, OutputType, ProcessorOutput, ReviewModel, SmallModelReview,
    TieredReview, UserConfirmPush,
};
// ─── SmallModelReview tests ──────────────────────────────────

fn make_output(output_type: OutputType, content: &str) -> ProcessorOutput {
    ProcessorOutput {
        output_type,
        content: content.to_string(),
        confidence_permille: 900,
        entities: vec![],
    }
}

fn make_output_with_entities(
    output_type: OutputType,
    content: &str,
    entities: Vec<&str>,
) -> ProcessorOutput {
    ProcessorOutput {
        output_type,
        content: content.to_string(),
        confidence_permille: 900,
        entities: entities.into_iter().map(String::from).collect(),
    }
}

#[test]
fn test_small_model_clean_output_approved() {
    let reviewer = SmallModelReview::new();
    let output = make_output(OutputType::Summary, "这是一个正常的摘要内容");
    let result = reviewer.review(&output);
    assert_eq!(result.verdict, ReviewVerdict::Approved);
    assert_eq!(result.reviewer, "small_model");
    assert!(result.issues.is_empty());
}

#[test]
fn test_small_model_contradiction_detected() {
    let reviewer = SmallModelReview::new();
    let output = make_output(OutputType::Summary, "该项目已批准实施，但预算已拒绝");
    let result = reviewer.review(&output);
    assert!(matches!(result.verdict, ReviewVerdict::NeedsFix(_)));
    assert!(result
        .issues
        .iter()
        .any(|i| i.issue_type == "contradiction"));
}

#[test]
fn test_small_model_coverage_below_threshold() {
    let reviewer = SmallModelReview::new();
    let output = make_output_with_entities(
        OutputType::Extraction,
        "只提到了张三",
        vec!["张三", "李四", "王五"],
    );
    let result = reviewer.review(&output);
    // 1/3 = 33% < 50% threshold
    assert!(result.issues.iter().any(|i| i.issue_type == "low_coverage"));
    assert!(matches!(result.verdict, ReviewVerdict::NeedsReview(_)));
}

#[test]
fn test_small_model_coverage_above_threshold() {
    let reviewer = SmallModelReview::new();
    let output = make_output_with_entities(
        OutputType::Summary,
        "张三和李四都参与了讨论",
        vec!["张三", "李四", "王五"],
    );
    let result = reviewer.review(&output);
    // 2/3 = 66% > 50% threshold → no coverage issue
    assert!(!result.issues.iter().any(|i| i.issue_type == "low_coverage"));
}

#[test]
fn test_small_model_custom_coverage_threshold() {
    let reviewer = SmallModelReview::new().with_min_coverage(900);
    let output = make_output_with_entities(
        OutputType::Summary,
        "张三和李四参与",
        vec!["张三", "李四", "王五"],
    );
    let result = reviewer.review(&output);
    // 2/3 = 66% < 90% → triggers
    assert!(result.issues.iter().any(|i| i.issue_type == "low_coverage"));
}

#[test]
fn test_small_model_no_entities_skips_coverage() {
    let reviewer = SmallModelReview::new();
    let output = make_output(OutputType::Summary, "普通摘要");
    let result = reviewer.review(&output);
    assert!(result.verdict == ReviewVerdict::Approved);
    assert!(!result.issues.iter().any(|i| i.issue_type == "low_coverage"));
}

// ─── LargeModelReview tests ──────────────────────────────────

#[test]
fn test_large_model_deep_analysis_approved() {
    let reviewer = LargeModelReview::new();
    let output = make_output(
        OutputType::Analysis,
        "背景：项目进入二期。原因：需求变更。影响：工期延长。建议：调整计划。结论：需增加资源。",
    );
    let result = reviewer.review(&output);
    assert_eq!(result.verdict, ReviewVerdict::Approved);
    assert_eq!(result.reviewer, "large_model");
}

#[test]
fn test_large_model_shallow_analysis() {
    let reviewer = LargeModelReview::new();
    let output = make_output(OutputType::Analysis, "太短了");
    let result = reviewer.review(&output);
    // shallow + no dimensions
    assert!(result
        .issues
        .iter()
        .any(|i| i.issue_type == "shallow_analysis"));
    assert!(result
        .issues
        .iter()
        .any(|i| i.issue_type == "missing_dimensions"));
}

#[test]
fn test_large_model_missing_dimensions() {
    let reviewer = LargeModelReview::new();
    let output = make_output(
        OutputType::Report,
        "这是一段足够长的报告内容，但没有覆盖任何标准分析维度，只是在描述一些事实而已",
    );
    let result = reviewer.review(&output);
    assert!(result
        .issues
        .iter()
        .any(|i| i.issue_type == "missing_dimensions"));
    assert!(matches!(result.verdict, ReviewVerdict::NeedsFix(_)));
}

#[test]
fn test_large_model_custom_depth() {
    let reviewer = LargeModelReview::new().with_min_depth_length(200);
    let output = make_output(
        OutputType::Analysis,
        "原因：预算不足。影响：项目延期。建议：追加预算。",
    );
    let result = reviewer.review(&output);
    // 有维度覆盖但长度不够 → medium severity → NeedsReview
    assert!(result
        .issues
        .iter()
        .any(|i| i.issue_type == "shallow_analysis"));
    assert!(matches!(result.verdict, ReviewVerdict::NeedsReview(_)));
}

// ─── TieredReview tests ──────────────────────────────────────

#[test]
fn test_tiered_review_routes_summary_to_small() {
    let tiered = TieredReview::default_config();
    let output = make_output(OutputType::Summary, "正常摘要");
    let result = tiered.review(&output);
    assert_eq!(result.reviewer, "small_model");
}

#[test]
fn test_tiered_review_routes_extraction_to_small() {
    let tiered = TieredReview::default_config();
    let output = make_output(OutputType::Extraction, "正常提取");
    let result = tiered.review(&output);
    assert_eq!(result.reviewer, "small_model");
}

#[test]
fn test_tiered_review_routes_analysis_to_large() {
    let tiered = TieredReview::default_config();
    let output = make_output(
        OutputType::Analysis,
        "背景：项目进入二期。原因：需求变更。影响：工期延长。建议：调整计划。结论：需增加资源。",
    );
    let result = tiered.review(&output);
    assert_eq!(result.reviewer, "large_model");
}

#[test]
fn test_tiered_review_routes_report_to_large() {
    let tiered = TieredReview::default_config();
    let output = make_output(
        OutputType::Report,
        "背景：项目进入二期。原因：需求变更。影响：工期延长。建议：调整计划。结论：需增加资源。",
    );
    let result = tiered.review(&output);
    assert_eq!(result.reviewer, "large_model");
}

#[test]
fn test_tiered_review_summary_contradiction() {
    let tiered = TieredReview::default_config();
    let output = make_output(OutputType::Summary, "该项目已批准实施，但预算已拒绝");
    let result = tiered.review(&output);
    assert!(matches!(result.verdict, ReviewVerdict::NeedsFix(_)));
    assert_eq!(result.reviewer, "small_model");
}

#[test]
fn test_tiered_review_analysis_shallow() {
    let tiered = TieredReview::default_config();
    let output = make_output(OutputType::Analysis, "短");
    let result = tiered.review(&output);
    assert_eq!(result.reviewer, "large_model");
    assert!(!result.issues.is_empty());
}

// ─── UserConfirmPush tests ───────────────────────────────────

#[test]
fn test_data_scope_private_no_confirm() {
    let pusher = UserConfirmPush::new();
    assert!(!pusher.should_confirm(&DataScope::Private));
}

#[test]
fn test_data_scope_shared_needs_confirm() {
    let pusher = UserConfirmPush::new();
    assert!(pusher.should_confirm(&DataScope::Shared));
}

#[test]
fn test_data_scope_external_needs_confirm() {
    let pusher = UserConfirmPush::new();
    assert!(pusher.should_confirm(&DataScope::External));
}

#[test]
fn test_push_private_scope_auto_passes() {
    let mut pusher = UserConfirmPush::new();
    let request = ConfirmRequest {
        id: "req-1".to_string(),
        content: "test".to_string(),
        reason: "test".to_string(),
        data_scope: DataScope::Private,
        created_at: "2026-01-01".to_string(),
    };
    pusher.push(request).unwrap();
    // Private 范围不应进入 pending
    assert_eq!(pusher.pending_count(), 0);
}

#[test]
fn test_push_shared_scope_enters_pending() {
    let mut pusher = UserConfirmPush::new();
    let request = ConfirmRequest {
        id: "req-2".to_string(),
        content: "shared data".to_string(),
        reason: "涉及共享数据".to_string(),
        data_scope: DataScope::Shared,
        created_at: "2026-01-01".to_string(),
    };
    pusher.push(request).unwrap();
    assert_eq!(pusher.pending_count(), 1);
}

#[test]
fn test_push_external_scope_enters_pending() {
    let mut pusher = UserConfirmPush::new();
    let request = ConfirmRequest {
        id: "req-3".to_string(),
        content: "external data".to_string(),
        reason: "涉及外部系统".to_string(),
        data_scope: DataScope::External,
        created_at: "2026-01-01".to_string(),
    };
    pusher.push(request).unwrap();
    assert_eq!(pusher.pending_count(), 1);
}

#[test]
fn test_push_duplicate_id_errors() {
    let mut pusher = UserConfirmPush::new();
    let request = ConfirmRequest {
        id: "req-dup".to_string(),
        content: "test".to_string(),
        reason: "test".to_string(),
        data_scope: DataScope::Shared,
        created_at: "2026-01-01".to_string(),
    };
    pusher.push(request.clone()).unwrap();
    let err = pusher.push(request).unwrap_err();
    assert!(err.to_string().contains("已存在"));
}

#[test]
fn review_test_confirm_removes_from_pending() {
    let mut pusher = UserConfirmPush::new();
    let request = ConfirmRequest {
        id: "req-c".to_string(),
        content: "test".to_string(),
        reason: "test".to_string(),
        data_scope: DataScope::Shared,
        created_at: "2026-01-01".to_string(),
    };
    pusher.push(request).unwrap();
    assert_eq!(pusher.pending_count(), 1);

    pusher.confirm("req-c").unwrap();
    assert_eq!(pusher.pending_count(), 0);
}

#[test]
fn review_test_reject_removes_from_pending() {
    let mut pusher = UserConfirmPush::new();
    let request = ConfirmRequest {
        id: "req-r".to_string(),
        content: "test".to_string(),
        reason: "test".to_string(),
        data_scope: DataScope::External,
        created_at: "2026-01-01".to_string(),
    };
    pusher.push(request).unwrap();
    assert_eq!(pusher.pending_count(), 1);

    pusher.reject("req-r").unwrap();
    assert_eq!(pusher.pending_count(), 0);
}

#[test]
fn test_confirm_nonexistent_errors() {
    let mut pusher = UserConfirmPush::new();
    let err = pusher.confirm("nonexistent").unwrap_err();
    assert!(err.to_string().contains("不存在"));
}

#[test]
fn test_reject_nonexistent_errors() {
    let mut pusher = UserConfirmPush::new();
    let err = pusher.reject("nonexistent").unwrap_err();
    assert!(err.to_string().contains("不存在"));
}

#[test]
fn test_pending_returns_all_requests() {
    let mut pusher = UserConfirmPush::new();
    pusher
        .push(ConfirmRequest {
            id: "a".to_string(),
            content: "a".to_string(),
            reason: "a".to_string(),
            data_scope: DataScope::Shared,
            created_at: "2026-01-01".to_string(),
        })
        .unwrap();
    pusher
        .push(ConfirmRequest {
            id: "b".to_string(),
            content: "b".to_string(),
            reason: "b".to_string(),
            data_scope: DataScope::External,
            created_at: "2026-01-01".to_string(),
        })
        .unwrap();

    let pending = pusher.pending();
    assert_eq!(pending.len(), 2);
    let ids: Vec<&str> = pending.iter().map(|r| r.id.as_str()).collect();
    assert!(ids.contains(&"a"));
    assert!(ids.contains(&"b"));
}

#[test]
fn test_pending_count_after_operations() {
    let mut pusher = UserConfirmPush::new();
    assert_eq!(pusher.pending_count(), 0);

    pusher
        .push(ConfirmRequest {
            id: "x".to_string(),
            content: "x".to_string(),
            reason: "x".to_string(),
            data_scope: DataScope::Shared,
            created_at: "2026-01-01".to_string(),
        })
        .unwrap();
    pusher
        .push(ConfirmRequest {
            id: "y".to_string(),
            content: "y".to_string(),
            reason: "y".to_string(),
            data_scope: DataScope::External,
            created_at: "2026-01-01".to_string(),
        })
        .unwrap();
    assert_eq!(pusher.pending_count(), 2);

    pusher.confirm("x").unwrap();
    assert_eq!(pusher.pending_count(), 1);

    pusher.reject("y").unwrap();
    assert_eq!(pusher.pending_count(), 0);
}
