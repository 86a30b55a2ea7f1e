use workbetter::processor::audit_pipeline::{AuditFilter, AuditPipeline, AuditStep, ProcessingAudit};
use workbetter::processor::record::ReviewVerdict;

fn make_audit(trace_id: &str, step: AuditStep, confidence_permille: u32) -> ProcessingAudit {
    ProcessingAudit {
        event_id: "evt-1".to_string(),
        record_id: Some("rec-1".to_string()),
        trace_id: trace_id.to_string(),
        step,
        timestamp_ms: 1780747200000,
        duration_ms: 100,
        model: "mock".to_string(),
        model_version: "v1".to_string(),
        prompt_id: "p1".to_string(),
        prompt_params: "{}".to_string(),
        input_summary: "test input".to_string(),
        output: "{}".to_string(),
        confidence_permille,
        token_input: 100,
        token_output: 50,
        cost_estimate_micros: 10000,
        upgrade_reason: None,
        previous_model: None,
        review_verdict: None,
        review_issues: None,
        user_action: None,
        user_correction: None,
    }
}

#[test]
fn test_new_is_empty() {
    let pipeline = AuditPipeline::new();
    assert!(pipeline.is_empty());
    assert_eq!(pipeline.len(), 0);
}

#[test]
fn test_push_and_all() {
    let mut pipeline = AuditPipeline::new();
    pipeline.push(make_audit("t1", AuditStep::Classifier, 900));
    pipeline.push(make_audit("t1", AuditStep::Extract, 800));
    assert_eq!(pipeline.len(), 2);
    assert_eq!(pipeline.all().len(), 2);
}

#[test]
fn test_record_simplified() {
    let mut pipeline = AuditPipeline::new();
    pipeline.record("Extract", "trace-abc", "extracted entities".to_string());
    assert_eq!(pipeline.len(), 1);
    let all = pipeline.all();
    assert_eq!(all[0].trace_id, "trace-abc");
    assert_eq!(all[0].step, AuditStep::Extract);
    assert_eq!(all[0].input_summary, "extracted entities");
}

#[test]
fn test_record_unknown_step_defaults_to_classifier() {
    let mut pipeline = AuditPipeline::new();
    pipeline.record("UnknownStep", "t1", "details".to_string());
    assert_eq!(pipeline.all()[0].step, AuditStep::Classifier);
}

#[test]
fn test_trace_filters_by_id() {
    let mut pipeline = AuditPipeline::new();
    pipeline.push(make_audit("t1", AuditStep::Classifier, 900));
    pipeline.push(make_audit("t2", AuditStep::Extract, 800));
    pipeline.push(make_audit("t1", AuditStep::Review, 850));
    let traced = pipeline.trace("t1");
    assert_eq!(traced.len(), 2);
    assert!(traced.iter().all(|r| r.trace_id == "t1"));
}

#[test]
fn test_trace_returns_empty_for_missing() {
    let mut pipeline = AuditPipeline::new();
    pipeline.push(make_audit("t1", AuditStep::Classifier, 900));
    assert!(pipeline.trace("nonexistent").is_empty());
}

#[test]
fn test_query_by_step() {
    let mut pipeline = AuditPipeline::new();
    pipeline.push(make_audit("t1", AuditStep::Classifier, 900));
    pipeline.push(make_audit("t1", AuditStep::Extract, 800));
    pipeline.push(make_audit("t2", AuditStep::Classifier, 700));
    let filter = AuditFilter { step: Some(AuditStep::Classifier), ..Default::default() };
    let results = pipeline.query(filter);
    assert_eq!(results.len(), 2);
    assert!(results.iter().all(|r| r.step == AuditStep::Classifier));
}

#[test]
fn test_query_by_min_confidence() {
    let mut pipeline = AuditPipeline::new();
    pipeline.push(make_audit("t1", AuditStep::Extract, 900));
    pipeline.push(make_audit("t2", AuditStep::Extract, 500));
    pipeline.push(make_audit("t3", AuditStep::Extract, 750));
    let filter = AuditFilter { min_confidence_permille: Some(700), ..Default::default() };
    let results = pipeline.query(filter);
    assert_eq!(results.len(), 2);
}

#[test]
fn test_query_by_trace_id() {
    let mut pipeline = AuditPipeline::new();
    pipeline.push(make_audit("t1", AuditStep::Classifier, 900));
    pipeline.push(make_audit("t2", AuditStep::Classifier, 900));
    let filter = AuditFilter { trace_id: Some("t1".to_string()), ..Default::default() };
    let results = pipeline.query(filter);
    assert_eq!(results.len(), 1);
    assert_eq!(results[0].trace_id, "t1");
}

#[test]
fn test_query_by_review_verdict() {
    let mut pipeline = AuditPipeline::new();
    let mut audit = make_audit("t1", AuditStep::Review, 900);
    audit.review_verdict = Some(ReviewVerdict::Approved);
    pipeline.push(audit);
    let mut audit2 = make_audit("t2", AuditStep::Review, 500);
    audit2.review_verdict = Some(ReviewVerdict::NeedsFix("missing title".to_string()));
    pipeline.push(audit2);
    let filter = AuditFilter { has_review_verdict: Some(ReviewVerdict::Approved), ..Default::default() };
    let results = pipeline.query(filter);
    assert_eq!(results.len(), 1);
}

#[test]
fn test_query_combined_filters() {
    let mut pipeline = AuditPipeline::new();
    pipeline.push(make_audit("t1", AuditStep::Extract, 900));
    pipeline.push(make_audit("t1", AuditStep::Classifier, 950));
    pipeline.push(make_audit("t2", AuditStep::Extract, 900));
    let filter = AuditFilter { step: Some(AuditStep::Extract), trace_id: Some("t1".to_string()), ..Default::default() };
    let results = pipeline.query(filter);
    assert_eq!(results.len(), 1);
    assert_eq!(results[0].step, AuditStep::Extract);
    assert_eq!(results[0].trace_id, "t1");
}

#[test]
fn test_query_no_filters_returns_all() {
    let mut pipeline = AuditPipeline::new();
    pipeline.push(make_audit("t1", AuditStep::Classifier, 900));
    pipeline.push(make_audit("t2", AuditStep::Extract, 800));
    let results = pipeline.query(AuditFilter::default());
    assert_eq!(results.len(), 2);
}

#[test]
fn test_trace_count() {
    let mut pipeline = AuditPipeline::new();
    pipeline.push(make_audit("t1", AuditStep::Classifier, 900));
    pipeline.push(make_audit("t1", AuditStep::Extract, 800));
    pipeline.push(make_audit("t2", AuditStep::Classifier, 700));
    assert_eq!(pipeline.trace_count("t1"), 2);
    assert_eq!(pipeline.trace_count("t2"), 1);
    assert_eq!(pipeline.trace_count("t3"), 0);
}

#[test]
fn test_unique_traces() {
    let mut pipeline = AuditPipeline::new();
    pipeline.push(make_audit("t2", AuditStep::Classifier, 900));
    pipeline.push(make_audit("t1", AuditStep::Extract, 800));
    pipeline.push(make_audit("t1", AuditStep::Review, 850));
    let traces = pipeline.unique_traces();
    assert_eq!(traces, vec!["t1", "t2"]);
}

#[test]
fn unique_traces_sorted_by_code_point() {
    let mut pipeline = AuditPipeline::new();
    for t in ["b", "中", "a", "B", "b", "ab"] {
        pipeline.push(make_audit(t, AuditStep::Persist, 0));
    }
    assert_eq!(pipeline.unique_traces(), vec!["B", "a", "ab", "b", "中"]);
}

#[test]
fn query_by_time_and_trace_agrees_with_trace() {
    let mut pipeline = AuditPipeline::new();
    let mut early = make_audit("t1", AuditStep::Extract, 900);
    early.timestamp_ms = 1000;
    pipeline.push(early);
    pipeline.push(make_audit("t1", AuditStep::Review, 900));
    pipeline.push(make_audit("t2", AuditStep::Review, 900));
    let after = AuditFilter { after_ms: Some(2000), ..Default::default() };
    assert_eq!(pipeline.query(after).len(), 2);
    let by_trace = AuditFilter { trace_id: Some("t1".to_string()), ..Default::default() };
    assert_eq!(pipeline.query(by_trace).len(), pipeline.trace("t1").len());
    let fix = AuditFilter { has_review_verdict: Some(ReviewVerdict::NeedsFix("x".to_string())), ..Default::default() };
    assert!(pipeline.query(fix).is_empty());
}
