use workbetter::processor::classifier::ProcessingRoute;
use workbetter::processor::event::{Confidence, Event, EventContent, EventType};
use workbetter::processor::extraction::{Extraction, RawFields};
use workbetter::processor::pipeline::{
    ModelOutput, PipelineAction, PipelineReply, PipelineRun, ProcessingPipeline, Stage, StepTimings,
};
use workbetter::processor::record::{Category, ReviewVerdict};

fn event(confidence: Confidence, event_type: EventType, text: Option<&str>, title: Option<&str>, json: &str) -> Event {
    Event {
        id: "evt-42".to_string(),
        source_confidence: confidence,
        event_type,
        content: EventContent::Object {
            text: text.map(String::from),
            title: title.map(String::from),
            subject: None,
            json: json.to_string(),
        },
    }
}

fn empty_raw() -> RawFields {
    RawFields {
        title: None,
        summary: None,
        detail: None,
        people: None,
        tags: None,
        project: None,
        confidence_permille: None,
        due_date: None,
    }
}

fn extraction(title: &str, confidence_permille: u32) -> Extraction {
    Extraction {
        title: title.to_string(),
        summary: "Summary of the work".to_string(),
        detail: "A detail long enough for the length rule".to_string(),
        people: vec![],
        tags: vec![],
        project: None,
        due_date: None,
        confidence_permille,
        is_status_update: false,
        related_task_id: None,
    }
}

fn output(e: Extraction) -> ModelOutput {
    ModelOutput { content: "{}".to_string(), model_used: "mock-small".to_string(), parsed: Some(e), raw: empty_raw() }
}

/// Runs the pipeline, answering each action from the script in turn;
/// persistence and indexing are always answered as done.
fn drive(p: &mut ProcessingPipeline, e: Event, mut script: Vec<PipelineReply>) -> (PipelineRun, Vec<String>) {
    let (mut run, mut action) = p.begin(e);
    let mut seen = Vec::new();
    loop {
        let reply = match &action {
            PipelineAction::Finish => break,
            PipelineAction::Persist => {
                seen.push("persist".to_string());
                PipelineReply::Persisted
            },
            PipelineAction::Index => {
                seen.push("index".to_string());
                PipelineReply::Indexed
            },
            other => {
                seen.push(format!("{:?}", other).split(|c: char| c == ' ' || c == '{').next().unwrap().to_string());
                script.remove(0)
            },
        };
        action = p.step(&mut run, reply);
    }
    (run, seen)
}

#[test]
fn archive_route_skips_the_model() {
    let mut p = ProcessingPipeline::new();
    let e = event(Confidence::Low, EventType::AppActivity, None, None, r#"{"app":"Safari"}"#);
    let (run, seen) = drive(&mut p, e, vec![]);
    assert_eq!(run.route, ProcessingRoute::Archive);
    let record = run.record.clone().unwrap();
    assert_eq!(record.model_used, "archive-skip");
    assert_eq!(record.summary, "Auto-archived event");
    assert_eq!(record.confidence_permille, 400);
    assert_eq!(record.category, Category::Research);
    assert_eq!(record.source_event_ids, vec!["evt-42".to_string()]);
    assert!(!seen.contains(&"Classify".to_string()));
    assert!(!seen.contains(&"Extract".to_string()));
    assert_eq!(run.stage, Stage::Done);
}

#[test]
fn model_category_overrides_the_rule_route() {
    let mut p = ProcessingPipeline::new();
    // A message without a mention: the rules say aggregate.
    let e = event(Confidence::Medium, EventType::Message, Some("今天天气不错"), None, "{}");
    let (run, seen) = drive(
        &mut p,
        e,
        vec![
            PipelineReply::Classified(Some("task".to_string())),
            PipelineReply::Extracted(Some(output(extraction("天气", 900)))),
            PipelineReply::Discovered(None),
        ],
    );
    assert_eq!(run.rule_route, ProcessingRoute::Aggregate);
    assert_eq!(run.route, ProcessingRoute::Instant);
    assert_eq!(seen[0], "Classify");
    assert_eq!(seen[1], "Extract");
    assert_eq!(seen[2], "Discover");
}

#[test]
fn failed_model_falls_back_to_rules_and_event_text() {
    let mut p = ProcessingPipeline::new();
    let e = event(Confidence::High, EventType::TaskUpdate, None, Some("Test fallback"), r#"{"title":"Test fallback"}"#);
    let (run, _) = drive(&mut p, e, vec![PipelineReply::Classified(None), PipelineReply::Extracted(None)]);
    assert_eq!(run.route, ProcessingRoute::Instant);
    let record = run.record.unwrap();
    assert_eq!(record.model_used, "extract-fallback");
    assert_eq!(record.confidence_permille, 700);
    assert_eq!(record.title, "Test fallback");
}

#[test]
fn needs_fix_is_not_persisted() {
    let mut p = ProcessingPipeline::new();
    let e = event(Confidence::High, EventType::TaskUpdate, None, None, r#"{"status":"done"}"#);
    let (run, seen) = drive(
        &mut p,
        e,
        vec![PipelineReply::Classified(Some("task".to_string())), PipelineReply::Extracted(Some(output(extraction("", 300))))],
    );
    assert!(matches!(run.review.clone().unwrap().verdict, ReviewVerdict::NeedsFix(_)));
    assert!(!seen.contains(&"persist".to_string()));
}

#[test]
fn approved_record_is_persisted_with_a_path() {
    let mut p = ProcessingPipeline::new();
    let e = event(Confidence::High, EventType::Meeting, None, Some("Sync"), "{}");
    let (run, seen) = drive(
        &mut p,
        e,
        vec![PipelineReply::Classified(Some("meeting".to_string())), PipelineReply::Extracted(Some(output(extraction("周会", 900))))],
    );
    assert_eq!(run.record.as_ref().unwrap().category, Category::Meeting);
    assert!(!matches!(run.review.clone().unwrap().verdict, ReviewVerdict::NeedsFix(_)));
    assert_eq!(seen.last().unwrap(), "persist");
    assert!(run.record.as_ref().unwrap().obsidian_path.starts_with("journal/"));
    let result = run.into_result(12, StepTimings::default()).unwrap();
    assert_eq!(result.processing_time_ms, 12);
    assert_eq!(result.route, ProcessingRoute::Instant);
}

#[test]
fn discovered_task_marks_the_record() {
    let mut p = ProcessingPipeline::new();
    let e = event(Confidence::Medium, EventType::Message, Some("请明天完成报告"), None, "{}");
    let mut found = extraction("完成报告", 900);
    found.due_date = Some("2026-06-15".to_string());
    found.tags = vec!["紧急".to_string()];
    let (run, _) = drive(
        &mut p,
        e,
        vec![
            PipelineReply::Classified(Some("message".to_string())),
            PipelineReply::Extracted(Some(output(extraction("沟通", 900)))),
            PipelineReply::Discovered(Some(found)),
        ],
    );
    let record = run.record.unwrap();
    assert_eq!(record.category, Category::Task);
    assert_eq!(record.task_priority, Some("P1".to_string()));
    assert!(record.task_due_ms.is_some());
    assert_eq!(record.title, "沟通");
    assert_eq!(record.summary, "Summary of the work");
    assert_eq!(record.model_used, "mock-small");
    assert_eq!(p.task_discovery().pending_count(), 1);
}

#[test]
fn discovery_without_a_task_keeps_the_category() {
    let mut p = ProcessingPipeline::new();
    let e = event(Confidence::Medium, EventType::Email, Some("FYI"), None, "{}");
    let mut update = extraction("", 900);
    update.is_status_update = true;
    let (run, _) = drive(
        &mut p,
        e,
        vec![
            PipelineReply::Classified(None),
            PipelineReply::Extracted(Some(output(extraction("邮件", 900)))),
            PipelineReply::Discovered(Some(update)),
        ],
    );
    assert_eq!(run.record.unwrap().category, Category::Communication);
    assert_eq!(p.task_discovery().pending_count(), 0);
}

#[test]
fn deduplication_points_at_the_existing_note_and_indexes() {
    let mut p = ProcessingPipeline::new().with_deduplicator();
    let e = event(Confidence::High, EventType::TaskUpdate, None, Some("Fix bug"), "{}");
    let (run, seen) = drive(
        &mut p,
        e,
        vec![
            PipelineReply::Classified(Some("task".to_string())),
            PipelineReply::Extracted(Some(output(extraction("Fix bug", 900)))),
            PipelineReply::Similar(Some("rec-old".to_string())),
            PipelineReply::ExistingPath(Some("journal/2026-01-01/task/fix-bug.md".to_string())),
        ],
    );
    assert!(seen.contains(&"FindSimilar".to_string()));
    assert!(seen.contains(&"FindExistingPath".to_string()));
    let record = run.record.unwrap();
    assert_eq!(record.obsidian_path, "journal/2026-01-01/task/fix-bug.md");
    assert_eq!(record.title, "Fix bug");
    assert_eq!(record.summary, "Summary of the work");
    assert_eq!(record.model_used, "mock-small");
    assert_eq!(record.confidence_permille, 900);
    assert_eq!(&seen[seen.len() - 2..], &["persist".to_string(), "index".to_string()]);
}

#[test]
fn out_of_order_reply_ends_the_run() {
    let mut p = ProcessingPipeline::new();
    let e = event(Confidence::High, EventType::TaskUpdate, None, None, "{}");
    let (mut run, action) = p.begin(e);
    assert!(matches!(action, PipelineAction::Classify { initial_confidence_permille: 900 }));
    let next = p.step(&mut run, PipelineReply::Indexed);
    assert!(matches!(next, PipelineAction::Finish));
    assert_eq!(run.stage, Stage::Done);
    assert!(run.into_result(0, StepTimings::default()).is_none());
}

fn non_task_extraction() -> Extraction {
    Extraction {
        title: String::new(),
        summary: String::new(),
        detail: String::new(),
        people: vec![],
        tags: vec![],
        project: None,
        due_date: None,
        confidence_permille: 200,
        is_status_update: false,
        related_task_id: None,
    }
}

#[test]
fn test_pipeline_meeting_category_mapping() {
    let mut p = ProcessingPipeline::new();
    let e = event(Confidence::High, EventType::Meeting, None, Some("Standup"), r#"{"meeting_id":"m-001","title":"Standup"}"#);
    let (run, _) = drive(
        &mut p,
        e,
        vec![PipelineReply::Classified(Some("meeting".to_string())), PipelineReply::Extracted(Some(output(non_task_extraction())))],
    );
    assert_eq!(run.record.unwrap().category, Category::Meeting);
}

#[test]
fn test_pipeline_email_category_mapping() {
    let mut p = ProcessingPipeline::new();
    let e = Event {
        id: "evt-43".to_string(),
        source_confidence: Confidence::Medium,
        event_type: EventType::Email,
        content: EventContent::Object {
            text: None,
            title: None,
            subject: Some("Project update".to_string()),
            json: r#"{"subject":"Project update"}"#.to_string(),
        },
    };
    let (run, seen) = drive(
        &mut p,
        e,
        vec![
            PipelineReply::Classified(Some("email".to_string())),
            PipelineReply::Extracted(Some(output(non_task_extraction()))),
            PipelineReply::Discovered(Some(non_task_extraction())),
        ],
    );
    assert_eq!(seen[2], "Discover");
    assert_eq!(run.record.unwrap().category, Category::Communication);
}

#[test]
fn test_pipeline_approval_category_mapping() {
    let mut p = ProcessingPipeline::new();
    let e = event(Confidence::High, EventType::Approval, None, None, r#"{"approved":true}"#);
    let (run, seen) = drive(
        &mut p,
        e,
        vec![PipelineReply::Classified(Some("approval".to_string())), PipelineReply::Extracted(Some(output(extraction("审批通过", 900))))],
    );
    assert!(!seen.contains(&"Discover".to_string()));
    assert_eq!(run.record.unwrap().category, Category::Decision);
}

#[test]
fn test_pipeline_archive_extracts_title_from_text() {
    let mut p = ProcessingPipeline::new();
    let e = event(
        Confidence::Low,
        EventType::Browsing,
        Some("浏览了技术文档"),
        None,
        r#"{"text":"浏览了技术文档","url":"https://example.com"}"#,
    );
    let (run, _) = drive(&mut p, e, vec![]);
    assert_eq!(run.route, ProcessingRoute::Archive);
    assert_eq!(run.record.unwrap().title, "浏览了技术文档");
}

#[test]
fn test_pipeline_source_event_ids_preserved() {
    let mut p = ProcessingPipeline::new();
    let e = event(Confidence::High, EventType::Message, Some("@test message"), None, r#"{"text":"@test message"}"#);
    let (run, _) = drive(
        &mut p,
        e,
        vec![
            PipelineReply::Classified(Some("task".to_string())),
            PipelineReply::Extracted(Some(output(extraction("test message", 900)))),
            PipelineReply::Discovered(None),
        ],
    );
    assert_eq!(run.record.unwrap().source_event_ids, vec!["evt-42".to_string()]);
}

#[test]
fn test_pipeline_sanitizes_long_due_date() {
    let mut p = ProcessingPipeline::new();
    let long_due = "这是一个超级长的截止日期描述，包含了很多详细信息".repeat(10);
    let mut found = extraction("完成任务", 900);
    found.summary = "完成任务".to_string();
    found.due_date = Some(long_due);
    let e = event(Confidence::Medium, EventType::Message, Some("完成任务"), None, r#"{"text":"完成任务"}"#);
    let (run, _) = drive(
        &mut p,
        e,
        vec![
            PipelineReply::Classified(Some("task".to_string())),
            PipelineReply::Extracted(Some(output(extraction("完成任务", 900)))),
            PipelineReply::Discovered(Some(found)),
        ],
    );
    assert_eq!(run.record.unwrap().category, Category::Task);
    assert_eq!(p.task_discovery().pending_count(), 1);
}

fn task_update(json: &str, title: Option<&str>) -> Event {
    event(Confidence::High, EventType::TaskUpdate, None, title, json)
}

fn classified(label: &str) -> PipelineReply {
    PipelineReply::Classified(Some(label.to_string()))
}

#[test]
fn test_pipeline_process_instant_route() {
    let mut p = ProcessingPipeline::new();
    let e = task_update(r#"{"status":"done","title":"Fix bug"}"#, Some("Fix bug"));
    let (run, _) = drive(&mut p, e, vec![classified("task"), PipelineReply::Extracted(Some(output(extraction("Fix bug", 900))))]);
    assert_eq!(run.route, ProcessingRoute::Instant);
    assert!(!run.record.unwrap().title.is_empty());
}

#[test]
fn test_pipeline_process_archive_route() {
    let mut p = ProcessingPipeline::new();
    let e = event(Confidence::Low, EventType::AppActivity, None, None, r#"{"app":"Safari"}"#);
    let (run, seen) = drive(&mut p, e, vec![]);
    assert_eq!(run.route, ProcessingRoute::Archive);
    assert!(!seen.contains(&"Extract".to_string()));
    let result = run.into_result(3, StepTimings::default()).unwrap();
    assert_eq!(result.work_record.model_used, "archive-skip");
    assert_eq!(result.step_timings.extract_ms, 0);
}

#[test]
fn test_pipeline_process_aggregate_route() {
    let mut p = ProcessingPipeline::new();
    let e = event(Confidence::Medium, EventType::Message, Some("普通消息"), None, r#"{"text":"普通消息"}"#);
    let (run, _) = drive(
        &mut p,
        e,
        vec![classified("message"), PipelineReply::Extracted(Some(output(extraction("普通消息", 800)))), PipelineReply::Discovered(None)],
    );
    assert_eq!(run.route, ProcessingRoute::Aggregate);
}

#[test]
fn test_pipeline_persists_approved_record() {
    let mut p = ProcessingPipeline::new();
    let e = task_update(r#"{"status":"done"}"#, None);
    let (run, seen) = drive(&mut p, e, vec![classified("task"), PipelineReply::Extracted(Some(output(extraction("Fix bug", 900))))]);
    assert!(!matches!(run.review.clone().unwrap().verdict, ReviewVerdict::NeedsFix(_)));
    assert!(seen.contains(&"persist".to_string()));
    assert!(!run.record.unwrap().obsidian_path.is_empty());
}

#[test]
fn test_pipeline_needs_fix_does_not_persist() {
    let mut p = ProcessingPipeline::new();
    let e = task_update(r#"{"status":"done"}"#, None);
    let mut empty = extraction("", 300);
    empty.summary = String::new();
    empty.detail = String::new();
    let (run, seen) = drive(&mut p, e, vec![classified("task"), PipelineReply::Extracted(Some(output(empty)))]);
    assert!(matches!(run.review.clone().unwrap().verdict, ReviewVerdict::NeedsFix(_)));
    assert!(!seen.contains(&"persist".to_string()));
    let result = run.into_result(5, StepTimings::default()).unwrap();
    assert_eq!(result.step_timings.persist_ms, 0);
}

#[test]
fn test_pipeline_step_timings_populated() {
    let mut p = ProcessingPipeline::new();
    let e = task_update(r#"{"title":"Test"}"#, Some("Test"));
    let (run, _) = drive(&mut p, e, vec![classified("task"), PipelineReply::Extracted(Some(output(extraction("Test", 900))))]);
    let timings = StepTimings { classify_ms: 1, extract_ms: 2, review_ms: 3, persist_ms: 4 };
    let result = run.into_result(10, timings).unwrap();
    let sum = result.step_timings.classify_ms + result.step_timings.extract_ms + result.step_timings.review_ms
        + result.step_timings.persist_ms;
    assert!(result.processing_time_ms >= sum);
}

#[test]
fn test_pipeline_with_custom_reviewer() {
    let mut p = ProcessingPipeline::new().with_reviewer(workbetter::processor::reviewer::ReviewAgent::new());
    let e = task_update(r#"{"status":"done"}"#, None);
    let (run, _) = drive(&mut p, e, vec![classified("task"), PipelineReply::Extracted(Some(output(extraction("Fix bug", 900))))]);
    assert_eq!(run.review.unwrap().reviewer, "rule");
}

#[test]
fn test_classify_ai_agrees_with_rule() {
    let mut p = ProcessingPipeline::new();
    let e = task_update(r#"{"status":"done","title":"Fix bug"}"#, Some("Fix bug"));
    let (run, _) = drive(&mut p, e, vec![classified("task"), PipelineReply::Extracted(Some(output(extraction("Fix bug", 900))))]);
    assert_eq!(run.rule_route, ProcessingRoute::Instant);
    assert_eq!(run.route, ProcessingRoute::Instant);
}

#[test]
fn test_classify_ai_overrides_rule() {
    let mut p = ProcessingPipeline::new();
    let e = event(Confidence::Medium, EventType::Message, Some("今天天气不错"), None, r#"{"text":"今天天气不错"}"#);
    let (run, _) = drive(
        &mut p,
        e,
        vec![classified("task"), PipelineReply::Extracted(Some(output(extraction("天气", 900)))), PipelineReply::Discovered(None)],
    );
    assert_eq!(run.route, ProcessingRoute::Instant);
}

#[test]
fn test_classify_ai_fallback_on_error() {
    let mut p = ProcessingPipeline::new();
    let e = task_update(r#"{"status":"done","title":"Test fallback"}"#, Some("Test fallback"));
    let (run, _) = drive(&mut p, e, vec![PipelineReply::Classified(None), PipelineReply::Extracted(None)]);
    assert_eq!(run.route, ProcessingRoute::Instant);
    let record = run.record.unwrap();
    assert_eq!(record.model_used, "extract-fallback");
    assert_eq!(record.confidence_permille, 700);
    assert_eq!(record.title, "Test fallback");
}

#[test]
fn test_discovery_ai_sets_task_category() {
    let mut p = ProcessingPipeline::new();
    let mut found = extraction("完成代码发布", 900);
    found.summary = "明天下午5点完成代码发布".to_string();
    found.due_date = Some("明天下午5点".to_string());
    let e = event(Confidence::Medium, EventType::Message, Some("明天下午5点完成代码发布"), None, r#"{"text":"明天下午5点完成代码发布"}"#);
    let (run, _) = drive(
        &mut p,
        e,
        vec![classified("task"), PipelineReply::Extracted(Some(output(extraction("代码发布", 900)))), PipelineReply::Discovered(Some(found))],
    );
    let record = run.record.unwrap();
    assert_eq!(record.category, Category::Task);
    assert_eq!(record.task_priority, Some("P2".to_string()));
    assert!(record.task_due_ms.is_some());
}

#[test]
fn test_discovery_ai_no_fallback_returns_communication() {
    let mut p = ProcessingPipeline::new();
    let e = event(Confidence::Medium, EventType::Message, Some("请你帮忙检查一下登录接口"), None, r#"{"text":"请你帮忙检查一下登录接口"}"#);
    let (run, _) = drive(
        &mut p,
        e,
        vec![
            classified("message"),
            PipelineReply::Extracted(Some(output(extraction("检查登录接口", 800)))),
            PipelineReply::Discovered(Some(non_task_extraction())),
        ],
    );
    assert_eq!(run.record.unwrap().category, Category::Communication);
}

#[test]
fn test_discovery_ai_no_match_keeps_category() {
    let mut p = ProcessingPipeline::new();
    let e = event(Confidence::Medium, EventType::Message, Some("今天天气真好啊"), None, r#"{"text":"今天天气真好啊"}"#);
    let (run, _) = drive(
        &mut p,
        e,
        vec![classified("message"), PipelineReply::Extracted(Some(output(non_task_extraction()))), PipelineReply::Discovered(None)],
    );
    assert_eq!(run.record.unwrap().category, Category::Communication);
}

#[test]
fn test_discovery_result_flows_to_review() {
    let mut p = ProcessingPipeline::new();
    let e = event(Confidence::Medium, EventType::Message, Some("请你帮忙检查一下登录接口的问题"), None, r#"{"text":"请你帮忙检查一下登录接口的问题"}"#);
    let (run, _) = drive(
        &mut p,
        e,
        vec![
            classified("task"),
            PipelineReply::Extracted(Some(output(extraction("检查登录接口", 900)))),
            PipelineReply::Discovered(Some(extraction("检查登录接口的问题", 900))),
        ],
    );
    assert_eq!(run.record.clone().unwrap().category, Category::Task);
    assert!(!run.review.unwrap().reviewer.is_empty());
}
