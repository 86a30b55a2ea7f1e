use chrono::{Datelike, Timelike};
use workbetter::processor::classifier::{Classifier, ProcessingRoute};
use workbetter::processor::event::{Confidence, Event, EventContent, EventType};
use workbetter::processor::due_date::{due_date_parts, extract_next_weekday, parse_due_date_from_text, try_parse_iso_date};
use workbetter::processor::extraction::{extract_time_from_text, EntityExtractor, ExtractedData, Extraction, RawFields};
use workbetter::processor::report::date::Date;
use workbetter::processor::paths::instant::InstantProcessor;
use workbetter::processor::pipeline::{
    archive_data, category_to_route, event_initial_confidence, fallback_extract_from_event, final_route,
    is_text_rich_event, map_event_to_category, sanitize_text_input, should_persist, StepTimings,
};
use workbetter::processor::record::{Category, ReviewVerdict};

fn object_event(confidence: Confidence, event_type: EventType, text: Option<&str>, json: &str) -> Event {
    Event {
        id: "evt-1".to_string(),
        source_confidence: confidence,
        event_type,
        content: EventContent::Object {
            text: text.map(String::from),
            title: None,
            subject: None,
            json: json.to_string(),
        },
    }
}

#[test]
fn test_low_confidence_archives() {
    let event = object_event(Confidence::Low, EventType::AppActivity, None, r#"{"app":"Safari"}"#);
    assert_eq!(Classifier::classify(&event), ProcessingRoute::Archive);
}

#[test]
fn test_task_update_is_instant() {
    let event = object_event(Confidence::High, EventType::TaskUpdate, None, r#"{"status":"done"}"#);
    assert_eq!(Classifier::classify(&event), ProcessingRoute::Instant);
}

#[test]
fn test_approval_is_instant() {
    let event = object_event(Confidence::High, EventType::Approval, None, r#"{"approved":true}"#);
    assert_eq!(Classifier::classify(&event), ProcessingRoute::Instant);
}

#[test]
fn test_manual_note_is_instant() {
    let event = object_event(Confidence::High, EventType::ManualNote, Some("记一下今天的进展"), r#"{"text":"记一下今天的进展"}"#);
    assert_eq!(Classifier::classify(&event), ProcessingRoute::Instant);
}

#[test]
fn test_message_with_mention_is_instant() {
    let event = object_event(Confidence::Medium, EventType::Message, Some("@张三 请review一下这个PR"), r#"{"text":"@张三 请review一下这个PR"}"#);
    assert_eq!(Classifier::classify(&event), ProcessingRoute::Instant);
}

#[test]
fn test_message_without_mention_is_aggregate() {
    let event = object_event(Confidence::Medium, EventType::Message, Some("收到了，我看一下"), r#"{"text":"收到了，我看一下"}"#);
    assert_eq!(Classifier::classify(&event), ProcessingRoute::Aggregate);
}

#[test]
fn test_document_change_is_aggregate() {
    let event = object_event(Confidence::Medium, EventType::DocumentChange, None, r#"{"doc_id":"doc-001"}"#);
    assert_eq!(Classifier::classify(&event), ProcessingRoute::Aggregate);
}

#[test]
fn test_browsing_is_aggregate() {
    let event = object_event(Confidence::Medium, EventType::Browsing, None, r#"{"url":"https://example.com"}"#);
    assert_eq!(Classifier::classify(&event), ProcessingRoute::Aggregate);
}

#[test]
fn test_okr_update_is_pattern() {
    let event = object_event(Confidence::High, EventType::OkrUpdate, None, r#"{"okr_id":"okr-001"}"#);
    assert_eq!(Classifier::classify(&event), ProcessingRoute::Pattern);
}

#[test]
fn test_meeting_is_instant() {
    let event = object_event(Confidence::High, EventType::Meeting, None, r#"{"meeting_id":"meet-001"}"#);
    assert_eq!(Classifier::classify(&event), ProcessingRoute::Instant);
}

#[test]
fn test_email_is_instant() {
    let event = object_event(Confidence::Medium, EventType::Email, None, r#"{"subject":"Re: 项目进展"}"#);
    assert_eq!(Classifier::classify(&event), ProcessingRoute::Instant);
}

#[test]
fn message_as_plain_string_with_mention_is_instant() {
    let event = Event {
        id: "e".into(),
        source_confidence: Confidence::High,
        event_type: EventType::Message,
        content: EventContent::Text("ping @bob".into()),
    };
    assert_eq!(Classifier::classify(&event), ProcessingRoute::Instant);
}

#[test]
fn test_sanitize_text_input_short_text_unchanged() {
    let text = "明天下午5点";
    let result = sanitize_text_input(text, 100);
    assert_eq!(result, text, "短文本不应被截断");
}

#[test]
fn test_sanitize_text_input_long_text_truncated() {
    let text = "这是一个很长的截止日期描述，".repeat(20);
    let result = sanitize_text_input(&text, 100);
    assert!(result.chars().count() <= 100, "截断后应不超过 100 字符，实际 {}", result.chars().count());
    assert!(text.starts_with(&result), "截断结果应是原文前缀");
}

#[test]
fn test_sanitize_text_input_exact_boundary() {
    let text = "a".repeat(100);
    let result = sanitize_text_input(&text, 100);
    assert_eq!(result.chars().count(), 100, "恰好 100 字符不应截断");
}

#[test]
fn test_sanitize_text_input_over_boundary() {
    let text = "a".repeat(101);
    let result = sanitize_text_input(&text, 100);
    assert_eq!(result.chars().count(), 100, "101 字符应截断到 100");
}

#[test]
fn test_sanitize_text_input_empty() {
    let result = sanitize_text_input("", 100);
    assert!(result.is_empty(), "空文本应返回空字符串");
}

#[test]
fn test_sanitize_text_input_unicode() {
    let text = "你好世界".repeat(30);
    let result = sanitize_text_input(&text, 100);
    assert_eq!(result.chars().count(), 100);
    assert!(text.starts_with(&result));
}

#[test]
fn category_labels_route() {
    for l in ["task", "approval", "manual_note", "meeting", "calendar", "email"] {
        assert_eq!(category_to_route(l), ProcessingRoute::Instant);
    }
    for l in ["message", "document", "browsing", "app_activity", "whatever"] {
        assert_eq!(category_to_route(l), ProcessingRoute::Aggregate);
    }
    assert_eq!(category_to_route("okr"), ProcessingRoute::Pattern);
}

#[test]
fn final_route_keeps_archive_and_follows_model() {
    assert_eq!(final_route(ProcessingRoute::Archive, Some("task")), ProcessingRoute::Archive);
    assert_eq!(final_route(ProcessingRoute::Aggregate, Some("okr")), ProcessingRoute::Pattern);
    assert_eq!(final_route(ProcessingRoute::Instant, None), ProcessingRoute::Instant);
}

#[test]
fn event_mapping_and_confidence() {
    let e = object_event(Confidence::High, EventType::CalendarEvent, None, "{}");
    assert_eq!(map_event_to_category(&e), Category::Meeting);
    assert!(is_text_rich_event(EventType::Email));
    assert!(!is_text_rich_event(EventType::Approval));
    assert_eq!(event_initial_confidence(Confidence::Medium), 700);
}

#[test]
fn archive_and_fallback_data() {
    let e = Event {
        id: "e".into(),
        source_confidence: Confidence::Low,
        event_type: EventType::Browsing,
        content: EventContent::Object { text: None, title: Some("标题".into()), subject: None, json: r#"{"title":"标题"}"#.into() },
    };
    let a = archive_data(&e);
    assert_eq!(a.title, "标题");
    assert_eq!(a.summary, "Auto-archived event");
    assert_eq!(a.detail, r#"{"title":"标题"}"#);
    assert_eq!(a.confidence_permille, 400);
    let f = fallback_extract_from_event(&e, &Category::Planning);
    assert_eq!(f.summary, "标题");
    assert_eq!(f.confidence_permille, 700);
    let other = Event { content: EventContent::Other("[1,2]".into()), ..e.clone() };
    assert_eq!(archive_data(&other).title, "Untitled");
}

#[test]
fn persist_unless_needs_fix() {
    assert!(should_persist(&ReviewVerdict::Approved));
    assert!(should_persist(&ReviewVerdict::NeedsReview("x".into())));
    assert!(!should_persist(&ReviewVerdict::NeedsFix("x".into())));
    let t = StepTimings::default();
    assert_eq!(t.classify_ms + t.extract_ms + t.review_ms + t.persist_ms, 0);
}

#[test]
fn time_from_text() {
    assert_eq!(extract_time_from_text("明天 17:30 交付"), Some((17, 30)));
    assert_eq!(extract_time_from_text("明天下午5点"), Some((17, 0)));
    assert_eq!(extract_time_from_text("上午12点开会"), Some((0, 0)));
    assert_eq!(extract_time_from_text("10点30分"), Some((10, 30)));
    assert_eq!(extract_time_from_text("下午3点45"), Some((15, 45)));
    assert_eq!(extract_time_from_text("3点5分"), Some((3, 5)));
    assert_eq!(extract_time_from_text("25:00 然后 9点"), Some((9, 0)));
    assert_eq!(extract_time_from_text("没有时间"), None);
}

#[test]
fn test_infer_task_status_for_various_categories() {
    assert_eq!(EntityExtractor::infer_task_status(&Category::Task), Some("in_progress".to_string()));
    for c in [Category::Meeting, Category::Communication, Category::Research, Category::Review, Category::Planning, Category::Document, Category::Decision] {
        assert_eq!(EntityExtractor::infer_task_status(&c), None);
    }
}

fn empty_raw() -> RawFields {
    RawFields { title: None, summary: None, detail: None, people: None, tags: None, project: None, confidence_permille: None, due_date: None }
}

#[test]
fn test_extract_malformed_json_uses_defaults() {
    let data = EntityExtractor::extract(None, &empty_raw(), "not json at all", &Category::Task);
    assert_eq!(data.title, "Untitled");
    assert_eq!(data.confidence_permille, 500);
    assert_eq!(data.detail, "not json at all");
}

#[test]
fn test_extract_from_raw_json_fallback() {
    let raw = RawFields { title: Some("Fallback Title".into()), summary: Some("Fallback summary".into()), ..empty_raw() };
    let data = EntityExtractor::extract(None, &raw, r#"{"title": "Fallback Title", "summary": "Fallback summary"}"#, &Category::Task);
    assert_eq!(data.title, "Fallback Title");
    assert_eq!(data.summary, "Fallback summary");
    assert_eq!(data.confidence_permille, 500);
}

#[test]
fn raw_fields_filters_non_strings_and_null_due() {
    let raw = RawFields {
        people: Some(vec![Some("张三".into()), None, Some("李四".into())]),
        due_date: Some("null".into()),
        ..empty_raw()
    };
    let data = EntityExtractor::from_raw_fields(&raw, "{}", &Category::Meeting);
    assert_eq!(data.people, vec!["张三".to_string(), "李四".to_string()]);
    assert_eq!(data.due_date, None);
    assert_eq!(data.task_status, None);
}

fn extraction(title: &str, confidence_permille: u32) -> Extraction {
    Extraction {
        title: title.into(),
        summary: "审查了前端代码变更".into(),
        detail: "## 变更内容".into(),
        people: vec!["张三".into(), "李四".into()],
        tags: vec!["review".into()],
        project: Some("work-better".into()),
        due_date: None,
        confidence_permille,
        is_status_update: false,
        related_task_id: None,
    }
}

#[test]
fn test_extract_from_valid_extraction_json() {
    let e = extraction("完成 PR Review", 920);
    let data = EntityExtractor::extract(Some(&e), &empty_raw(), "{}", &Category::Task);
    assert_eq!(data.title, "完成 PR Review");
    assert_eq!(data.people, vec!["张三", "李四"]);
    assert_eq!(data.project, Some("work-better".to_string()));
    assert_eq!(data.task_status, Some("in_progress".to_string()));
}

#[test]
fn test_to_work_record_low_confidence_needs_review() {
    let e = extraction("x", 500);
    let data = EntityExtractor::from_extraction(&e, &Category::Task);
    let event = object_event(Confidence::High, EventType::Message, Some("test content"), "{}");
    let record = EntityExtractor::to_work_record(&data, &event, "gpt");
    assert!(record.needs_review);
    assert_eq!(record.source_event_ids, vec!["evt-1".to_string()]);
    let data2 = EntityExtractor::from_extraction(&extraction("y", 850), &Category::Task);
    let r2 = EntityExtractor::to_work_record_with_due(&data2, &event, "gpt", Some(5));
    assert!(!r2.needs_review);
    assert_eq!(r2.task_due_ms, Some(5));
}

#[test]
fn instant_category_labels() {
    assert_eq!(InstantProcessor::category_of("review"), Category::Review);
    assert_eq!(InstantProcessor::category_of("unknown"), Category::Communication);
    let event = object_event(Confidence::High, EventType::Message, Some("hi"), "{}");
    let r = InstantProcessor::record_from(&event, "decision", extraction("决策", 900), "model-x");
    assert_eq!(r.category, Category::Decision);
    assert_eq!(r.title, "决策");
    assert_eq!(r.source_event_ids, vec!["evt-1".to_string()]);
}

fn extracted(confidence_permille: u32, due_date: Option<&str>) -> ExtractedData {
    ExtractedData {
        title: "Test".to_string(),
        summary: "Sum".to_string(),
        detail: "Det".to_string(),
        category: Category::Task,
        project: Some("proj".to_string()),
        people: vec!["A".to_string()],
        tags: vec!["t1".to_string()],
        task_status: Some("done".to_string()),
        confidence_permille,
        due_date: due_date.map(|s| s.to_string()),
    }
}

#[test]
fn test_to_work_record() {
    let data = extracted(880, None);
    let event = object_event(Confidence::High, EventType::Message, Some("test content"), "{}");
    let record = EntityExtractor::to_work_record(&data, &event, "mock-model");
    assert_eq!(record.title, "Test");
    assert_eq!(record.source_event_ids, vec![event.id.clone()]);
    assert_eq!(record.model_used, "mock-model");
    assert_eq!(record.confidence_permille, 880);
    assert!(!record.needs_review);
    assert_eq!(record.task_due_ms, None);
}

#[test]
fn test_to_work_record_propagates_due_date() {
    let data = extracted(900, Some("2026-06-15"));
    let event = object_event(Confidence::High, EventType::Message, Some("test content"), "{}");
    let record = EntityExtractor::to_work_record(&data, &event, "mock-model");
    assert!(record.task_due_ms.is_some(), "task_due 应从 due_date 传播");
}

fn local_of(ms: i64) -> chrono::DateTime<chrono::Local> {
    chrono::DateTime::<chrono::Utc>::from_timestamp_millis(ms).unwrap().with_timezone(&chrono::Local)
}

#[test]
fn test_parse_due_date_from_text_iso() {
    let ms = parse_due_date_from_text("2026-06-15").unwrap();
    assert_eq!(local_of(ms).format("%Y-%m-%d").to_string(), "2026-06-15");
}

#[test]
fn test_parse_due_date_from_text_iso_with_time() {
    let ms = parse_due_date_from_text("2026-06-15 14:30").unwrap();
    assert_eq!(local_of(ms).format("%Y-%m-%d %H:%M").to_string(), "2026-06-15 14:30");
}

#[test]
fn test_parse_due_date_from_text_tomorrow() {
    let ms = parse_due_date_from_text("明天").unwrap();
    let expected = chrono::Local::now().date_naive() + chrono::Duration::days(1);
    assert_eq!(local_of(ms).format("%Y-%m-%d").to_string(), expected.format("%Y-%m-%d").to_string());
}

#[test]
fn test_parse_due_date_from_text_tomorrow_with_time() {
    let ms = parse_due_date_from_text("明天下午5点").unwrap();
    let expected_date = chrono::Local::now().date_naive() + chrono::Duration::days(1);
    let local = local_of(ms);
    assert_eq!(local.format("%Y-%m-%d").to_string(), expected_date.format("%Y-%m-%d").to_string());
    assert_eq!(local.hour(), 17, "明天下午5点应为本地 17 点，实际: {}", local);
}

#[test]
fn test_parse_due_date_from_text_next_week() {
    let ms = parse_due_date_from_text("下周一").unwrap();
    assert_eq!(local_of(ms).weekday(), chrono::Weekday::Mon);
}

#[test]
fn test_parse_due_date_from_text_none() {
    assert!(parse_due_date_from_text("普通文本").is_none());
    assert!(parse_due_date_from_text("").is_none());
}

#[test]
fn due_date_parts_relative_to_a_fixed_day() {
    // 2026-06-06 is a Saturday.
    let today = Date::from_ymd(2026, 6, 6).unwrap();
    let d = |y, m, dd| Date::from_ymd(y, m, dd).unwrap();
    assert_eq!(due_date_parts("后天", &today), Some((d(2026, 6, 8), 18, 0)));
    assert_eq!(due_date_parts("今天 10:30", &today), Some((d(2026, 6, 6), 10, 30)));
    assert_eq!(due_date_parts("月底", &today), Some((d(2026, 6, 30), 18, 0)));
    assert_eq!(due_date_parts("年底前", &today), Some((d(2026, 12, 31), 18, 0)));
    assert_eq!(due_date_parts("2026/07/01 下午3点", &today), Some((d(2026, 7, 1), 15, 0)));
    assert_eq!(due_date_parts("随便", &today), None);
    // Coming Monday, next week's Monday (in the calendar week after this one), this week's Friday has passed.
    assert_eq!(extract_next_weekday("周一", &today), Some(d(2026, 6, 8)));
    assert_eq!(extract_next_weekday("下周一", &today), Some(d(2026, 6, 8)));
    assert_eq!(extract_next_weekday("下周日", &today), Some(d(2026, 6, 14)));
    assert_eq!(extract_next_weekday("下周一", &d(2026, 6, 2)), Some(d(2026, 6, 8)));
    assert_eq!(extract_next_weekday("本周六", &today), Some(d(2026, 6, 6)));
    assert_eq!(extract_next_weekday("本周五", &today), Some(d(2026, 6, 12)));
    assert_eq!(extract_next_weekday("星期天", &today), Some(d(2026, 6, 7)));
    assert_eq!(extract_next_weekday("没有", &today), None);
    assert_eq!(try_parse_iso_date("2026-13-01"), None);
    assert_eq!(try_parse_iso_date("2024-02-29T00"), Some(d(2024, 2, 29)));
}

#[test]
fn test_extract_meeting_has_no_task_status() {
    let e = Extraction {
        title: "周会".into(),
        summary: "讨论进度".into(),
        detail: "详细会议内容...".into(),
        people: vec!["Alice".into()],
        tags: vec![],
        project: None,
        due_date: None,
        confidence_permille: 850,
        is_status_update: false,
        related_task_id: None,
    };
    let json = r#"{"title":"周会","summary":"讨论进度","detail":"详细会议内容...","people":["Alice"],"tags":[],"project":null,"confidence":0.85}"#;
    let data = EntityExtractor::extract(Some(&e), &empty_raw(), json, &Category::Meeting);
    assert_eq!(data.task_status, None);
    assert_eq!(data.category, Category::Meeting);
}
