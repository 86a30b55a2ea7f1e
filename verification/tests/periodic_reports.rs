use chrono::TimeZone;
use workbetter::processor::record::{Category, WorkRecord};
use workbetter::processor::report::annual::{
    build_growth_trajectory, build_highlights, build_next_year_plan, generate_annual,
};
use workbetter::processor::report::confirm::ReportStatus;
use workbetter::processor::report::daily::generate_daily;
use workbetter::processor::report::date::{last_day_of_month, Date};
use workbetter::processor::report::monthly::generate_month;
use workbetter::processor::report::quarterly::{
    build_capability_metrics, build_milestones, build_okr_from_records, collect_projects, generate_quarter,
    quarter_date_range,
};
use workbetter::processor::report::semi_annual::{
    build_goal_adjustments, build_key_achievements, build_next_half_plan, generate_semi_annual,
    semi_annual_date_range,
};
use workbetter::processor::report::summary::AnnualReport;
use workbetter::processor::report::weekly::generate_week;
use workbetter::processor::report::{ReportGenerator, ReportType};

/// 2026-06-06 12:00:00 UTC.
const NOON_JUNE_6_2026: i64 = 1780747200000;

fn ymd(y: i32, m: u32, d: u32) -> Date {
    Date::from_ymd(y, m, d).unwrap()
}

fn millis_at(y: i32, m: u32, d: u32) -> i64 {
    chrono::Utc.with_ymd_and_hms(y, m, d, 12, 0, 0).unwrap().timestamp_millis()
}

fn make_record(title: &str, status: Option<&str>, category: Category) -> WorkRecord {
    WorkRecord {
        id: format!("id-{}", title),
        created_at_ms: NOON_JUNE_6_2026,
        source_event_ids: vec![],
        title: title.to_string(),
        summary: format!("{} summary", title),
        detail: format!("{} detail", title),
        category,
        project: None,
        people: vec![],
        tags: vec![],
        task_status: status.map(|s| s.to_string()),
        task_due_ms: None,
        task_priority: None,
        task_progress: None,
        model_used: "test".to_string(),
        confidence_permille: 900,
        needs_review: false,
        obsidian_path: String::new(),
    }
}

fn make_record_with_summary(title: &str, summary: &str, category: Category, status: Option<&str>) -> WorkRecord {
    let mut r = make_record(title, status, category);
    r.summary = summary.to_string();
    r
}

fn make_record_with_date(title: &str, status: Option<&str>, category: Category, y: i32, m: u32, d: u32) -> WorkRecord {
    let mut r = make_record(title, status, category);
    r.created_at_ms = millis_at(y, m, d);
    r
}

fn make_record_with_project(title: &str, status: Option<&str>, category: Category, project: &str) -> WorkRecord {
    let mut r = make_record(title, status, category);
    r.project = Some(project.to_string());
    r
}

// ---- daily ----

#[test]
fn test_generate_daily_basic() {
    let date = ymd(2026, 6, 6);
    let records = vec![
        make_record_with_summary("Task A", "完成登录", Category::Task, Some("done")),
        make_record_with_summary("Task B", "修复样式", Category::Task, Some("in_progress")),
    ];
    let report = generate_daily(date, &records);
    assert_eq!(report.title, "日报：2026-06-06");
    assert!(report.content.contains("完成登录"));
    assert!(report.content.contains("修复样式"));
    assert_eq!(report.period_start, date);
    assert_eq!(report.period_end, date);
}

#[test]
fn test_generate_daily_empty_records() {
    let date = ymd(2026, 6, 6);
    let report = generate_daily(date, &[]);
    assert_eq!(report.title, "日报：2026-06-06");
    assert!(report.content.contains("_无_"));
}

#[test]
fn test_generate_daily_categorizes_correctly() {
    let date = ymd(2026, 6, 6);
    let records = vec![
        make_record_with_summary("Done Task", "done", Category::Task, Some("completed")),
        make_record_with_summary("Blocked Task", "blocked", Category::Task, Some("blocked")),
        make_record_with_summary("Doing Task", "doing", Category::Task, Some("in_progress")),
    ];
    let report = generate_daily(date, &records);
    assert!(report.content.contains("Done Task"));
    assert!(report.content.contains("Blocked Task"));
    assert!(report.content.contains("Doing Task"));
}

#[test]
fn test_generate_daily_report_status_is_draft() {
    let report = generate_daily(ymd(2026, 6, 6), &[]);
    assert_eq!(report.status, ReportStatus::Draft);
}

#[test]
fn test_generate_daily_with_chinese_status() {
    let date = ymd(2026, 6, 6);
    let records = vec![
        make_record_with_summary("中文完成", "已完成任务", Category::Task, Some("已完成")),
        make_record_with_summary("中文进行", "进行中任务", Category::Task, Some("进行中")),
        make_record_with_summary("中文阻塞", "阻塞任务", Category::Task, Some("阻塞")),
    ];
    let report = generate_daily(date, &records);
    assert!(report.content.contains("中文完成"));
    assert!(report.content.contains("中文进行"));
    assert!(report.content.contains("中文阻塞"));
}

#[test]
fn test_generate_daily_with_task_progress() {
    let date = ymd(2026, 6, 6);
    let mut record = make_record_with_summary("Progress Task", "summary", Category::Task, Some("in_progress"));
    record.task_progress = Some("60%".to_string());
    let report = generate_daily(date, &[record]);
    assert!(report.content.contains("60%"));
}

#[test]
fn daily_markdown_exact() {
    let date = ymd(2026, 6, 6);
    let mut p = make_record_with_summary("B", "sb", Category::Task, Some("Doing"));
    p.task_progress = Some("60%".to_string());
    let records = vec![make_record_with_summary("A", "sa", Category::Task, Some("DONE")), p];
    let report = generate_daily(date, &records);
    assert_eq!(
        report.content,
        "# 日报：2026-06-06\n\n## 完成事项\n\n- **A**：sa\n\n## 进行中\n\n- **B**：sb（60%）\n\n## 明日计划\n\n- 继续：B\n\n## 阻塞项\n\n_无_\n\n"
    );
}

// ---- weekly ----

#[test]
fn test_generate_week_basic() {
    let week_start = ymd(2026, 6, 1);
    let records = vec![
        make_record("Task A", Some("done"), Category::Task),
        make_record("Meeting B", Some("completed"), Category::Meeting),
    ];
    let report = generate_week(week_start, &records).unwrap();
    assert!(report.title.starts_with("周报"));
    assert_eq!(report.period_start, week_start);
    assert_eq!(report.period_end, ymd(2026, 6, 7));
    assert!(report.content.contains("关键成果"));
    assert!(report.content.contains("Task A"));
}

#[test]
fn test_generate_week_empty() {
    let report = generate_week(ymd(2026, 6, 1), &[]).unwrap();
    assert!(report.content.contains("共处理 **0** 条"));
    assert!(report.content.contains("_本周暂无完成事项_"));
}

#[test]
fn test_generate_week_category_stats() {
    let records = vec![
        make_record("T1", None, Category::Task),
        make_record("T2", None, Category::Task),
        make_record("M1", None, Category::Meeting),
    ];
    let report = generate_week(ymd(2026, 6, 1), &records).unwrap();
    assert!(report.content.contains("任务"));
    assert!(report.content.contains("会议"));
}

#[test]
fn test_generate_week_blocked_section() {
    let records = vec![make_record("Blocked", Some("blocked"), Category::Task)];
    let report = generate_week(ymd(2026, 6, 1), &records).unwrap();
    assert!(report.content.contains("风险与阻塞"));
    assert!(report.content.contains("Blocked"));
}

#[test]
fn test_generate_week_report_type() {
    let report = generate_week(ymd(2026, 6, 1), &[]).unwrap();
    assert_eq!(report.report_type, ReportType::Weekly);
}

// ---- monthly ----

#[test]
fn test_generate_month_basic() {
    let records = vec![
        make_record("T1", Some("done"), Category::Task),
        make_record("T2", Some("in_progress"), Category::Task),
    ];
    let report = generate_month(2026, 6, &records);
    assert_eq!(report.title, "月报：2026年6月");
    assert_eq!(report.period_start, ymd(2026, 6, 1));
    assert_eq!(report.period_end, ymd(2026, 6, 30));
    assert!(report.content.contains("目标进度"));
    assert!(report.content.contains("时间分配"));
    assert!(report.content.contains("效率趋势"));
}

#[test]
fn test_generate_month_empty() {
    let report = generate_month(2026, 6, &[]);
    assert!(report.content.contains("暂无记录"));
    assert!(report.content.contains("暂无工作记录"));
}

#[test]
fn test_generate_month_completion_rate() {
    let records = vec![
        make_record("T1", Some("done"), Category::Task),
        make_record("T2", Some("done"), Category::Task),
        make_record("T3", Some("in_progress"), Category::Task),
        make_record("T4", Some("blocked"), Category::Task),
    ];
    let report = generate_month(2026, 6, &records);
    assert!(report.content.contains("50%"));
    assert!(report.content.contains("阻塞：**1** 条"));
}

#[test]
fn test_generate_month_december() {
    let report = generate_month(2026, 12, &[]);
    assert_eq!(report.period_end, ymd(2026, 12, 31));
}

#[test]
fn test_generate_month_report_type() {
    let report = generate_month(2026, 6, &[]);
    assert_eq!(report.report_type, ReportType::Monthly);
}

#[test]
fn test_generate_month_weekly_trend() {
    let records = vec![
        make_record_with_date("T1", Some("done"), Category::Task, 2026, 6, 1),
        make_record_with_date("T2", Some("done"), Category::Task, 2026, 6, 8),
        make_record_with_date("T3", Some("in_progress"), Category::Task, 2026, 6, 15),
    ];
    let report = generate_month(2026, 6, &records);
    assert!(report.content.contains("效率趋势"));
    assert!(report.content.contains("| W"));
}

#[test]
fn test_last_day_of_month_feb_leap() {
    assert_eq!(last_day_of_month(2024, 2), ymd(2024, 2, 29));
}

#[test]
fn test_last_day_of_month_feb_non_leap() {
    assert_eq!(last_day_of_month(2026, 2), ymd(2026, 2, 28));
}

#[test]
fn monthly_trend_rows_exact() {
    let records = vec![
        make_record_with_date("T1", Some("done"), Category::Task, 2026, 6, 1),
        make_record_with_date("T2", Some("Task done"), Category::Meeting, 2026, 6, 2),
        make_record_with_date("T3", Some("in_progress"), Category::Task, 2026, 6, 15),
    ];
    let report = generate_month(2026, 6, &records);
    // June 1 and 2 of 2026 fall in ISO week 23, June 15 in week 25.
    assert!(report.content.contains("| W23 | 2 | 2 | 100% |\n| W25 | 1 | 0 | 0% |\n"));
    // One exact "done" status of three records: 33%.
    assert!(report.content.contains("- 已完成：**1** 条（33%）"));
    assert!(report.content.contains("| 任务 | 2 | 67% |\n| 会议 | 1 | 33% |\n"));
    assert!(report.content.ends_with("2026年6月共处理 **3** 条工作记录，完成率 33%。\n"));
}

// ---- quarterly ----

#[test]
fn test_generate_quarter_basic() {
    let records = vec![
        make_record("T1", Some("done"), Category::Task),
        make_record("T2", Some("in_progress"), Category::Task),
        make_record("T3", Some("blocked"), Category::Task),
    ];
    let report = generate_quarter(2026, 2, &records);
    assert!(report.title.contains("季报"));
    assert!(report.title.contains("2026-Q2"));
    assert_eq!(report.period_start, ymd(2026, 4, 1));
    assert_eq!(report.period_end, ymd(2026, 6, 30));
    assert!(report.content.contains("OKR 进度"));
    assert!(report.content.contains("项目里程碑"));
    assert!(report.content.contains("能力成长"));
}

#[test]
fn test_generate_quarter_empty() {
    let report = generate_quarter(2026, 1, &[]);
    assert!(report.content.contains("暂无 OKR 数据"));
    assert!(report.content.contains("暂无项目里程碑"));
    assert!(report.content.contains("暂无工作记录"));
}

#[test]
fn test_quarter_date_range_q1() {
    let (start, end) = quarter_date_range(2026, 1);
    assert_eq!(start, ymd(2026, 1, 1));
    assert_eq!(end, ymd(2026, 3, 31));
}

#[test]
fn test_quarter_date_range_q4() {
    let (start, end) = quarter_date_range(2026, 4);
    assert_eq!(start, ymd(2026, 10, 1));
    assert_eq!(end, ymd(2026, 12, 31));
}

#[test]
fn test_quarterly_okr_progress() {
    let records = vec![
        make_record("T1", Some("done"), Category::Task),
        make_record("T2", Some("done"), Category::Task),
        make_record("T3", Some("in_progress"), Category::Task),
    ];
    let okr = build_okr_from_records(&records);
    assert!(!okr.is_empty());
    let task_okr = okr.iter().find(|o| o.objective == "任务执行").unwrap();
    assert_eq!(task_okr.progress_pct, 67);
}

#[test]
fn test_quarterly_milestones_with_projects() {
    let records = vec![
        make_record_with_project("T1", Some("done"), Category::Task, "Alpha"),
        make_record_with_project("T2", Some("in_progress"), Category::Task, "Alpha"),
        make_record_with_project("T3", Some("done"), Category::Task, "Beta"),
    ];
    let projects = collect_projects(&records);
    let milestones = build_milestones(&records, &projects);
    assert_eq!(milestones.len(), 2);
    let alpha = milestones.iter().find(|m| m.project == "Alpha").unwrap();
    assert!(!alpha.achieved);
    let beta = milestones.iter().find(|m| m.project == "Beta").unwrap();
    assert!(beta.achieved);
}

#[test]
fn test_quarterly_capability_metrics() {
    let records = vec![
        make_record_with_date("T1", Some("done"), Category::Task, 2026, 4, 5),
        make_record_with_date("T2", Some("done"), Category::Task, 2026, 5, 10),
        make_record_with_date("T3", Some("done"), Category::Task, 2026, 6, 15),
    ];
    let metrics = build_capability_metrics(&records, 2026, 2);
    assert!(!metrics.is_empty());
    let output = metrics.iter().find(|m| m.name == "月度产出").unwrap();
    assert_eq!(output.baseline, 1);
    assert_eq!(output.current, 1);
}

#[test]
fn quarterly_okr_and_milestones_exact() {
    let records = vec![
        make_record_with_project("T1", Some("done"), Category::Task, "Alpha"),
        make_record_with_project("M1", Some("进行中"), Category::Meeting, "Beta"),
        make_record_with_project("C1", Some("完成"), Category::Communication, "Alpha"),
    ];
    let okr = build_okr_from_records(&records);
    assert_eq!(okr.len(), 2);
    assert_eq!(okr[0].objective, "任务执行");
    assert_eq!(okr[0].key_results, vec!["完成 1/1 项".to_string()]);
    assert_eq!(okr[1].objective, "沟通协作");
    assert_eq!(okr[1].key_results, vec!["完成 1/2 项".to_string()]);
    assert_eq!(okr[1].progress_pct, 50);
    let projects = collect_projects(&records);
    assert_eq!(projects, vec!["Alpha".to_string(), "Beta".to_string()]);
    let ms = build_milestones(&records, &projects);
    assert_eq!(ms[0].milestone, "完成 2/2 项工作");
    assert!(ms[0].achieved);
    assert_eq!(ms[1].milestone, "完成 0/1 项工作");
    let report = generate_quarter(2026, 2, &records);
    assert!(report.content.contains("| 任务执行 | 完成 1/1 项 | 100% |\n| 沟通协作 | 完成 1/2 项 | 50% |\n"));
    assert!(report.content.contains("- **Alpha**：完成 2/2 项工作 [已达成]\n- **Beta**：完成 0/1 项工作 [进行中]\n"));
    assert!(report.content.contains("| 月度产出 | 0 | 2 |\n| 季度总产出 | 0 | 2 |\n"));
}

// ---- semi-annual ----

#[test]
fn test_generate_semi_annual_h1() {
    let records = vec![
        make_record("T1", Some("done"), Category::Task),
        make_record("T2", Some("in_progress"), Category::Task),
    ];
    let report = generate_semi_annual(2026, 1, &records);
    assert!(report.title.contains("半年报"));
    assert!(report.title.contains("2026-H1"));
    assert_eq!(report.period_start, ymd(2026, 1, 1));
    assert_eq!(report.period_end, ymd(2026, 6, 30));
    assert!(report.content.contains("阶段总结"));
    assert!(report.content.contains("目标调整"));
    assert!(report.content.contains("关键成就"));
    assert!(report.content.contains("下阶段计划"));
}

#[test]
fn test_generate_semi_annual_h2() {
    let report = generate_semi_annual(2026, 2, &[]);
    assert!(report.title.contains("2026-H2"));
    assert_eq!(report.period_start, ymd(2026, 7, 1));
    assert_eq!(report.period_end, ymd(2026, 12, 31));
}

#[test]
fn test_semi_annual_empty() {
    let report = generate_semi_annual(2026, 1, &[]);
    assert!(report.content.contains("暂无工作记录"));
    assert!(report.content.contains("暂无已完成记录"));
}

#[test]
fn test_semi_annual_goal_adjustments_high_block() {
    let records = vec![
        make_record("B1", Some("blocked"), Category::Task),
        make_record("B2", Some("blocked"), Category::Task),
        make_record("T1", Some("done"), Category::Task),
        make_record("T2", Some("done"), Category::Task),
        make_record("T3", Some("done"), Category::Task),
        make_record("T4", Some("done"), Category::Task),
    ];
    let adjustments = build_goal_adjustments(&records, &[]);
    assert!(!adjustments.is_empty());
    assert!(adjustments.iter().any(|a| a.goal == "降低阻塞率"));
}

#[test]
fn test_semi_annual_goal_adjustments_high_comm() {
    let records = vec![
        make_record("M1", None, Category::Meeting),
        make_record("M2", None, Category::Meeting),
        make_record("C1", None, Category::Communication),
        make_record("T1", None, Category::Task),
    ];
    let counts = vec![("会议", 2usize), ("沟通", 1usize), ("任务", 1usize)];
    let adjustments = build_goal_adjustments(&records, &counts);
    assert!(adjustments.iter().any(|a| a.goal == "优化沟通效率"));
}

#[test]
fn test_semi_annual_key_achievements() {
    let records = vec![
        make_record("Achievement 1", Some("done"), Category::Task),
        make_record("Achievement 2", Some("completed"), Category::Task),
        make_record("Ongoing", Some("in_progress"), Category::Task),
    ];
    let achievements = build_key_achievements(&records);
    assert_eq!(achievements.len(), 2);
    assert!(achievements[0].contains("Achievement 1"));
}

#[test]
fn test_semi_annual_next_half_plan() {
    let records = vec![
        make_record("Continue A", Some("in_progress"), Category::Task),
        make_record("Continue B", Some("doing"), Category::Task),
    ];
    let plan = build_next_half_plan(&records);
    assert_eq!(plan.len(), 2);
    assert!(plan[0].contains("Continue A"));
}

#[test]
fn test_semi_annual_next_half_plan_empty() {
    let plan = build_next_half_plan(&[]);
    assert_eq!(plan, vec!["待定"]);
}

#[test]
fn test_semi_annual_date_range() {
    let (s1, e1) = semi_annual_date_range(2026, 1);
    assert_eq!(s1, ymd(2026, 1, 1));
    assert_eq!(e1, ymd(2026, 6, 30));
    let (s2, e2) = semi_annual_date_range(2026, 2);
    assert_eq!(s2, ymd(2026, 7, 1));
    assert_eq!(e2, ymd(2026, 12, 31));
}

#[test]
fn semi_annual_rates_round_ties_to_even() {
    // 5 of 8 blocked: 62.5% is written 62%.
    let mut records = Vec::new();
    for i in 0..8 {
        let status = if i < 5 { "blocked" } else { "done" };
        records.push(make_record(&format!("R{}", i), Some(status), Category::Task));
    }
    let adjustments = build_goal_adjustments(&records, &[]);
    assert_eq!(adjustments.len(), 1);
    assert_eq!(adjustments[0].reason, "当前阻塞率 62%");
    // 3 of 20 blocked is exactly 15%: no adjustment.
    let mut few = Vec::new();
    for i in 0..20 {
        let status = if i < 3 { "blocked" } else { "done" };
        few.push(make_record(&format!("R{}", i), Some(status), Category::Task));
    }
    assert!(build_goal_adjustments(&few, &[]).is_empty());
}

#[test]
fn semi_annual_first_five_only() {
    let mut records = Vec::new();
    for i in 0..7 {
        records.push(make_record(&format!("D{}", i), Some("done"), Category::Task));
    }
    let achievements = build_key_achievements(&records);
    assert_eq!(achievements.len(), 5);
    assert_eq!(achievements[4], "D4：D4 summary");
}

// ---- annual ----

#[test]
fn test_generate_annual_basic() {
    let records = vec![
        make_record("T1", Some("done"), Category::Task),
        make_record("T2", Some("in_progress"), Category::Task),
    ];
    let report = generate_annual(2026, &records);
    assert!(report.title.contains("2026年"));
    assert!(report.title.contains("年报"));
    assert_eq!(report.period_start, ymd(2026, 1, 1));
    assert_eq!(report.period_end, ymd(2026, 12, 31));
    assert!(report.content.contains("全景总结"));
    assert!(report.content.contains("成长轨迹"));
    assert!(report.content.contains("年度亮点"));
    assert!(report.content.contains("次年计划"));
}

#[test]
fn test_generate_annual_empty() {
    let report = generate_annual(2026, &[]);
    assert!(report.content.contains("暂无工作记录"));
}

#[test]
fn test_growth_trajectory() {
    let records = vec![
        make_record_with_date("Q1T", Some("done"), Category::Task, 2026, 2, 10),
        make_record_with_date("Q2T", Some("done"), Category::Task, 2026, 5, 15),
        make_record_with_date("Q3T", Some("in_progress"), Category::Task, 2026, 8, 20),
        make_record_with_date("Q4T", Some("done"), Category::Task, 2026, 11, 5),
    ];
    let trajectory = build_growth_trajectory(&records, 2026);
    assert_eq!(trajectory.len(), 8);
    assert!(trajectory.iter().any(|p| p.period == "Q1" && p.metric == "完成率"));
    assert!(trajectory.iter().any(|p| p.period == "Q4" && p.value == 100));
}

#[test]
fn test_highlights() {
    let records = vec![
        make_record_with_project("T1", Some("done"), Category::Task, "Alpha"),
        make_record_with_project("T2", Some("done"), Category::Task, "Alpha"),
        make_record_with_project("T3", Some("done"), Category::Meeting, "Beta"),
    ];
    let counts = vec![("任务", 2usize), ("会议", 1usize)];
    let highlights = build_highlights(&records, &counts);
    assert!(highlights.iter().any(|h| h.contains("100%")));
    assert!(highlights.iter().any(|h| h.contains("2 个项目")));
    assert!(highlights.iter().any(|h| h.contains("任务")));
}

#[test]
fn test_next_year_plan_with_q4_records() {
    let records = vec![
        make_record_with_date("Q4 Continue", Some("in_progress"), Category::Task, 2026, 10, 15),
        make_record_with_date("Q4 Done", Some("done"), Category::Task, 2026, 11, 1),
    ];
    let plan = build_next_year_plan(&records);
    assert!(plan.iter().any(|p| p.contains("Q4 Continue")));
    assert!(plan.iter().any(|p| p.contains("根据年度复盘")));
}

#[test]
fn test_next_year_plan_empty() {
    let plan = build_next_year_plan(&[]);
    assert_eq!(plan, vec!["待定"]);
}

#[test]
fn test_annual_report_struct_fields() {
    let report = AnnualReport {
        year: 2026,
        panoramic_summary: "test summary".to_string(),
        growth_trajectory: vec![],
        next_year_plan: vec![],
        highlights: vec!["h1".to_string()],
    };
    assert_eq!(report.year, 2026);
    assert_eq!(report.highlights.len(), 1);
}

#[test]
fn annual_quarter_average_ties_to_even() {
    let two: Vec<WorkRecord> = (0..2).map(|i| make_record(&format!("T{}", i), None, Category::Task)).collect();
    let h = build_highlights(&two, &[]);
    assert_eq!(h.last().unwrap(), "季度平均产出 0 项");
    let six: Vec<WorkRecord> = (0..6).map(|i| make_record(&format!("T{}", i), None, Category::Task)).collect();
    let h = build_highlights(&six, &[]);
    assert_eq!(h.last().unwrap(), "季度平均产出 2 项");
}

// ---- through the generator ----

#[test]
fn test_generate_daily_delegates() {
    let date = ymd(2026, 6, 6);
    let records = vec![make_record("Task A", Some("done"), Category::Task)];
    let report = ReportGenerator::generate_daily(date, &records);
    assert_eq!(report.report_type, ReportType::Daily);
    assert_eq!(report.period_start, date);
}

#[test]
fn test_generate_week_delegates() {
    let records = vec![make_record("Task B", None, Category::Task)];
    let report = ReportGenerator::generate_week(ymd(2026, 6, 1), &records).unwrap();
    assert_eq!(report.report_type, ReportType::Weekly);
}

#[test]
fn test_generate_month_delegates() {
    let records = vec![make_record("Task C", None, Category::Meeting)];
    let report = ReportGenerator::generate_month(2026, 6, &records);
    assert_eq!(report.report_type, ReportType::Monthly);
}

fn create_test_record(title: &str, status: &str) -> WorkRecord {
    WorkRecord {
        id: format!("rec-{}", title),
        created_at_ms: NOON_JUNE_6_2026,
        source_event_ids: vec!["evt".to_string()],
        title: title.to_string(),
        summary: format!("{}的摘要", title),
        detail: format!("{}的详情", title),
        category: Category::Task,
        project: Some("测试项目".to_string()),
        people: vec!["user-001".to_string()],
        tags: vec!["test".to_string()],
        task_status: Some(status.to_string()),
        task_due_ms: None,
        task_priority: None,
        task_progress: None,
        model_used: "test-model".to_string(),
        confidence_permille: 900,
        needs_review: false,
        obsidian_path: "test.md".to_string(),
    }
}

#[test]
fn test_daily_report_generation() {
    let records = vec![
        create_test_record("完成项目设计", "done"),
        create_test_record("代码审查", "completed"),
        create_test_record("待办任务", "todo"),
    ];
    let report = ReportGenerator::generate_daily(ymd(2024, 6, 6), &records);
    assert_eq!(report.report_type, ReportType::Daily);
    assert!(!report.content.is_empty());
    assert!(report.content.contains("完成项目设计") || report.content.contains("日报"));
}

#[test]
fn test_weekly_report_generation() {
    let records = vec![create_test_record("sprint 目标 1", "done"), create_test_record("sprint 目标 2", "completed")];
    let report = ReportGenerator::generate_week(ymd(2024, 6, 3), &records).unwrap();
    assert_eq!(report.report_type, ReportType::Weekly);
    assert!(!report.content.is_empty());
    assert!(report.content.contains("本周进展") || report.content.contains("周报"));
}

#[test]
fn test_monthly_report_generation() {
    let records = vec![create_test_record("月度目标 1", "done"), create_test_record("月度目标 2", "in_progress")];
    let report = ReportGenerator::generate_month(2024, 6, &records);
    assert_eq!(report.report_type, ReportType::Monthly);
    assert!(!report.content.is_empty());
    assert!(report.content.contains("目标进展") || report.content.contains("月报"));
}

#[test]
fn test_quarterly_report_generation() {
    let records = vec![create_test_record("OKR 1", "done"), create_test_record("OKR 2", "in_progress")];
    let report = ReportGenerator::generate_quarter(2024, 2, &records);
    assert_eq!(report.report_type, ReportType::Quarterly);
    assert!(!report.content.is_empty());
    assert!(report.content.contains("OKR 进度") || report.content.contains("季报"));
}

#[test]
fn test_semi_annual_report_generation() {
    let records = vec![create_test_record("半年目标 1", "done"), create_test_record("半年目标 2", "completed")];
    let report = ReportGenerator::generate_semi_annual(2024, 1, &records);
    assert_eq!(report.report_type, ReportType::SemiAnnual);
    assert!(!report.content.is_empty());
    assert!(report.content.contains("阶段性总结") || report.content.contains("半年报"));
}

#[test]
fn test_annual_report_generation() {
    let records = vec![create_test_record("年度目标 1", "done"), create_test_record("年度目标 2", "completed")];
    let report = ReportGenerator::generate_annual(2024, &records);
    assert_eq!(report.report_type, ReportType::Annual);
    assert!(!report.content.is_empty());
    assert!(report.content.contains("年度全景") || report.content.contains("年报"));
}

#[test]
fn test_empty_data_report_generation() {
    let records: Vec<WorkRecord> = vec![];
    let report = ReportGenerator::generate_daily(ymd(2024, 6, 6), &records);
    assert!(!report.content.is_empty());
    assert_eq!(report.report_type, ReportType::Daily);
}

#[test]
fn test_report_format() {
    let records = vec![create_test_record("测试任务", "done")];
    let report = ReportGenerator::generate_daily(ymd(2024, 6, 6), &records);
    assert!(report.content.contains("#") || report.content.contains("##"));
    assert!(report.content.contains("-") || report.content.contains("*"));
}

#[test]
fn test_report_id_uniqueness() {
    let records = vec![create_test_record("任务 1", "done")];
    let report1 = ReportGenerator::generate_daily(ymd(2024, 6, 6), &records);
    let report2 = ReportGenerator::generate_daily(ymd(2024, 6, 6), &records);
    assert_ne!(report1.id, report2.id);
}

#[test]
fn test_report_timestamp() {
    let records = vec![create_test_record("任务 1", "done")];
    let report = ReportGenerator::generate_daily(ymd(2024, 6, 6), &records);
    assert!(report.generated_at_ms > 0);
}
