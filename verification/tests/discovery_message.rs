use workbetter::processor::task::discovery_message::{discover_from_message, extract_due_date, has_time_expression};
use workbetter::processor::task::model::{TaskPriority, TaskSource};
#[test]
fn test_discover_please_help() {
    let text = "请你帮忙检查一下登录接口的问题";
    let tasks = discover_from_message(text);
    assert_eq!(tasks.len(), 1);
    assert_eq!(tasks[0].title, "检查一下登录接口的问题");
    assert_eq!(tasks[0].source, TaskSource::Message);
}

#[test]
fn test_discover_can_you() {
    let text = "能不能把这个 bug 修一下？";
    let tasks = discover_from_message(text);
    assert_eq!(tasks.len(), 1);
    assert!(tasks[0].title.contains("bug"));
}

#[test]
fn test_discover_urgent_priority() {
    let text = "尽快修复生产环境的崩溃问题";
    let tasks = discover_from_message(text);
    assert_eq!(tasks.len(), 1);
    assert_eq!(tasks[0].priority, TaskPriority::P1);
}

#[test]
fn discovery_message_test_discover_normal_priority() {
    let text = "请你帮忙更新一下文档";
    let tasks = discover_from_message(text);
    assert_eq!(tasks.len(), 1);
    assert_eq!(tasks[0].priority, TaskPriority::P2);
}

#[test]
fn discovery_message_test_no_match_on_greeting() {
    let text = "你好\n今天辛苦了";
    let tasks = discover_from_message(text);
    assert!(tasks.is_empty());
}

#[test]
fn test_multiple_messages() {
    let text = "请你帮忙写个测试\n其他聊天内容\n麻烦提交一下 PR";
    let tasks = discover_from_message(text);
    assert_eq!(tasks.len(), 2);
}

#[test]
fn discovery_message_test_origin_text_preserved() {
    let text = "请你帮忙检查 API 返回值";
    let tasks = discover_from_message(text);
    assert_eq!(tasks[0].origin_text, "请你帮忙检查 API 返回值");
}

#[test]
fn test_personal_intention_wo_yao() {
    let text = "我要10点要发邮件给 bob";
    let tasks = discover_from_message(text);
    assert_eq!(tasks.len(), 1);
    assert_eq!(tasks[0].title, "10点要发邮件给 bob");
}

#[test]
fn test_personal_intention_wo_xuyao() {
    let text = "我需要准备明天的会议材料";
    let tasks = discover_from_message(text);
    assert_eq!(tasks.len(), 1);
    assert_eq!(tasks[0].title, "准备明天的会议材料");
}

#[test]
fn test_personal_intention_wo_dasuan() {
    let text = "我打算下周完成这份报告";
    let tasks = discover_from_message(text);
    assert_eq!(tasks.len(), 1);
    assert_eq!(tasks[0].title, "下周完成这份报告");
}

// ── 新增：截止日期关键词测试 ────────────────────────────────

#[test]
fn test_deadline_keyword_wancheng() {
    let text = "明天下午5点完成代码发布";
    let tasks = discover_from_message(text);
    assert_eq!(tasks.len(), 1, "应识别 '完成' 为截止日期关键词");
    assert_eq!(tasks[0].source, TaskSource::Message);
    assert!(tasks[0].due_date.is_some(), "应提取到截止日期");
}

#[test]
fn test_deadline_keyword_fabu() {
    let text = "本周五发布新版本";
    let tasks = discover_from_message(text);
    assert_eq!(tasks.len(), 1, "应识别 '发布' 为截止日期关键词");
    assert_eq!(tasks[0].priority, TaskPriority::P1, "有时间表达应为 P1");
}

#[test]
fn test_deadline_keyword_shangxian() {
    let text = "下周一上线支付功能";
    let tasks = discover_from_message(text);
    assert_eq!(tasks.len(), 1, "应识别 '上线' 为截止日期关键词");
}

#[test]
fn test_deadline_keyword_jiaofu() {
    let text = "月底交付 v2.0 版本";
    let tasks = discover_from_message(text);
    assert_eq!(tasks.len(), 1, "应识别 '交付' 为截止日期关键词");
}

#[test]
fn test_time_expression_with_verb() {
    let text = "明天下午5点完成代码发布";
    let tasks = discover_from_message(text);
    assert_eq!(tasks.len(), 1);
    // 应该通过路径 2（deadline keyword）或路径 3（time + verb）匹配
    assert!(tasks[0].due_date.is_some());
    let due = tasks[0].due_date.as_ref().unwrap();
    assert!(due.contains("明天"), "due_date 应包含 '明天'，实际: {}", due);
}

#[test]
fn test_extract_due_date_relative() {
    assert!(extract_due_date("明天下午5点").is_some());
    assert!(extract_due_date("下周一").is_some());
    assert!(extract_due_date("2026-06-15").is_some());
    assert!(extract_due_date("普通文本没有时间").is_none());
}

#[test]
fn test_has_time_expression() {
    assert!(has_time_expression("明天下午5点完成"));
    assert!(has_time_expression("下周一开会"));
    assert!(has_time_expression("15点提交"));
    assert!(!has_time_expression("普通聊天内容"));
}

#[test]
fn test_no_false_positive_on_wancheng_alone() {
    // "完成" 单独出现但没有时间上下文时，仍应匹配（它是 DEADLINE_KEYWORD）
    let text = "已经完成代码审查";
    let tasks = discover_from_message(text);
    // "完成" 后面是 "代码审查"，应作为任务
    assert_eq!(tasks.len(), 1);
}

#[test]
fn test_greeting_with_today_no_false_positive() {
    // "今天辛苦了" 不应匹配（没有动词性词汇）
    let text = "今天辛苦了";
    let tasks = discover_from_message(text);
    assert!(tasks.is_empty());
}
