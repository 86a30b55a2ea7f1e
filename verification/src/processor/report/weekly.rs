//! The weekly report: a week from its Monday to the Sunday after, with
//! progress, results, next week's plan and risks.
use vstd::prelude::*;
use crate::processor::record::WorkRecord;
use crate::processor::report::date::{add_days, days_after, Date};
use crate::processor::report::markdown::{count_rows, push_count_rows, push_record_bullets, push_title_lines, record_bullets, title_lines};
use crate::processor::report::records::{
    category_counts, count_categories, derefs, done_statuses, filter_by_mention, filter_by_status, pair_views,
    str_views, with_status_in, with_status_mentioning,
};
use crate::processor::report::{Report, ReportType};
use crate::text::decimal;

verus! {

/// The words whose presence in a status marks a record blocked.
pub open spec fn blocked_words() -> Seq<Seq<char>> {
    seq!["blocked"@, "阻塞"@]
}

/// The words whose presence in a status marks a record in progress.
pub open spec fn in_progress_words() -> Seq<Seq<char>> {
    seq!["in_progress"@, "doing"@, "进行中"@]
}

/// The weekly report's Markdown.
pub open spec fn weekly_markdown(
    start: Seq<char>,
    end: Seq<char>,
    total: nat,
    done: Seq<WorkRecord>,
    in_progress: Seq<WorkRecord>,
    blocked: Seq<WorkRecord>,
    counts: Seq<(Seq<char>, nat)>,
) -> Seq<char> {
    "# 周报："@ + start + " ~ "@ + end + "\n\n"@
    + "## 本周进度\n\n"@
    + "共处理 **"@ + decimal(total) + "** 条记录，完成 **"@ + decimal(done.len()) + "** 条，进行中 **"@
        + decimal(in_progress.len()) + "** 条。\n\n"@
    + (if counts.len() > 0 {
        "### 分类统计\n\n"@ + "| 分类 | 数量 |\n|------|------|\n"@ + count_rows(counts) + "\n"@
    } else {
        Seq::empty()
    })
    + "## 关键成果\n\n"@
    + (if done.len() == 0 { "_本周暂无完成事项_\n\n"@ } else { record_bullets(done) + "\n"@ })
    + "## 下周计划\n\n"@
    + (if in_progress.len() == 0 { "_待定_\n\n"@ } else { title_lines(in_progress, "- 继续推进："@) + "\n"@ })
    + "## 风险与阻塞\n\n"@
    + (if blocked.len() == 0 { "_无风险_\n\n"@ } else { record_bullets(blocked) + "\n"@ })
}

/// The weekly report's Markdown (see `weekly_markdown`); the category rows
/// come in the order given.
pub fn render_weekly_markdown(
    week_start: &Date,
    week_end: &Date,
    all: &[WorkRecord],
    done: &Vec<&WorkRecord>,
    in_progress: &Vec<&WorkRecord>,
    blocked: &Vec<&WorkRecord>,
    category_counts: &[(&str, usize)],
) -> (r: String)
    ensures
        r@ == weekly_markdown(
            week_start.text(),
            week_end.text(),
            all@.len() as nat,
            derefs(done@),
            derefs(in_progress@),
            derefs(blocked@),
            pair_views(category_counts@),
        ),
{
    let mut md = String::from_str("# 周报：");
    crate::text::append_str(&mut md, week_start.to_text().as_str());
    crate::text::append_str(&mut md, " ~ ");
    crate::text::append_str(&mut md, week_end.to_text().as_str());
    crate::text::append_str(&mut md, "\n\n");
    let ghost s1 = md@;
    crate::text::append_str(&mut md, "## 本周进度\n\n");
    crate::text::append_str(&mut md, "共处理 **");
    crate::text::push_decimal(&mut md, all.len() as u64);
    crate::text::append_str(&mut md, "** 条记录，完成 **");
    crate::text::push_decimal(&mut md, done.len() as u64);
    crate::text::append_str(&mut md, "** 条，进行中 **");
    crate::text::push_decimal(&mut md, in_progress.len() as u64);
    crate::text::append_str(&mut md, "** 条。\n\n");
    let ghost s2 = md@;
    if category_counts.len() > 0 {
        crate::text::append_str(&mut md, "### 分类统计\n\n");
        crate::text::append_str(&mut md, "| 分类 | 数量 |\n|------|------|\n");
        push_count_rows(&mut md, category_counts);
        crate::text::append_str(&mut md, "\n");
    }
    let ghost s3 = md@;
    crate::text::append_str(&mut md, "## 关键成果\n\n");
    if done.len() == 0 {
        crate::text::append_str(&mut md, "_本周暂无完成事项_\n\n");
    } else {
        push_record_bullets(&mut md, done);
        crate::text::append_str(&mut md, "\n");
    }
    let ghost s4 = md@;
    crate::text::append_str(&mut md, "## 下周计划\n\n");
    if in_progress.len() == 0 {
        crate::text::append_str(&mut md, "_待定_\n\n");
    } else {
        push_title_lines(&mut md, in_progress, "- 继续推进：");
        crate::text::append_str(&mut md, "\n");
    }
    let ghost s5 = md@;
    crate::text::append_str(&mut md, "## 风险与阻塞\n\n");
    if blocked.len() == 0 {
        crate::text::append_str(&mut md, "_无风险_\n\n");
    } else {
        push_record_bullets(&mut md, blocked);
        crate::text::append_str(&mut md, "\n");
    }
    proof {
        let counts = pair_views(category_counts@);
        let a: Seq<char> = if counts.len() > 0 {
            "### 分类统计\n\n"@ + "| 分类 | 数量 |\n|------|------|\n"@ + count_rows(counts) + "\n"@
        } else {
            Seq::empty()
        };
        assert(s3 =~= s2 + a);
        let d = derefs(done@);
        let b: Seq<char> = if d.len() == 0 { "_本周暂无完成事项_\n\n"@ } else { record_bullets(d) + "\n"@ };
        assert(s4 =~= s3 + "## 关键成果\n\n"@ + b);
        let p = derefs(in_progress@);
        let c: Seq<char> = if p.len() == 0 { "_待定_\n\n"@ } else { title_lines(p, "- 继续推进："@) + "\n"@ };
        assert(s5 =~= s4 + "## 下周计划\n\n"@ + c);
        let k = derefs(blocked@);
        let e: Seq<char> = if k.len() == 0 { "_无风险_\n\n"@ } else { record_bullets(k) + "\n"@ };
        assert(md@ =~= s5 + "## 风险与阻塞\n\n"@ + e);
    }
    md
}

/// The weekly report of the week from `week_start` over the records `rs`.
pub open spec fn is_weekly_report(rep: Report, week_start: Date, rs: Seq<WorkRecord>) -> bool {
    &&& rep.report_type == ReportType::Weekly
    &&& rep.period_start == week_start
    &&& days_after(week_start.y(), week_start.m(), week_start.d(), 6) == Some((rep.period_end.y(), rep.period_end.m(), rep.period_end.d()))
    &&& rep.title@ == "周报："@ + week_start.text() + " ~ "@ + rep.period_end.text()
    &&& rep.content@ == weekly_markdown(
        week_start.text(),
        rep.period_end.text(),
        rs.len() as nat,
        with_status_in(rs, done_statuses()),
        with_status_mentioning(rs, in_progress_words()),
        with_status_mentioning(rs, blocked_words()),
        category_counts(rs),
    )
    &&& rep.status == crate::processor::report::confirm::ReportStatus::Draft
}

/// The weekly report for the week from `week_start` to six days later:
/// records done (status one of the done statuses), in progress and blocked
/// (status mentioning the words of `in_progress_words` and `blocked_words`),
/// counts per category in label order.  `None` when the week's last day is
/// past the dates `chrono` holds.
pub fn generate_week(week_start: Date, records: &[WorkRecord]) -> (r: Option<Report>)
    ensures
        r is Some <==> days_after(week_start.y(), week_start.m(), week_start.d(), 6) is Some,
        r matches Some(rep) ==> is_weekly_report(rep, week_start, records@),
{
    let week_end = match add_days(&week_start, 6) {
        Some(d) => d,
        None => {
            return None;
        },
    };
    let done_words: [&str; 4] = ["done", "completed", "完成", "已完成"];
    let progress_words: [&str; 3] = ["in_progress", "doing", "进行中"];
    let block_words: [&str; 2] = ["blocked", "阻塞"];
    assert(str_views(done_words@) =~= done_statuses());
    assert(str_views(progress_words@) =~= in_progress_words());
    assert(str_views(block_words@) =~= blocked_words());
    let done = filter_by_status(records, &done_words);
    let blocked = filter_by_mention(records, &block_words);
    let in_progress = filter_by_mention(records, &progress_words);
    let counts = count_categories(records);
    let content = render_weekly_markdown(&week_start, &week_end, records, &done, &in_progress, &blocked, counts.as_slice());
    let mut title = String::from_str("周报：");
    crate::text::append_str(&mut title, week_start.to_text().as_str());
    crate::text::append_str(&mut title, " ~ ");
    crate::text::append_str(&mut title, week_end.to_text().as_str());
    Some(Report::new(ReportType::Weekly, title, content, week_start, week_end))
}

} // verus!
