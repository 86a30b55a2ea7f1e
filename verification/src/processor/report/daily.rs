//! The daily report: what was done, what is in progress, tomorrow's plan
//! and what is blocked.
use vstd::prelude::*;
use crate::processor::record::WorkRecord;
use crate::processor::report::date::Date;
use crate::processor::report::markdown::{push_record_bullets, push_title_lines, record_bullets, title_lines};
use crate::processor::report::records::{derefs, filter_by_status, str_views, with_status_in};
use crate::processor::report::{Report, ReportType};

verus! {

/// The statuses a daily report counts as done.
pub open spec fn daily_done_statuses() -> Seq<Seq<char>> {
    seq!["done"@, "completed"@, "已完成"@]
}

/// The statuses a daily report counts as in progress.
pub open spec fn daily_progress_statuses() -> Seq<Seq<char>> {
    seq!["in_progress"@, "进行中"@, "doing"@]
}

/// The statuses a daily report counts as blocked.
pub open spec fn daily_blocked_statuses() -> Seq<Seq<char>> {
    seq!["blocked"@, "阻塞"@, "blocked_by"@]
}

/// The record's progress note, empty when it has none.
pub open spec fn progress_of(r: WorkRecord) -> Seq<char> {
    match r.task_progress {
        Some(p) => p@,
        None => Seq::empty(),
    }
}

/// One bullet per record, with its progress note in brackets when it has a
/// non-empty one.
pub open spec fn progress_bullets(rs: Seq<WorkRecord>) -> Seq<char>
    decreases rs.len(),
{
    if rs.len() == 0 {
        Seq::empty()
    } else {
        let r = rs.last();
        progress_bullets(rs.drop_last()) + "- **"@ + r.title@ + "**："@ + r.summary@ + (if progress_of(r).len() == 0 {
            Seq::empty()
        } else {
            "（"@ + progress_of(r) + "）"@
        }) + "\n"@
    }
}

/// The daily report's Markdown.
pub open spec fn daily_markdown(
    date: Seq<char>,
    completed: Seq<WorkRecord>,
    in_progress: Seq<WorkRecord>,
    blocked: Seq<WorkRecord>,
) -> Seq<char> {
    "# 日报："@ + date + "\n\n"@
    + "## 完成事项\n\n"@
    + (if completed.len() == 0 { "_无_\n\n"@ } else { record_bullets(completed) + "\n"@ })
    + "## 进行中\n\n"@
    + (if in_progress.len() == 0 { "_无_\n\n"@ } else { progress_bullets(in_progress) + "\n"@ })
    + "## 明日计划\n\n"@
    + (if in_progress.len() == 0 { "_待定_\n\n"@ } else { title_lines(in_progress, "- 继续："@) + "\n"@ })
    + "## 阻塞项\n\n"@
    + (if blocked.len() == 0 { "_无_\n\n"@ } else { record_bullets(blocked) + "\n"@ })
}

/// Appends one bullet per record with its progress note (see
/// `progress_bullets`).
fn push_progress_bullets(md: &mut String, rs: &Vec<&WorkRecord>)
    ensures
        final(md)@ == old(md)@ + progress_bullets(derefs(rs@)),
{
    let ghost d = derefs(rs@);
    let mut i: usize = 0;
    assert(old(md)@ + progress_bullets(d.take(0)) =~= old(md)@);
    while i < rs.len()
        invariant
            i <= rs@.len(),
            d == derefs(rs@),
            md@ == old(md)@ + progress_bullets(d.take(i as int)),
        decreases rs.len() - i,
    {
        let r = rs[i];
        assert(d.take(i + 1).drop_last() =~= d.take(i as int));
        assert(d.take(i + 1).last() == *r);
        let ghost before = md@;
        crate::text::append_str(md, "- **");
        crate::text::append_str(md, r.title.as_str());
        crate::text::append_str(md, "**：");
        crate::text::append_str(md, r.summary.as_str());
        let ghost mid = md@;
        match &r.task_progress {
            Some(p) => {
                if p.as_str().unicode_len() > 0 {
                    crate::text::append_str(md, "（");
                    crate::text::append_str(md, p.as_str());
                    crate::text::append_str(md, "）");
                }
            },
            None => {},
        }
        let ghost note: Seq<char> = if progress_of(*r).len() == 0 {
            Seq::empty()
        } else {
            "（"@ + progress_of(*r) + "）"@
        };
        assert(md@ =~= mid + note);
        crate::text::append_str(md, "\n");
        i = i + 1;
    }
    assert(d.take(d.len() as int) =~= d);
}

/// The daily report's Markdown (see `daily_markdown`).
fn render_daily_markdown(
    date: &Date,
    completed: &Vec<&WorkRecord>,
    in_progress: &Vec<&WorkRecord>,
    blocked: &Vec<&WorkRecord>,
) -> (r: String)
    ensures
        r@ == daily_markdown(date.text(), derefs(completed@), derefs(in_progress@), derefs(blocked@)),
{
    let mut md = String::from_str("# 日报：");
    crate::text::append_str(&mut md, date.to_text().as_str());
    crate::text::append_str(&mut md, "\n\n");
    let ghost s0 = md@;
    crate::text::append_str(&mut md, "## 完成事项\n\n");
    if completed.len() == 0 {
        crate::text::append_str(&mut md, "_无_\n\n");
    } else {
        push_record_bullets(&mut md, completed);
        crate::text::append_str(&mut md, "\n");
    }
    let ghost s1 = md@;
    crate::text::append_str(&mut md, "## 进行中\n\n");
    if in_progress.len() == 0 {
        crate::text::append_str(&mut md, "_无_\n\n");
    } else {
        push_progress_bullets(&mut md, in_progress);
        crate::text::append_str(&mut md, "\n");
    }
    let ghost s2 = md@;
    crate::text::append_str(&mut md, "## 明日计划\n\n");
    if in_progress.len() == 0 {
        crate::text::append_str(&mut md, "_待定_\n\n");
    } else {
        push_title_lines(&mut md, in_progress, "- 继续：");
        crate::text::append_str(&mut md, "\n");
    }
    let ghost s3 = md@;
    crate::text::append_str(&mut md, "## 阻塞项\n\n");
    if blocked.len() == 0 {
        crate::text::append_str(&mut md, "_无_\n\n");
    } else {
        push_record_bullets(&mut md, blocked);
        crate::text::append_str(&mut md, "\n");
    }
    proof {
        let c = derefs(completed@);
        let a: Seq<char> = if c.len() == 0 { "_无_\n\n"@ } else { record_bullets(c) + "\n"@ };
        assert(s1 =~= s0 + "## 完成事项\n\n"@ + a);
        let p = derefs(in_progress@);
        let b: Seq<char> = if p.len() == 0 { "_无_\n\n"@ } else { progress_bullets(p) + "\n"@ };
        assert(s2 =~= s1 + "## 进行中\n\n"@ + b);
        let e: Seq<char> = if p.len() == 0 { "_待定_\n\n"@ } else { title_lines(p, "- 继续："@) + "\n"@ };
        assert(s3 =~= s2 + "## 明日计划\n\n"@ + e);
        let k = derefs(blocked@);
        let f: Seq<char> = if k.len() == 0 { "_无_\n\n"@ } else { record_bullets(k) + "\n"@ };
        assert(md@ =~= s3 + "## 阻塞项\n\n"@ + f);
    }
    md
}

/// The daily report of `date` over the records `rs`.
pub open spec fn is_daily_report(r: Report, date: Date, rs: Seq<WorkRecord>) -> bool {
    &&& r.report_type == ReportType::Daily
    &&& r.title@ == "日报："@ + date.text()
    &&& r.period_start == date && r.period_end == date
    &&& r.content@ == daily_markdown(
        date.text(),
        with_status_in(rs, daily_done_statuses()),
        with_status_in(rs, daily_progress_statuses()),
        with_status_in(rs, daily_blocked_statuses())
    )
    &&& r.status == crate::processor::report::confirm::ReportStatus::Draft
}

/// The daily report of `date`: the records whose lower-cased status is one
/// of the done, in-progress and blocked statuses of a daily report.
pub fn generate_daily(date: Date, records: &[WorkRecord]) -> (r: Report)
    ensures
        is_daily_report(r, date, records@),
{
    let done_words: [&str; 3] = ["done", "completed", "已完成"];
    let progress_words: [&str; 3] = ["in_progress", "进行中", "doing"];
    let block_words: [&str; 3] = ["blocked", "阻塞", "blocked_by"];
    assert(str_views(done_words@) =~= daily_done_statuses());
    assert(str_views(progress_words@) =~= daily_progress_statuses());
    assert(str_views(block_words@) =~= daily_blocked_statuses());
    let completed = filter_by_status(records, &done_words);
    let in_progress = filter_by_status(records, &progress_words);
    let blocked = filter_by_status(records, &block_words);
    let content = render_daily_markdown(&date, &completed, &in_progress, &blocked);
    let mut title = String::from_str("日报：");
    crate::text::append_str(&mut title, date.to_text().as_str());
    Report::new(ReportType::Daily, title, content, date, date)
}

} // verus!
