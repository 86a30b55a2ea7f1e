//! The semi-annual report: a stage summary, goal adjustments suggested by
//! the block and communication shares, key achievements, time allocation
//! and the plan for the next half.
use vstd::prelude::*;
use crate::processor::record::WorkRecord;
use crate::processor::report::date::Date;
use crate::processor::report::markdown::{count_rows, push_count_rows, push_percent, push_u128};
use crate::processor::report::quarterly::is_done;
use crate::scheduler::dependency::string_views;
use crate::processor::report::records::{
    blocked_statuses, category_counts, count_by_status, count_categories, done_statuses, has_status_in,
    has_status_mentioning, pair_views, status_mentions, str_views, with_status_in,
};
use crate::processor::report::summary::{int_text, last_max, last_max_index, push_int, GoalAdjustment, SemiAnnualReport};
use crate::processor::report::weekly::in_progress_words;
use crate::processor::report::{Report, ReportType};
use crate::processor::review::percent;
use crate::text::decimal;

verus! {

/// `num / den` as a whole percentage with ties to the even neighbour, the
/// way `{:.0}` writes the quotient (0 when `den` is 0).
///
/// Ties are those of the exact quotient; in `f64` a quotient whose exact
/// percentage ends in one half can come out just off it and round the other
/// way.  The library keeps no floating-point values.
pub open spec fn percent_even(num: nat, den: nat) -> nat {
    if den == 0 {
        0
    } else {
        let q = 100 * num / den;
        let r = 100 * num % den;
        if 2 * r > den {
            q + 1
        } else if 2 * r < den {
            q
        } else if q % 2 == 0 {
            q
        } else {
            q + 1
        }
    }
}

/// The stage summary of a half year.
pub open spec fn stage_summary(period: Seq<char>, total: nat, done: nat, blocked: nat, c: Seq<(Seq<char>, nat)>) -> Seq<char> {
    if total == 0 {
        period + " 暂无工作记录。"@
    } else {
        period + " 期间共处理 "@ + decimal(total) + " 项工作，完成 "@ + decimal(done) + " 项（"@
            + decimal(percent(done, total)) + "%）。"@
            + (if blocked > 0 { " "@ + decimal(blocked) + " 项受阻。"@ } else { Seq::empty() })
            + (if c.len() > 0 {
                " 重点投入「"@ + c[last_max(c)].0 + "」（"@ + decimal(c[last_max(c)].1) + " 项）。"@
            } else {
                Seq::empty()
            })
    }
}

/// The count given for `label`, 0 when none is.
pub open spec fn label_count(c: Seq<(Seq<char>, nat)>, label: Seq<char>) -> nat
    decreases c.len(),
{
    if c.len() == 0 {
        0
    } else if c[0].0 == label {
        c[0].1
    } else {
        label_count(c.drop_first(), label)
    }
}

/// A goal adjustment: goal, reason, new direction.
pub type AdjustmentView = (Seq<char>, Seq<char>, Seq<char>);

pub open spec fn adjustment_view(a: GoalAdjustment) -> AdjustmentView {
    (a.goal@, a.reason@, a.new_direction@)
}

/// The goal adjustments: lower the block rate when more than 15% of the
/// records are blocked; improve communication when communication and
/// meetings (by the given counts) exceed 40% of the records.
pub open spec fn goal_adjustments(total: nat, blocked: nat, c: Seq<(Seq<char>, nat)>) -> Seq<AdjustmentView> {
    let comm = label_count(c, "沟通"@) + label_count(c, "会议"@);
    (if total > 0 && 20 * blocked > 3 * total {
        seq![("降低阻塞率"@, "当前阻塞率 "@ + decimal(percent_even(blocked, total)) + "%"@, "加强风险预判，提前识别依赖关系"@)]
    } else {
        Seq::empty()
    }) + (if total > 0 && 5 * comm > 2 * total {
        seq![("优化沟通效率"@, "沟通/会议类占比 "@ + decimal(percent_even(comm, total)) + "%"@, "减少低效会议，提升异步沟通比例"@)]
    } else {
        Seq::empty()
    })
}

/// The first `n` records.
pub open spec fn first_n(rs: Seq<WorkRecord>, n: nat) -> Seq<WorkRecord> {
    if rs.len() <= n { rs } else { rs.take(n as int) }
}

/// The key achievements: `title：summary` of the first five done records,
/// or `暂无已完成记录`.
pub open spec fn key_achievements(rs: Seq<WorkRecord>) -> Seq<Seq<char>> {
    let done = with_status_in(rs, done_statuses());
    if done.len() == 0 {
        seq!["暂无已完成记录"@]
    } else {
        first_n(done, 5).map_values(|r: WorkRecord| r.title@ + "："@ + r.summary@)
    }
}

/// The records whose status mentions one of `words`, in order.
pub open spec fn mentioning(rs: Seq<WorkRecord>, words: Seq<Seq<char>>) -> Seq<WorkRecord> {
    crate::processor::report::records::with_status_mentioning(rs, words)
}

/// The plan for the next half: `继续推进：title` for the first five records in
/// progress (status mentioning `in_progress`, `doing` or `进行中`), or `待定`.
pub open spec fn next_half_plan(rs: Seq<WorkRecord>) -> Seq<Seq<char>> {
    let p = mentioning(rs, in_progress_words());
    if p.len() == 0 {
        seq!["待定"@]
    } else {
        first_n(p, 5).map_values(|r: WorkRecord| "继续推进："@ + r.title@)
    }
}

/// One bullet per line.
pub open spec fn bullet_lines(v: Seq<Seq<char>>) -> Seq<char>
    decreases v.len(),
{
    if v.len() == 0 {
        Seq::empty()
    } else {
        bullet_lines(v.drop_last()) + "- "@ + v.last() + "\n"@
    }
}

/// One section per adjustment.
pub open spec fn adjustment_sections(a: Seq<AdjustmentView>) -> Seq<char>
    decreases a.len(),
{
    if a.len() == 0 {
        Seq::empty()
    } else {
        let (goal, reason, dir) = a.last();
        adjustment_sections(a.drop_last()) + "### "@ + goal + "\n\n"@ + "- **原因**："@ + reason + "\n"@ + "- **新方向**："@
            + dir + "\n\n"@
    }
}

/// The semi-annual report's Markdown.
pub open spec fn semi_annual_markdown(
    period: Seq<char>,
    stage: Seq<char>,
    adjustments: Seq<AdjustmentView>,
    achievements: Seq<Seq<char>>,
    counts: Seq<(Seq<char>, nat)>,
    plan: Seq<Seq<char>>,
) -> Seq<char> {
    "# 半年报："@ + period + "\n\n"@
    + "## 阶段总结\n\n"@ + stage + "\n\n"@
    + "## 目标调整\n\n"@
    + (if adjustments.len() == 0 { "_无需调整_\n\n"@ } else { adjustment_sections(adjustments) })
    + "## 关键成就\n\n"@ + bullet_lines(achievements) + "\n"@
    + "## 时间分配\n\n"@
    + (if counts.len() == 0 {
        "_暂无记录_\n\n"@
    } else {
        "| 分类 | 数量 |\n|------|------|\n"@ + count_rows(counts) + "\n"@
    })
    + "## 下阶段计划\n\n"@ + bullet_lines(plan) + "\n"@
}

/// `year`-H1 or `year`-H2.
pub open spec fn half_text(year: int, half: int) -> Seq<char> {
    int_text(year) + "-"@ + (if half == 1 { "H1"@ } else { "H2"@ })
}

/// The first and last day of half `half` of `year`: January to June for
/// 1, July to December otherwise.
pub fn semi_annual_date_range(year: i32, half: u32) -> (r: (Date, Date))
    requires
        -262143 <= year <= 262142,
    ensures
        half == 1 ==> r.0.y() == year && r.0.m() == 1 && r.0.d() == 1 && r.1.y() == year && r.1.m() == 6 && r.1.d() == 30,
        half != 1 ==> r.0.y() == year && r.0.m() == 7 && r.0.d() == 1 && r.1.y() == year && r.1.m() == 12 && r.1.d() == 31,
{
    if half == 1 {
        (Date::from_ymd(year, 1, 1).unwrap(), Date::from_ymd(year, 6, 30).unwrap())
    } else {
        (Date::from_ymd(year, 7, 1).unwrap(), Date::from_ymd(year, 12, 31).unwrap())
    }
}

/// The stage summary (see `stage_summary`).
pub fn build_stage_summary(period: &str, total: usize, done_count: usize, blocked_count: usize, category_counts: &[(&str, usize)]) -> (r: String)
    ensures
        r@ == stage_summary(period@, total as nat, done_count as nat, blocked_count as nat, pair_views(category_counts@)),
{
    let mut s = String::from_str(period);
    if total == 0 {
        crate::text::append_str(&mut s, " 暂无工作记录。");
        return s;
    }
    crate::text::append_str(&mut s, " 期间共处理 ");
    crate::text::push_decimal(&mut s, total as u64);
    crate::text::append_str(&mut s, " 项工作，完成 ");
    crate::text::push_decimal(&mut s, done_count as u64);
    crate::text::append_str(&mut s, " 项（");
    push_percent(&mut s, done_count, total);
    crate::text::append_str(&mut s, "%）。");
    let ghost s1 = s@;
    if blocked_count > 0 {
        crate::text::append_str(&mut s, " ");
        crate::text::push_decimal(&mut s, blocked_count as u64);
        crate::text::append_str(&mut s, " 项受阻。");
    }
    let ghost s2 = s@;
    if category_counts.len() > 0 {
        let m = last_max_index(category_counts);
        let (label, count) = category_counts[m];
        crate::text::append_str(&mut s, " 重点投入「");
        crate::text::append_str(&mut s, label);
        crate::text::append_str(&mut s, "」（");
        crate::text::push_decimal(&mut s, count as u64);
        crate::text::append_str(&mut s, " 项）。");
    }
    proof {
        let c = pair_views(category_counts@);
        let b: Seq<char> = if blocked_count > 0 { " "@ + decimal(blocked_count as nat) + " 项受阻。"@ } else { Seq::empty() };
        assert(s2 =~= s1 + b);
        let t: Seq<char> = if c.len() > 0 {
            " 重点投入「"@ + c[last_max(c)].0 + "」（"@ + decimal(c[last_max(c)].1) + " 项）。"@
        } else {
            Seq::empty()
        };
        assert(s@ =~= s2 + t);
    }
    s
}

/// Appends `num / den` as a whole percentage with ties to even (see
/// `percent_even`).
fn push_percent_even(s: &mut String, num: u128, den: u128)
    requires
        num <= 2 * 0xffff_ffff_ffff_ffffu128,
        den <= 0xffff_ffff_ffff_ffffu128,
    ensures
        final(s)@ == old(s)@ + decimal(percent_even(num as nat, den as nat)),
{
    if den == 0 {
        crate::text::push_decimal(s, 0);
        return;
    }
    let q = 100 * num / den;
    let r = 100 * num % den;
    assert(q as int <= 100 * num as int) by (nonlinear_arith)
        requires
            q as int == (100 * num as int) / (den as int),
            den > 0,
    ;
    let p = if 2 * r > den {
        q + 1
    } else if 2 * r < den {
        q
    } else if q % 2 == 0 {
        q
    } else {
        q + 1
    };
    push_u128(s, p);
}

/// The count given for `label` (see `label_count`).
fn label_count_of(c: &[(&str, usize)], label: &str) -> (r: usize)
    ensures
        r == label_count(pair_views(c@), label@),
{
    let ghost v = pair_views(c@);
    let mut i: usize = 0;
    assert(v.subrange(0, v.len() as int) =~= v);
    while i < c.len()
        invariant
            i <= c@.len(),
            v == pair_views(c@),
            label_count(v, label@) == label_count(v.subrange(i as int, v.len() as int), label@),
        decreases c.len() - i,
    {
        let (l, n) = c[i];
        assert(v.subrange(i as int, v.len() as int)[0] == (l@, n as nat));
        if crate::text::str_eq(l, label) {
            return n;
        }
        assert(v.subrange(i as int, v.len() as int).drop_first() =~= v.subrange(i + 1, v.len() as int));
        i = i + 1;
    }
    0
}

/// The goal adjustments (see `goal_adjustments`), with the blocked records
/// those whose status is one of the blocked statuses.
pub fn build_goal_adjustments(records: &[WorkRecord], category_counts: &[(&str, usize)]) -> (r: Vec<GoalAdjustment>)
    ensures
        r@.map_values(|a: GoalAdjustment| adjustment_view(a)) == goal_adjustments(
            records@.len() as nat,
            with_status_in(records@, blocked_statuses()).len(),
            pair_views(category_counts@),
        ),
{
    let block_words: [&str; 2] = ["blocked", "阻塞"];
    assert(str_views(block_words@) =~= blocked_statuses());
    let blocked_count = count_by_status(records, &block_words);
    let total = records.len();
    let mut adjustments: Vec<GoalAdjustment> = Vec::new();
    if total > 0 && 20 * (blocked_count as u128) > 3 * (total as u128) {
        let mut reason = String::from_str("当前阻塞率 ");
        push_percent_even(&mut reason, blocked_count as u128, total as u128);
        crate::text::append_str(&mut reason, "%");
        adjustments.push(GoalAdjustment {
            goal: String::from_str("降低阻塞率"),
            reason,
            new_direction: String::from_str("加强风险预判，提前识别依赖关系"),
        });
    }
    let ghost a1 = adjustments@;
    let comm = label_count_of(category_counts, "沟通") as u128 + label_count_of(category_counts, "会议") as u128;
    if total > 0 && 5 * comm > 2 * (total as u128) {
        let mut reason = String::from_str("沟通/会议类占比 ");
        push_percent_even(&mut reason, comm, total as u128);
        crate::text::append_str(&mut reason, "%");
        adjustments.push(GoalAdjustment {
            goal: String::from_str("优化沟通效率"),
            reason,
            new_direction: String::from_str("减少低效会议，提升异步沟通比例"),
        });
    }
    proof {
        let c = pair_views(category_counts@);
        let b = with_status_in(records@, blocked_statuses()).len();
        let n = records@.len() as nat;
        let first: Seq<AdjustmentView> = if n > 0 && 20 * b > 3 * n {
            seq![("降低阻塞率"@, "当前阻塞率 "@ + decimal(percent_even(b, n)) + "%"@, "加强风险预判，提前识别依赖关系"@)]
        } else {
            Seq::empty()
        };
        assert(a1.map_values(|a: GoalAdjustment| adjustment_view(a)) =~= first);
        assert(adjustments@.map_values(|a: GoalAdjustment| adjustment_view(a)) =~= goal_adjustments(n, b, c));
    }
    adjustments
}

/// The key achievements (see `key_achievements`).
pub fn build_key_achievements(records: &[WorkRecord]) -> (r: Vec<String>)
    ensures
        string_views(r@) == key_achievements(records@),
{
    let done_words: [&str; 4] = ["done", "completed", "完成", "已完成"];
    assert(str_views(done_words@) =~= done_statuses());
    let done = crate::processor::report::records::filter_by_status(records, &done_words);
    let ghost d = crate::processor::report::records::derefs(done@);
    let mut out: Vec<String> = Vec::new();
    if done.len() == 0 {
        out.push(String::from_str("暂无已完成记录"));
        assert(string_views(out@) =~= seq!["暂无已完成记录"@]);
        return out;
    }
    let mut i: usize = 0;
    while i < done.len() && i < 5
        invariant
            i <= done@.len(),
            i <= 5,
            d == crate::processor::report::records::derefs(done@),
            string_views(out@) == d.take(i as int).map_values(|r: WorkRecord| r.title@ + "："@ + r.summary@),
        decreases done.len() - i,
    {
        let r = done[i];
        let mut line = r.title.clone();
        crate::text::append_str(&mut line, "：");
        crate::text::append_str(&mut line, r.summary.as_str());
        let ghost before = out@;
        out.push(line);
        assert(d.take(i + 1) =~= d.take(i as int).push(*r));
        assert(string_views(out@) =~= string_views(before).push(r.title@ + "："@ + r.summary@));
        assert(d.take(i + 1).map_values(|r: WorkRecord| r.title@ + "："@ + r.summary@) =~= d.take(i as int).map_values(
            |r: WorkRecord| r.title@ + "："@ + r.summary@,
        ).push(r.title@ + "："@ + r.summary@));
        i = i + 1;
    }
    assert(d.take(i as int) =~= first_n(d, 5));
    out
}

/// The plan for the next half (see `next_half_plan`).
pub fn build_next_half_plan(records: &[WorkRecord]) -> (r: Vec<String>)
    ensures
        string_views(r@) == next_half_plan(records@),
{
    let progress_words: [&str; 3] = ["in_progress", "doing", "进行中"];
    assert(str_views(progress_words@) =~= in_progress_words());
    let p = crate::processor::report::records::filter_by_mention(records, &progress_words);
    let ghost d = crate::processor::report::records::derefs(p@);
    let mut out: Vec<String> = Vec::new();
    if p.len() == 0 {
        out.push(String::from_str("待定"));
        assert(string_views(out@) =~= seq!["待定"@]);
        return out;
    }
    let mut i: usize = 0;
    while i < p.len() && i < 5
        invariant
            i <= p@.len(),
            i <= 5,
            d == crate::processor::report::records::derefs(p@),
            string_views(out@) == d.take(i as int).map_values(|r: WorkRecord| "继续推进："@ + r.title@),
        decreases p.len() - i,
    {
        let r = p[i];
        let mut line = String::from_str("继续推进：");
        crate::text::append_str(&mut line, r.title.as_str());
        let ghost before = out@;
        out.push(line);
        assert(d.take(i + 1) =~= d.take(i as int).push(*r));
        assert(string_views(out@) =~= string_views(before).push("继续推进："@ + r.title@));
        assert(d.take(i + 1).map_values(|r: WorkRecord| "继续推进："@ + r.title@) =~= d.take(i as int).map_values(
            |r: WorkRecord| "继续推进："@ + r.title@,
        ).push("继续推进："@ + r.title@));
        i = i + 1;
    }
    assert(d.take(i as int) =~= first_n(d, 5));
    out
}

/// Appends one bullet per line (see `bullet_lines`).
pub(crate) fn push_bullet_lines(md: &mut String, v: &Vec<String>)
    ensures
        final(md)@ == old(md)@ + bullet_lines(string_views(v@)),
{
    let ghost sv = string_views(v@);
    let mut i: usize = 0;
    assert(old(md)@ + bullet_lines(sv.take(0)) =~= old(md)@);
    while i < v.len()
        invariant
            i <= v@.len(),
            sv == string_views(v@),
            md@ == old(md)@ + bullet_lines(sv.take(i as int)),
        decreases v.len() - i,
    {
        assert(sv.take(i + 1).drop_last() =~= sv.take(i as int));
        assert(sv.take(i + 1).last() == v@[i as int]@);
        crate::text::append_str(md, "- ");
        crate::text::append_str(md, v[i].as_str());
        crate::text::append_str(md, "\n");
        i = i + 1;
    }
    assert(sv.take(sv.len() as int) =~= sv);
}

/// Appends one section per adjustment (see `adjustment_sections`).
fn push_adjustment_sections(md: &mut String, a: &Vec<GoalAdjustment>)
    ensures
        final(md)@ == old(md)@ + adjustment_sections(a@.map_values(|x: GoalAdjustment| adjustment_view(x))),
{
    let ghost v = a@.map_values(|x: GoalAdjustment| adjustment_view(x));
    let mut i: usize = 0;
    assert(old(md)@ + adjustment_sections(v.take(0)) =~= old(md)@);
    while i < a.len()
        invariant
            i <= a@.len(),
            v == a@.map_values(|x: GoalAdjustment| adjustment_view(x)),
            md@ == old(md)@ + adjustment_sections(v.take(i as int)),
        decreases a.len() - i,
    {
        let adj = &a[i];
        assert(v.take(i + 1).drop_last() =~= v.take(i as int));
        assert(v.take(i + 1).last() == adjustment_view(*adj));
        crate::text::append_str(md, "### ");
        crate::text::append_str(md, adj.goal.as_str());
        crate::text::append_str(md, "\n\n");
        crate::text::append_str(md, "- **原因**：");
        crate::text::append_str(md, adj.reason.as_str());
        crate::text::append_str(md, "\n");
        crate::text::append_str(md, "- **新方向**：");
        crate::text::append_str(md, adj.new_direction.as_str());
        crate::text::append_str(md, "\n\n");
        i = i + 1;
    }
    assert(v.take(v.len() as int) =~= v);
}

/// The semi-annual report's Markdown (see `semi_annual_markdown`).
fn render_semi_annual_markdown(report: &SemiAnnualReport, category_counts: &[(&str, usize)]) -> (r: String)
    ensures
        r@ == semi_annual_markdown(
            report.period@,
            report.stage_summary@,
            report.goal_adjustments@.map_values(|x: GoalAdjustment| adjustment_view(x)),
            string_views(report.key_achievements@),
            pair_views(category_counts@),
            string_views(report.next_half_plan@),
        ),
{
    let mut md = String::from_str("# 半年报：");
    crate::text::append_str(&mut md, report.period.as_str());
    crate::text::append_str(&mut md, "\n\n");
    crate::text::append_str(&mut md, "## 阶段总结\n\n");
    crate::text::append_str(&mut md, report.stage_summary.as_str());
    crate::text::append_str(&mut md, "\n\n");
    let ghost s1 = md@;
    crate::text::append_str(&mut md, "## 目标调整\n\n");
    if report.goal_adjustments.len() == 0 {
        crate::text::append_str(&mut md, "_无需调整_\n\n");
    } else {
        push_adjustment_sections(&mut md, &report.goal_adjustments);
    }
    let ghost s2 = md@;
    crate::text::append_str(&mut md, "## 关键成就\n\n");
    push_bullet_lines(&mut md, &report.key_achievements);
    crate::text::append_str(&mut md, "\n");
    let ghost s3 = md@;
    crate::text::append_str(&mut md, "## 时间分配\n\n");
    if category_counts.len() == 0 {
        crate::text::append_str(&mut md, "_暂无记录_\n\n");
    } else {
        crate::text::append_str(&mut md, "| 分类 | 数量 |\n|------|------|\n");
        push_count_rows(&mut md, category_counts);
        crate::text::append_str(&mut md, "\n");
    }
    let ghost s4 = md@;
    crate::text::append_str(&mut md, "## 下阶段计划\n\n");
    push_bullet_lines(&mut md, &report.next_half_plan);
    crate::text::append_str(&mut md, "\n");
    proof {
        let a = report.goal_adjustments@.map_values(|x: GoalAdjustment| adjustment_view(x));
        let x: Seq<char> = if a.len() == 0 { "_无需调整_\n\n"@ } else { adjustment_sections(a) };
        assert(s2 =~= s1 + "## 目标调整\n\n"@ + x);
        assert(s3 =~= s2 + "## 关键成就\n\n"@ + bullet_lines(string_views(report.key_achievements@)) + "\n"@);
        let c = pair_views(category_counts@);
        let y: Seq<char> = if c.len() == 0 {
            "_暂无记录_\n\n"@
        } else {
            "| 分类 | 数量 |\n|------|------|\n"@ + count_rows(c) + "\n"@
        };
        assert(s4 =~= s3 + "## 时间分配\n\n"@ + y);
        assert(md@ =~= s4 + "## 下阶段计划\n\n"@ + bullet_lines(string_views(report.next_half_plan@)) + "\n"@);
    }
    md
}

/// The semi-annual report of half `half` of `year` over the records `rs`.
pub open spec fn is_semi_annual_report(r: Report, year: i32, half: u32, rs: Seq<WorkRecord>) -> bool {
    &&& r.report_type == ReportType::SemiAnnual
    &&& r.title@ == "半年报："@ + half_text(year as int, half as int)
    &&& half == 1 ==> r.period_start.y() == year && r.period_start.m() == 1 && r.period_start.d() == 1
        && r.period_end.y() == year && r.period_end.m() == 6 && r.period_end.d() == 30
    &&& half != 1 ==> r.period_start.y() == year && r.period_start.m() == 7 && r.period_start.d() == 1
        && r.period_end.y() == year && r.period_end.m() == 12 && r.period_end.d() == 31
    &&& r.content@ == semi_annual_markdown(
        half_text(year as int, half as int),
        stage_summary(
            half_text(year as int, half as int),
            rs.len() as nat,
            with_status_in(rs, done_statuses()).len(),
            with_status_in(rs, blocked_statuses()).len(),
            category_counts(rs),
        ),
        goal_adjustments(
            rs.len() as nat,
            with_status_in(rs, blocked_statuses()).len(),
            category_counts(rs),
        ),
        key_achievements(rs),
        category_counts(rs),
        next_half_plan(rs)
    )
    &&& r.status == crate::processor::report::confirm::ReportStatus::Draft
}

/// The semi-annual report of half `half` of `year` (1 for January to June,
/// any other value for July to December).
pub fn generate_semi_annual(year: i32, half: u32, records: &[WorkRecord]) -> (r: Report)
    requires
        -262143 <= year <= 262142,
    ensures
        is_semi_annual_report(r, year, half, records@),
{
    let (period_start, period_end) = semi_annual_date_range(year, half);
    let mut period = String::new();
    push_int(&mut period, year as i64);
    if half == 1 {
        crate::text::append_str(&mut period, "-H1");
    } else {
        crate::text::append_str(&mut period, "-H2");
    }
    proof {
        reveal_strlit("-H1");
        reveal_strlit("-H2");
        reveal_strlit("-");
        reveal_strlit("H1");
        reveal_strlit("H2");
    }
    assert(period@ =~= half_text(year as int, half as int));
    let done_words: [&str; 4] = ["done", "completed", "完成", "已完成"];
    let block_words: [&str; 2] = ["blocked", "阻塞"];
    assert(str_views(done_words@) =~= done_statuses());
    assert(str_views(block_words@) =~= blocked_statuses());
    let done_count = count_by_status(records, &done_words);
    let blocked_count = count_by_status(records, &block_words);
    let total = records.len();
    let counts = count_categories(records);
    let stage = build_stage_summary(period.as_str(), total, done_count, blocked_count, counts.as_slice());
    let goal_adjustments = build_goal_adjustments(records, counts.as_slice());
    let key_achievements = build_key_achievements(records);
    let next_half_plan = build_next_half_plan(records);
    let semi = SemiAnnualReport {
        period: period.clone(),
        stage_summary: stage,
        goal_adjustments,
        key_achievements,
        next_half_plan,
    };
    let content = render_semi_annual_markdown(&semi, counts.as_slice());
    let mut title = String::from_str("半年报：");
    crate::text::append_str(&mut title, period.as_str());
    Report::new(ReportType::SemiAnnual, title, content, period_start, period_end)
}

} // verus!
