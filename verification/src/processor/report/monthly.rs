//! The monthly report: progress towards goals, how the month's records
//! divide among categories, and the completion rate week by week.
use vstd::prelude::*;
use crate::processor::record::WorkRecord;
use crate::processor::report::date::{iso_week, iso_week_of, last_day_of_month, days_in_month, zero_pad, Date};
use crate::processor::report::markdown::push_percent;
use crate::processor::report::records::{
    category_counts, count_by_status, count_categories, done_statuses, has_status_mentioning, pair_views,
    status_mentions, str_views, with_status_in, blocked_statuses,
};
use crate::processor::report::summary::{int_text, push_int};
use crate::processor::report::{Report, ReportType};
use crate::processor::review::percent;
use crate::text::decimal;

verus! {

/// The record counts toward week `w`: its creation instant falls in ISO
/// week `w`, and, when only done records count, its status mentions a done
/// word.
pub open spec fn in_week(r: WorkRecord, w: int, done_only: bool) -> bool {
    &&& iso_week(r.created_at_ms as int) == Some(w)
    &&& (!done_only || status_mentions(r, done_statuses()))
}

/// The number of records that count toward week `w`.
pub open spec fn week_count(rs: Seq<WorkRecord>, w: int, done_only: bool) -> nat
    decreases rs.len(),
{
    if rs.len() == 0 {
        0
    } else {
        week_count(rs.drop_last(), w, done_only) + if in_week(rs.last(), w, done_only) { 1nat } else { 0nat }
    }
}

/// (week, count) for each week from `k` to 53 with records, ascending.
pub open spec fn weeks_from(rs: Seq<WorkRecord>, done_only: bool, k: int) -> Seq<(int, nat)>
    decreases 54 - k,
{
    if k < 1 || k > 53 {
        Seq::empty()
    } else {
        let rest = weeks_from(rs, done_only, k + 1);
        if week_count(rs, k, done_only) > 0 {
            seq![(k, week_count(rs, k, done_only))] + rest
        } else {
            rest
        }
    }
}

/// (week, count) for each ISO week with records, ascending.
pub open spec fn week_groups(rs: Seq<WorkRecord>, done_only: bool) -> Seq<(int, nat)> {
    weeks_from(rs, done_only, 1)
}

/// The views of (week, count) pairs.
pub open spec fn week_views(v: Seq<(u32, usize)>) -> Seq<(int, nat)> {
    v.map_values(|p: (u32, usize)| (p.0 as int, p.1 as nat))
}

/// The count given for week `w`, 0 when none is.
pub open spec fn lookup(l: Seq<(int, nat)>, w: int) -> nat
    decreases l.len(),
{
    if l.len() == 0 {
        0
    } else if l[0].0 == w {
        l[0].1
    } else {
        lookup(l.drop_first(), w)
    }
}

/// The week's label, `W` and two digits.
pub open spec fn week_label(w: int) -> Seq<char> {
    "W"@ + zero_pad(decimal(w as nat), 2)
}

/// One row of the trend table per week of `totals`.
pub open spec fn trend_rows(totals: Seq<(int, nat)>, dones: Seq<(int, nat)>) -> Seq<char>
    decreases totals.len(),
{
    if totals.len() == 0 {
        Seq::empty()
    } else {
        let (w, t) = totals.last();
        trend_rows(totals.drop_last(), dones) + trend_row(w, t, lookup(dones, w))
    }
}

/// One row of the allocation table per category: count and share of `total`.
pub open spec fn share_rows(c: Seq<(Seq<char>, nat)>, total: nat) -> Seq<char>
    decreases c.len(),
{
    if c.len() == 0 {
        Seq::empty()
    } else {
        share_rows(c.drop_last(), total) + "| "@ + c.last().0 + " | "@ + decimal(c.last().1) + " | "@
            + decimal(percent(c.last().1, total)) + "% |\n"@
    }
}

/// `year`年`month`月.
pub open spec fn month_text(year: int, month: int) -> Seq<char> {
    int_text(year) + "年"@ + decimal(month as nat) + "月"@
}

/// One trend row: week, records, done records, completion rate.
pub open spec fn trend_row(w: int, t: nat, d: nat) -> Seq<char> {
    "| "@ + week_label(w) + " | "@ + decimal(t) + " | "@ + decimal(d) + " | "@ + decimal(percent(d, t)) + "% |\n"@
}

/// The progress section: totals, done with its rate, blocked.
pub open spec fn progress_section(total: nat, done: nat, blocked: nat) -> Seq<char> {
    "## 目标进度\n\n"@
    + "- 总记录数：**"@ + decimal(total) + "** 条\n- 已完成：**"@ + decimal(done) + "** 条（"@ + decimal(percent(done, total))
        + "%）\n- 阻塞：**"@ + decimal(blocked) + "** 条\n\n"@
}

/// The allocation section: count and share per category.
pub open spec fn allocation_section(counts: Seq<(Seq<char>, nat)>, total: nat) -> Seq<char> {
    "## 时间分配\n\n"@
    + (if counts.len() == 0 {
        "_本月暂无记录_\n\n"@
    } else {
        "| 分类 | 数量 | 占比 |\n|------|------|------|\n"@ + share_rows(counts, total) + "\n"@
    })
}

/// The trend section: one row per week with records.
pub open spec fn trend_section(weekly_total: Seq<(int, nat)>, weekly_done: Seq<(int, nat)>) -> Seq<char> {
    "## 效率趋势\n\n"@
    + (if weekly_total.len() == 0 {
        "_本月暂无数据_\n\n"@
    } else {
        "| 周次 | 总数 | 完成 | 完成率 |\n|------|------|------|--------|\n"@ + trend_rows(weekly_total, weekly_done)
            + "\n"@
    })
}

/// The closing section.
pub open spec fn closing_section(ym: Seq<char>, total: nat, done: nat, blocked: nat) -> Seq<char> {
    "## 总结\n\n"@
    + (if total == 0 {
        ym + "暂无工作记录。\n"@
    } else {
        ym + "共处理 **"@ + decimal(total) + "** 条工作记录，完成率 "@ + decimal(percent(done, total)) + "%。"@
            + (if blocked > 0 { " 当前有 **"@ + decimal(blocked) + "** 条阻塞项需关注。"@ } else { Seq::empty() })
            + "\n"@
    })
}

/// The monthly report's Markdown.
pub open spec fn monthly_markdown(
    year: int,
    month: int,
    total: nat,
    done: nat,
    blocked: nat,
    counts: Seq<(Seq<char>, nat)>,
    weekly_done: Seq<(int, nat)>,
    weekly_total: Seq<(int, nat)>,
) -> Seq<char> {
    let ym = month_text(year, month);
    "# 月报："@ + ym + "\n\n"@ + progress_section(total, done, blocked) + allocation_section(counts, total)
        + trend_section(weekly_total, weekly_done) + closing_section(ym, total, done, blocked)
}

/// The week number seen for a record is `w`.
spec fn seen_week(o: Option<u32>, w: int) -> bool {
    match o {
        Some(x) => x as int == w,
        None => false,
    }
}

/// (week, count) for each ISO week of the records' creation instants,
/// ascending; with `done_only`, of the records whose status mentions a done
/// word.  A record whose instant `chrono` cannot hold counts toward no week.
fn group_by_week(records: &[WorkRecord], done_only: bool) -> (r: Vec<(u32, usize)>)
    ensures
        week_views(r@) == week_groups(records@, done_only),
{
    let done_words: [&str; 4] = ["done", "completed", "完成", "已完成"];
    assert(str_views(done_words@) =~= done_statuses());
    let mut weeks: Vec<Option<u32>> = Vec::new();
    let mut i: usize = 0;
    while i < records.len()
        invariant
            i <= records@.len(),
            weeks@.len() == i,
            str_views(done_words@) == done_statuses(),
            forall|j: int, w: int|
                #![trigger in_week(records@[j], w, done_only)]
                #![trigger seen_week(weeks@[j], w)]
                0 <= j < i ==> (in_week(records@[j], w, done_only) <==> seen_week(weeks@[j], w)),
            forall|j: int| 0 <= j < i ==> (#[trigger] weeks@[j] matches Some(w) ==> 1 <= w <= 53),
        decreases records.len() - i,
    {
        let keep = !done_only || has_status_mentioning(&records[i], &done_words);
        if keep {
            let w = iso_week_of(records[i].created_at_ms);
            weeks.push(w);
        } else {
            weeks.push(None);
        }
        i = i + 1;
    }
    let mut out: Vec<(u32, usize)> = Vec::new();
    let mut k: u32 = 54;
    while k > 1
        invariant
            1 <= k <= 54,
            weeks@.len() == records@.len(),
            forall|j: int, w: int|
                #![trigger in_week(records@[j], w, done_only)]
                #![trigger seen_week(weeks@[j], w)]
                0 <= j < records@.len() ==> (in_week(records@[j], w, done_only) <==> seen_week(weeks@[j], w)),
            week_views(out@) == weeks_from(records@, done_only, k as int),
        decreases k,
    {
        k = k - 1;
        let mut n: usize = 0;
        let mut j: usize = 0;
        while j < weeks.len()
            invariant
                j <= weeks@.len(),
                weeks@.len() == records@.len(),
                1 <= k <= 53,
                forall|x: int, w: int|
                    #![trigger in_week(records@[x], w, done_only)]
                    #![trigger seen_week(weeks@[x], w)]
                    0 <= x < records@.len() ==> (in_week(records@[x], w, done_only) <==> seen_week(weeks@[x], w)),
                n == week_count(records@.take(j as int), k as int, done_only),
                n <= j,
            decreases weeks.len() - j,
        {
            assert(records@.take(j + 1).drop_last() =~= records@.take(j as int));
            assert(in_week(records@[j as int], k as int, done_only) <==> seen_week(weeks@[j as int], k as int));
            let hit = match weeks[j] {
                Some(w) => w == k,
                None => false,
            };
            if hit {
                n = n + 1;
            }
            j = j + 1;
        }
        assert(records@.take(records@.len() as int) =~= records@);
        if n > 0 {
            let ghost before = out@;
            let mut next: Vec<(u32, usize)> = Vec::new();
            next.push((k, n));
            let mut rest = out;
            next.append(&mut rest);
            out = next;
            assert(week_views(out@) =~= seq![(k as int, n as nat)] + week_views(before));
        }
    }
    out
}

/// Appends `year`年`month`月.
fn push_month_text(s: &mut String, year: i32, month: u32)
    ensures
        final(s)@ == old(s)@ + month_text(year as int, month as int),
{
    push_int(s, year as i64);
    crate::text::append_str(s, "年");
    crate::text::push_decimal(s, month as u64);
    crate::text::append_str(s, "月");
    assert(s@ =~= old(s)@ + month_text(year as int, month as int));
}

/// Appends one allocation row per category (see `share_rows`).
fn push_share_rows(s: &mut String, c: &[(&str, usize)], total: usize)
    ensures
        final(s)@ == old(s)@ + share_rows(pair_views(c@), total as nat),
{
    let ghost p = pair_views(c@);
    let mut i: usize = 0;
    assert(old(s)@ + share_rows(p.take(0), total as nat) =~= old(s)@);
    while i < c.len()
        invariant
            i <= c@.len(),
            p == pair_views(c@),
            s@ == old(s)@ + share_rows(p.take(i as int), total as nat),
        decreases c.len() - i,
    {
        let (label, n) = c[i];
        assert(p.take(i + 1).drop_last() =~= p.take(i as int));
        assert(p.take(i + 1).last() == (label@, n as nat));
        crate::text::append_str(s, "| ");
        crate::text::append_str(s, label);
        crate::text::append_str(s, " | ");
        crate::text::push_decimal(s, n as u64);
        crate::text::append_str(s, " | ");
        push_percent(s, n, total);
        crate::text::append_str(s, "% |\n");
        i = i + 1;
    }
    assert(p.take(p.len() as int) =~= p);
}

/// The count given for week `w` (see `lookup`).
fn lookup_count(l: &[(u32, usize)], w: u32) -> (r: usize)
    ensures
        r == lookup(week_views(l@), w as int),
{
    let ghost v = week_views(l@);
    let mut i: usize = 0;
    assert(v.subrange(0, v.len() as int) =~= v);
    while i < l.len()
        invariant
            i <= l@.len(),
            v == week_views(l@),
            lookup(v, w as int) == lookup(v.subrange(i as int, v.len() as int), w as int),
        decreases l.len() - i,
    {
        let (x, n) = l[i];
        assert(v.subrange(i as int, v.len() as int)[0] == (x as int, n as nat));
        if x == w {
            return n;
        }
        assert(v.subrange(i as int, v.len() as int).drop_first() =~= v.subrange(i + 1, v.len() as int));
        i = i + 1;
    }
    0
}

/// Appends `W` and the week in two digits.
fn push_week_label(s: &mut String, w: u32)
    requires
        w <= 53,
    ensures
        final(s)@ == old(s)@ + week_label(w as int),
{
    crate::text::append_str(s, "W");
    crate::processor::report::date::push_padded(s, w as u64, 2);
    assert(s@ =~= old(s)@ + week_label(w as int));
}

/// Appends one trend row (see `trend_row`).
fn push_trend_row(s: &mut String, w: u32, total_w: usize, done_w: usize)
    requires
        w <= 53,
    ensures
        final(s)@ == old(s)@ + trend_row(w as int, total_w as nat, done_w as nat),
{
    crate::text::append_str(s, "| ");
    push_week_label(s, w);
    crate::text::append_str(s, " | ");
    crate::text::push_decimal(s, total_w as u64);
    crate::text::append_str(s, " | ");
    crate::text::push_decimal(s, done_w as u64);
    crate::text::append_str(s, " | ");
    push_percent(s, done_w, total_w);
    crate::text::append_str(s, "% |\n");
    assert(s@ =~= old(s)@ + trend_row(w as int, total_w as nat, done_w as nat));
}

/// Appends one trend row per week of `totals` (see `trend_rows`).
fn push_trend_rows(s: &mut String, totals: &[(u32, usize)], dones: &[(u32, usize)])
    requires
        forall|k: int| 0 <= k < totals@.len() ==> (#[trigger] totals@[k]).0 <= 53,
    ensures
        final(s)@ == old(s)@ + trend_rows(week_views(totals@), week_views(dones@)),
{
    let ghost t = week_views(totals@);
    let ghost d = week_views(dones@);
    let mut i: usize = 0;
    assert(old(s)@ + trend_rows(t.take(0), d) =~= old(s)@);
    while i < totals.len()
        invariant
            i <= totals@.len(),
            t == week_views(totals@),
            d == week_views(dones@),
            forall|k: int| 0 <= k < totals@.len() ==> (#[trigger] totals@[k]).0 <= 53,
            s@ == old(s)@ + trend_rows(t.take(i as int), d),
        decreases totals.len() - i,
    {
        let (w, total_w) = totals[i];
        assert(totals@[i as int].0 <= 53);
        assert(t.take(i + 1).drop_last() =~= t.take(i as int));
        assert(t.take(i + 1).last() == (w as int, total_w as nat));
        let done_w = lookup_count(dones, w);
        push_trend_row(s, w, total_w, done_w);
        i = i + 1;
    }
    assert(t.take(t.len() as int) =~= t);
}

/// Appends the progress section (see `progress_section`).
fn push_progress_section(md: &mut String, total: usize, done_count: usize, blocked_count: usize)
    ensures
        final(md)@ == old(md)@ + progress_section(total as nat, done_count as nat, blocked_count as nat),
{
    crate::text::append_str(md, "## 目标进度\n\n");
    crate::text::append_str(md, "- 总记录数：**");
    crate::text::push_decimal(md, total as u64);
    crate::text::append_str(md, "** 条\n- 已完成：**");
    crate::text::push_decimal(md, done_count as u64);
    crate::text::append_str(md, "** 条（");
    push_percent(md, done_count, total);
    crate::text::append_str(md, "%）\n- 阻塞：**");
    crate::text::push_decimal(md, blocked_count as u64);
    crate::text::append_str(md, "** 条\n\n");
    assert(md@ =~= old(md)@ + progress_section(total as nat, done_count as nat, blocked_count as nat));
}

/// Appends the allocation section (see `allocation_section`).
fn push_allocation_section(md: &mut String, category_counts: &[(&str, usize)], total: usize)
    ensures
        final(md)@ == old(md)@ + allocation_section(pair_views(category_counts@), total as nat),
{
    crate::text::append_str(md, "## 时间分配\n\n");
    if category_counts.len() == 0 {
        crate::text::append_str(md, "_本月暂无记录_\n\n");
    } else {
        crate::text::append_str(md, "| 分类 | 数量 | 占比 |\n|------|------|------|\n");
        push_share_rows(md, category_counts, total);
        crate::text::append_str(md, "\n");
    }
    assert(md@ =~= old(md)@ + allocation_section(pair_views(category_counts@), total as nat));
}

/// Appends the trend section (see `trend_section`).
fn push_trend_section(md: &mut String, weekly_total: &[(u32, usize)], weekly_done: &[(u32, usize)])
    requires
        forall|k: int| 0 <= k < weekly_total@.len() ==> (#[trigger] weekly_total@[k]).0 <= 53,
    ensures
        final(md)@ == old(md)@ + trend_section(week_views(weekly_total@), week_views(weekly_done@)),
{
    crate::text::append_str(md, "## 效率趋势\n\n");
    if weekly_total.len() == 0 {
        crate::text::append_str(md, "_本月暂无数据_\n\n");
    } else {
        crate::text::append_str(md, "| 周次 | 总数 | 完成 | 完成率 |\n|------|------|------|--------|\n");
        push_trend_rows(md, weekly_total, weekly_done);
        crate::text::append_str(md, "\n");
    }
    assert(md@ =~= old(md)@ + trend_section(week_views(weekly_total@), week_views(weekly_done@)));
}

/// Appends the closing section (see `closing_section`).
fn push_closing_section(md: &mut String, year: i32, month: u32, total: usize, done_count: usize, blocked_count: usize)
    ensures
        final(md)@ == old(md)@ + closing_section(
            month_text(year as int, month as int),
            total as nat,
            done_count as nat,
            blocked_count as nat,
        ),
{
    crate::text::append_str(md, "## 总结\n\n");
    push_month_text(md, year, month);
    if total == 0 {
        crate::text::append_str(md, "暂无工作记录。\n");
    } else {
        crate::text::append_str(md, "共处理 **");
        crate::text::push_decimal(md, total as u64);
        crate::text::append_str(md, "** 条工作记录，完成率 ");
        push_percent(md, done_count, total);
        crate::text::append_str(md, "%。");
        let ghost s5 = md@;
        if blocked_count > 0 {
            crate::text::append_str(md, " 当前有 **");
            crate::text::push_decimal(md, blocked_count as u64);
            crate::text::append_str(md, "** 条阻塞项需关注。");
        }
        let ghost s6 = md@;
        crate::text::append_str(md, "\n");
        proof {
            let b: Seq<char> = if blocked_count > 0 {
                " 当前有 **"@ + decimal(blocked_count as nat) + "** 条阻塞项需关注。"@
            } else {
                Seq::empty()
            };
            assert(s6 =~= s5 + b);
        }
    }
    assert(md@ =~= old(md)@ + closing_section(
        month_text(year as int, month as int),
        total as nat,
        done_count as nat,
        blocked_count as nat,
    ));
}

/// The monthly report's Markdown (see `monthly_markdown`); the rows come in
/// the order given.
fn render_monthly_markdown(
    year: i32,
    month: u32,
    total: usize,
    done_count: usize,
    blocked_count: usize,
    category_counts: &[(&str, usize)],
    weekly_done: &[(u32, usize)],
    weekly_total: &[(u32, usize)],
) -> (r: String)
    requires
        forall|k: int| 0 <= k < weekly_total@.len() ==> (#[trigger] weekly_total@[k]).0 <= 53,
    ensures
        r@ == monthly_markdown(
            year as int,
            month as int,
            total as nat,
            done_count as nat,
            blocked_count as nat,
            pair_views(category_counts@),
            week_views(weekly_done@),
            week_views(weekly_total@),
        ),
{
    let mut md = String::from_str("# 月报：");
    push_month_text(&mut md, year, month);
    crate::text::append_str(&mut md, "\n\n");
    push_progress_section(&mut md, total, done_count, blocked_count);
    push_allocation_section(&mut md, category_counts, total);
    push_trend_section(&mut md, weekly_total, weekly_done);
    push_closing_section(&mut md, year, month, total, done_count, blocked_count);
    md
}

/// The monthly report of `month` of `year` over the records `rs`.
pub open spec fn is_monthly_report(r: Report, year: i32, month: u32, rs: Seq<WorkRecord>) -> bool {
    &&& r.report_type == ReportType::Monthly
    &&& r.title@ == "月报："@ + month_text(year as int, month as int)
    &&& r.period_start.y() == year && r.period_start.m() == month && r.period_start.d() == 1
    &&& r.period_end.y() == year && r.period_end.m() == month
        && r.period_end.d() == days_in_month(year as int, month as int)
    &&& r.content@ == monthly_markdown(
        year as int,
        month as int,
        rs.len() as nat,
        with_status_in(rs, done_statuses()).len(),
        with_status_in(rs, blocked_statuses()).len(),
        category_counts(rs),
        week_groups(rs, true),
        week_groups(rs, false)
    )
    &&& r.status == crate::processor::report::confirm::ReportStatus::Draft
}

/// The monthly report of `month` of `year`, from the first to the last day
/// of the month: totals, done (status one of the done statuses) and blocked
/// (status one of the blocked statuses) counts, counts per category in
/// label order, and per ISO week the records and those whose status
/// mentions a done word.
pub fn generate_month(year: i32, month: u32, records: &[WorkRecord]) -> (r: Report)
    requires
        -262143 <= year <= 262142,
        1 <= month <= 12,
        month == 12 ==> year < 262142,
    ensures
        is_monthly_report(r, year, month, records@),
{
    let period_start = Date::from_ymd(year, month, 1).unwrap();
    let period_end = last_day_of_month(year, month);
    let counts = count_categories(records);
    let done_words: [&str; 4] = ["done", "completed", "完成", "已完成"];
    let block_words: [&str; 2] = ["blocked", "阻塞"];
    assert(str_views(done_words@) =~= done_statuses());
    assert(str_views(block_words@) =~= blocked_statuses());
    let done_count = count_by_status(records, &done_words);
    let blocked_count = count_by_status(records, &block_words);
    let total = records.len();
    let weekly_done = group_by_week(records, true);
    let weekly_total = group_by_week(records, false);
    proof {
        lemma_weeks_bounded(records@, false, 1);
        assert forall|k: int| 0 <= k < weekly_total@.len() implies (#[trigger] weekly_total@[k]).0 <= 53 by {
            assert(week_views(weekly_total@)[k].0 == weekly_total@[k].0 as int);
        }
    }
    let content = render_monthly_markdown(
        year,
        month,
        total,
        done_count,
        blocked_count,
        counts.as_slice(),
        weekly_done.as_slice(),
        weekly_total.as_slice(),
    );
    let mut title = String::from_str("月报：");
    push_month_text(&mut title, year, month);
    Report::new(ReportType::Monthly, title, content, period_start, period_end)
}

/// The weeks listed from `k` on lie between `k` and 53.
proof fn lemma_weeks_bounded(rs: Seq<WorkRecord>, done_only: bool, k: int)
    requires
        k >= 1,
    ensures
        forall|i: int| 0 <= i < weeks_from(rs, done_only, k).len() ==> k <= (#[trigger] weeks_from(rs, done_only, k)[i]).0 <= 53,
    decreases 54 - k,
{
    if k <= 53 {
        lemma_weeks_bounded(rs, done_only, k + 1);
        let rest = weeks_from(rs, done_only, k + 1);
        let all = weeks_from(rs, done_only, k);
        if week_count(rs, k, done_only) > 0 {
            assert forall|i: int| 0 <= i < all.len() implies k <= (#[trigger] all[i]).0 <= 53 by {
                if i > 0 {
                    assert(all[i] == rest[i - 1]);
                }
            }
        }
    }
}

} // verus!
