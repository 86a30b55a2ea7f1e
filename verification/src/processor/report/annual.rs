//! The annual report: a panoramic summary, growth quarter by quarter,
//! highlights, time allocation and next year's plan.
use vstd::prelude::*;
use crate::processor::record::WorkRecord;
use crate::processor::report::date::{utc_date, utc_date_of, Date};
use crate::processor::report::markdown::{count_rows, push_count_rows, push_percent};
use crate::processor::report::quarterly::distinct_projects;
use crate::scheduler::dependency::string_views;
use crate::processor::report::records::{
    blocked_statuses, category_counts, count_by_status, count_categories, done_statuses, has_status_mentioning,
    pair_views, status_mentions, str_views, with_status_in,
};
use crate::processor::report::semi_annual::{bullet_lines, first_n, push_bullet_lines};
use crate::processor::report::summary::{
    build_panoramic_summary, int_text, last_max, last_max_index, panoramic_summary, push_int, AnnualReport, GrowthPoint,
};
use crate::processor::report::weekly::in_progress_words;
use crate::processor::report::{Report, ReportType};
use crate::processor::review::percent;
use crate::text::decimal;

verus! {

/// The record was created, by its UTC date, in quarter `q` of year `y`.
pub open spec fn in_quarter(r: WorkRecord, y: int, q: int) -> bool {
    match utc_date(r.created_at_ms as int) {
        Some((yy, mm, _)) => yy == y && (q - 1) * 3 + 1 <= mm <= q * 3,
        None => false,
    }
}

/// The number of records of quarter `q` of year `y`, and of those whose
/// status mentions a done word.
pub open spec fn quarter_counts(rs: Seq<WorkRecord>, y: int, q: int) -> (nat, nat)
    decreases rs.len(),
{
    if rs.len() == 0 {
        (0, 0)
    } else {
        let (t, d) = quarter_counts(rs.drop_last(), y, q);
        let r = rs.last();
        if in_quarter(r, y, q) {
            (t + 1, if status_mentions(r, done_statuses()) { d + 1 } else { d })
        } else {
            (t, d)
        }
    }
}

/// A point of the growth trajectory: period, metric, value.
pub type PointView = (Seq<char>, Seq<char>, nat);

pub open spec fn point_view(p: GrowthPoint) -> PointView {
    (p.period@, p.metric@, p.value as nat)
}

/// The growth trajectory of the quarters before `q`: per quarter its
/// completion rate (rounded percentage) and its number of records.
pub open spec fn growth_upto(rs: Seq<WorkRecord>, y: int, q: int) -> Seq<PointView>
    decreases q,
{
    if q <= 0 {
        Seq::empty()
    } else {
        let (t, d) = quarter_counts(rs, y, q);
        let name = "Q"@ + decimal(q as nat);
        growth_upto(rs, y, q - 1) + seq![(name, "完成率"@, percent(d, t)), (name, "总产出"@, t)]
    }
}

/// The growth trajectory of the year's four quarters.
pub open spec fn growth_trajectory(rs: Seq<WorkRecord>, y: int) -> Seq<PointView> {
    growth_upto(rs, y, 4)
}

/// `total / 4` rounded with ties to the even neighbour, as `{:.0}` writes it.
pub open spec fn quarter_average(total: nat) -> nat {
    let q = total / 4;
    let r = total % 4;
    if r < 2 {
        q
    } else if r > 2 {
        q + 1
    } else if q % 2 == 0 {
        q
    } else {
        q + 1
    }
}

/// The year's highlights: the completion rate when there are records, the
/// number of projects when there are any, the most active category when
/// there is one, and the average output per quarter.
pub open spec fn highlights(rs: Seq<WorkRecord>, c: Seq<(Seq<char>, nat)>) -> Seq<Seq<char>> {
    let t = rs.len();
    let d = with_status_in(rs, done_statuses()).len();
    let np = distinct_projects(rs).len();
    (if t > 0 {
        seq!["年度完成率 "@ + decimal(percent(d, t)) + "%（"@ + decimal(d) + "/"@ + decimal(t) + "）"@]
    } else {
        Seq::empty()
    }) + (if np > 0 { seq!["参与 "@ + decimal(np) + " 个项目"@] } else { Seq::empty() }) + (if c.len() > 0 {
        seq!["最活跃领域「"@ + c[last_max(c)].0 + "」共 "@ + decimal(c[last_max(c)].1) + " 项"@]
    } else {
        Seq::empty()
    }) + seq!["季度平均产出 "@ + decimal(quarter_average(t)) + " 项"@]
}

/// The record was created, by its UTC date, in October to December (of any
/// year) and its status mentions a word of work in progress.
pub open spec fn late_in_progress(r: WorkRecord) -> bool {
    &&& match utc_date(r.created_at_ms as int) {
        Some((_, mm, _)) => 10 <= mm <= 12,
        None => false,
    }
    &&& status_mentions(r, in_progress_words())
}

/// The records in progress late in the year, in order.
pub open spec fn late_in_progress_records(rs: Seq<WorkRecord>) -> Seq<WorkRecord>
    decreases rs.len(),
{
    if rs.len() == 0 {
        Seq::empty()
    } else {
        let before = late_in_progress_records(rs.drop_last());
        if late_in_progress(rs.last()) { before.push(rs.last()) } else { before }
    }
}

/// Next year's plan: `延续：title` for the first five records in progress late
/// in the year, then a line on revising the goals; or `待定`.
pub open spec fn next_year_plan(rs: Seq<WorkRecord>) -> Seq<Seq<char>> {
    let p = late_in_progress_records(rs);
    if p.len() == 0 {
        seq!["待定"@]
    } else {
        first_n(p, 5).map_values(|r: WorkRecord| "延续："@ + r.title@).push("根据年度复盘调整新目标"@)
    }
}

/// One table row per point: period, metric, value.
pub open spec fn point_rows(p: Seq<PointView>) -> Seq<char>
    decreases p.len(),
{
    if p.len() == 0 {
        Seq::empty()
    } else {
        let (period, metric, value) = p.last();
        point_rows(p.drop_last()) + "| "@ + period + " | "@ + metric + " | "@ + decimal(value) + " |\n"@
    }
}

/// The annual report's Markdown.
pub open spec fn annual_markdown(
    year: int,
    summary: Seq<char>,
    points: Seq<PointView>,
    highlights: Seq<Seq<char>>,
    counts: Seq<(Seq<char>, nat)>,
    plan: Seq<Seq<char>>,
) -> Seq<char> {
    "# "@ + int_text(year) + "年 年报\n\n"@
    + "## 全景总结\n\n"@ + summary + "\n\n"@
    + "## 成长轨迹\n\n"@
    + (if points.len() == 0 {
        "_暂无数据_\n\n"@
    } else {
        "| 季度 | 指标 | 数值 |\n|------|------|------|\n"@ + point_rows(points) + "\n"@
    })
    + "## 年度亮点\n\n"@ + bullet_lines(highlights) + "\n"@
    + "## 时间分配\n\n"@
    + (if counts.len() == 0 {
        "_暂无记录_\n\n"@
    } else {
        "| 分类 | 数量 |\n|------|------|\n"@ + count_rows(counts) + "\n"@
    })
    + "## 次年计划\n\n"@ + bullet_lines(plan) + "\n"@
}

/// Whether the record was created in quarter `q` of `year`.
fn record_in_quarter(r: &WorkRecord, year: i32, q: u32) -> (b: bool)
    requires
        1 <= q <= 4,
    ensures
        b == in_quarter(*r, year as int, q as int),
{
    match utc_date_of(r.created_at_ms) {
        Some(d) => d.year() == year && (q - 1) * 3 + 1 <= d.month() && d.month() <= q * 3,
        None => false,
    }
}

/// The growth trajectory (see `growth_trajectory`).
pub fn build_growth_trajectory(records: &[WorkRecord], year: i32) -> (r: Vec<GrowthPoint>)
    ensures
        r@.map_values(|p: GrowthPoint| point_view(p)) == growth_trajectory(records@, year as int),
{
    let done_words: [&str; 4] = ["done", "completed", "完成", "已完成"];
    assert(str_views(done_words@) =~= done_statuses());
    let mut points: Vec<GrowthPoint> = Vec::new();
    let mut quarter: u32 = 1;
    while quarter <= 4
        invariant
            1 <= quarter <= 5,
            str_views(done_words@) == done_statuses(),
            points@.map_values(|p: GrowthPoint| point_view(p)) == growth_upto(records@, year as int, quarter - 1),
        decreases 5 - quarter,
    {
        let mut total: usize = 0;
        let mut done: usize = 0;
        let mut i: usize = 0;
        while i < records.len()
            invariant
                i <= records@.len(),
                1 <= quarter <= 4,
                str_views(done_words@) == done_statuses(),
                (total as nat, done as nat) == quarter_counts(records@.take(i as int), year as int, quarter as int),
                done <= total,
                total <= i,
            decreases records.len() - i,
        {
            assert(records@.take(i + 1).drop_last() =~= records@.take(i as int));
            if record_in_quarter(&records[i], year, quarter) {
                total = total + 1;
                if has_status_mentioning(&records[i], &done_words) {
                    done = done + 1;
                }
            }
            i = i + 1;
        }
        assert(records@.take(records@.len() as int) =~= records@);
        let mut name = String::from_str("Q");
        crate::text::push_decimal(&mut name, quarter as u64);
        assert(name@ =~= "Q"@ + decimal(quarter as nat));
        let rate: u64 = if total == 0 {
            0
        } else {
            let p: u128 = (200 * done as u128 + total as u128) / (2 * total as u128);
            assert(p <= 100) by (nonlinear_arith)
                requires
                    p == (200 * done as u128 + total as u128) / (2 * total as u128),
                    done <= total,
                    total > 0,
            ;
            p as u64
        };
        let ghost before = points@;
        let a = GrowthPoint { period: name.clone(), metric: String::from_str("完成率"), value: rate };
        let b = GrowthPoint { period: name, metric: String::from_str("总产出"), value: total as u64 };
        let ghost va = point_view(a);
        let ghost vb = point_view(b);
        points.push(a);
        points.push(b);
        assert(points@.map_values(|p: GrowthPoint| point_view(p)) =~= before.map_values(|p: GrowthPoint| point_view(p))
            + seq![va, vb]);
        quarter = quarter + 1;
    }
    points
}

/// `total / 4` rounded with ties to even (see `quarter_average`).
fn quarter_average_of(total: usize) -> (r: usize)
    ensures
        r == quarter_average(total as nat),
{
    let q = total / 4;
    let r = total % 4;
    if r < 2 {
        q
    } else if r > 2 {
        q + 1
    } else if q % 2 == 0 {
        q
    } else {
        q + 1
    }
}

/// The year's highlights (see `highlights`), with done the records whose
/// status is one of the done statuses.
pub fn build_highlights(records: &[WorkRecord], category_counts: &[(&str, usize)]) -> (r: Vec<String>)
    ensures
        string_views(r@) == highlights(records@, pair_views(category_counts@)),
{
    let done_words: [&str; 4] = ["done", "completed", "完成", "已完成"];
    assert(str_views(done_words@) =~= done_statuses());
    let done_count = count_by_status(records, &done_words);
    let total = records.len();
    let mut out: Vec<String> = Vec::new();
    if total > 0 {
        let mut h = String::from_str("年度完成率 ");
        push_percent(&mut h, done_count, total);
        crate::text::append_str(&mut h, "%（");
        crate::text::push_decimal(&mut h, done_count as u64);
        crate::text::append_str(&mut h, "/");
        crate::text::push_decimal(&mut h, total as u64);
        crate::text::append_str(&mut h, "）");
        out.push(h);
    }
    let ghost o1 = string_views(out@);
    let projects = crate::processor::report::quarterly::collect_projects(records);
    let project_count = projects.len();
    if project_count > 0 {
        let mut h = String::from_str("参与 ");
        crate::text::push_decimal(&mut h, project_count as u64);
        crate::text::append_str(&mut h, " 个项目");
        let ghost before = out@;
        out.push(h);
        assert(string_views(out@) =~= string_views(before).push(h@));
    }
    let ghost o2 = string_views(out@);
    if category_counts.len() > 0 {
        let m = last_max_index(category_counts);
        let (label, count) = category_counts[m];
        let mut h = String::from_str("最活跃领域「");
        crate::text::append_str(&mut h, label);
        crate::text::append_str(&mut h, "」共 ");
        crate::text::push_decimal(&mut h, count as u64);
        crate::text::append_str(&mut h, " 项");
        let ghost before = out@;
        out.push(h);
        assert(string_views(out@) =~= string_views(before).push(h@));
    }
    let ghost o3 = string_views(out@);
    let mut h = String::from_str("季度平均产出 ");
    crate::text::push_decimal(&mut h, quarter_average_of(total) as u64);
    crate::text::append_str(&mut h, " 项");
    let ghost before = out@;
    out.push(h);
    proof {
        let c = pair_views(category_counts@);
        let t = records@.len();
        let d = with_status_in(records@, done_statuses()).len();
        let np = distinct_projects(records@).len();
        let x: Seq<Seq<char>> = if t > 0 {
            seq!["年度完成率 "@ + decimal(percent(d, t)) + "%（"@ + decimal(d) + "/"@ + decimal(t) + "）"@]
        } else {
            Seq::empty()
        };
        assert(o1 =~= x);
        let y: Seq<Seq<char>> = if np > 0 { seq!["参与 "@ + decimal(np) + " 个项目"@] } else { Seq::empty() };
        assert(o2 =~= o1 + y);
        let z: Seq<Seq<char>> = if c.len() > 0 {
            seq!["最活跃领域「"@ + c[last_max(c)].0 + "」共 "@ + decimal(c[last_max(c)].1) + " 项"@]
        } else {
            Seq::empty()
        };
        assert(o3 =~= o2 + z);
        assert(string_views(out@) =~= string_views(before).push(h@));
        assert(string_views(out@) =~= highlights(records@, c));
    }
    out
}

/// Whether the record is in progress late in the year (see
/// `late_in_progress`).
fn record_late_in_progress(r: &WorkRecord) -> (b: bool)
    ensures
        b == late_in_progress(*r),
{
    let progress_words: [&str; 3] = ["in_progress", "doing", "进行中"];
    assert(str_views(progress_words@) =~= in_progress_words());
    let late = match utc_date_of(r.created_at_ms) {
        Some(d) => 10 <= d.month() && d.month() <= 12,
        None => false,
    };
    late && has_status_mentioning(r, &progress_words)
}

/// Next year's plan (see `next_year_plan`).
pub fn build_next_year_plan(records: &[WorkRecord]) -> (r: Vec<String>)
    ensures
        string_views(r@) == next_year_plan(records@),
{
    let mut late: Vec<&WorkRecord> = Vec::new();
    let mut i: usize = 0;
    while i < records.len()
        invariant
            i <= records@.len(),
            crate::processor::report::records::derefs(late@) == late_in_progress_records(records@.take(i as int)),
        decreases records.len() - i,
    {
        assert(records@.take(i + 1).drop_last() =~= records@.take(i as int));
        if record_late_in_progress(&records[i]) {
            let ghost before = late@;
            late.push(&records[i]);
            assert(crate::processor::report::records::derefs(late@) =~= crate::processor::report::records::derefs(
                before,
            ).push(records@[i as int]));
        }
        i = i + 1;
    }
    assert(records@.take(records@.len() as int) =~= records@);
    let ghost d = crate::processor::report::records::derefs(late@);
    let mut out: Vec<String> = Vec::new();
    if late.len() == 0 {
        out.push(String::from_str("待定"));
        assert(string_views(out@) =~= seq!["待定"@]);
        return out;
    }
    let mut k: usize = 0;
    while k < late.len() && k < 5
        invariant
            k <= late@.len(),
            k <= 5,
            d == crate::processor::report::records::derefs(late@),
            string_views(out@) == d.take(k as int).map_values(|r: WorkRecord| "延续："@ + r.title@),
        decreases late.len() - k,
    {
        let r = late[k];
        let mut line = String::from_str("延续：");
        crate::text::append_str(&mut line, r.title.as_str());
        let ghost before = out@;
        out.push(line);
        assert(d.take(k + 1) =~= d.take(k as int).push(*r));
        assert(string_views(out@) =~= string_views(before).push("延续："@ + r.title@));
        assert(d.take(k + 1).map_values(|r: WorkRecord| "延续："@ + r.title@) =~= d.take(k as int).map_values(
            |r: WorkRecord| "延续："@ + r.title@,
        ).push("延续："@ + r.title@));
        k = k + 1;
    }
    assert(d.take(k as int) =~= first_n(d, 5));
    let ghost before = out@;
    out.push(String::from_str("根据年度复盘调整新目标"));
    assert(string_views(out@) =~= string_views(before).push("根据年度复盘调整新目标"@));
    out
}

/// Appends one row per point (see `point_rows`).
fn push_point_rows(md: &mut String, p: &Vec<GrowthPoint>)
    ensures
        final(md)@ == old(md)@ + point_rows(p@.map_values(|x: GrowthPoint| point_view(x))),
{
    let ghost v = p@.map_values(|x: GrowthPoint| point_view(x));
    let mut i: usize = 0;
    assert(old(md)@ + point_rows(v.take(0)) =~= old(md)@);
    while i < p.len()
        invariant
            i <= p@.len(),
            v == p@.map_values(|x: GrowthPoint| point_view(x)),
            md@ == old(md)@ + point_rows(v.take(i as int)),
        decreases p.len() - i,
    {
        let item = &p[i];
        assert(v.take(i + 1).drop_last() =~= v.take(i as int));
        assert(v.take(i + 1).last() == point_view(*item));
        crate::text::append_str(md, "| ");
        crate::text::append_str(md, item.period.as_str());
        crate::text::append_str(md, " | ");
        crate::text::append_str(md, item.metric.as_str());
        crate::text::append_str(md, " | ");
        crate::text::push_decimal(md, item.value);
        crate::text::append_str(md, " |\n");
        i = i + 1;
    }
    assert(v.take(v.len() as int) =~= v);
}

/// The annual report's Markdown (see `annual_markdown`).
fn render_annual_markdown(report: &AnnualReport, category_counts: &[(&str, usize)]) -> (r: String)
    ensures
        r@ == annual_markdown(
            report.year as int,
            report.panoramic_summary@,
            report.growth_trajectory@.map_values(|x: GrowthPoint| point_view(x)),
            string_views(report.highlights@),
            pair_views(category_counts@),
            string_views(report.next_year_plan@),
        ),
{
    let mut md = String::from_str("# ");
    push_int(&mut md, report.year as i64);
    crate::text::append_str(&mut md, "年 年报\n\n");
    crate::text::append_str(&mut md, "## 全景总结\n\n");
    crate::text::append_str(&mut md, report.panoramic_summary.as_str());
    crate::text::append_str(&mut md, "\n\n");
    let ghost s1 = md@;
    crate::text::append_str(&mut md, "## 成长轨迹\n\n");
    if report.growth_trajectory.len() == 0 {
        crate::text::append_str(&mut md, "_暂无数据_\n\n");
    } else {
        crate::text::append_str(&mut md, "| 季度 | 指标 | 数值 |\n|------|------|------|\n");
        push_point_rows(&mut md, &report.growth_trajectory);
        crate::text::append_str(&mut md, "\n");
    }
    let ghost s2 = md@;
    crate::text::append_str(&mut md, "## 年度亮点\n\n");
    push_bullet_lines(&mut md, &report.highlights);
    crate::text::append_str(&mut md, "\n");
    let ghost s3 = md@;
    crate::text::append_str(&mut md, "## 时间分配\n\n");
    if category_counts.len() == 0 {
        crate::text::append_str(&mut md, "_暂无记录_\n\n");
    } else {
        crate::text::append_str(&mut md, "| 分类 | 数量 |\n|------|------|\n");
        push_count_rows(&mut md, category_counts);
        crate::text::append_str(&mut md, "\n");
    }
    let ghost s4 = md@;
    crate::text::append_str(&mut md, "## 次年计划\n\n");
    push_bullet_lines(&mut md, &report.next_year_plan);
    crate::text::append_str(&mut md, "\n");
    proof {
        let p = report.growth_trajectory@.map_values(|x: GrowthPoint| point_view(x));
        let a: Seq<char> = if p.len() == 0 {
            "_暂无数据_\n\n"@
        } else {
            "| 季度 | 指标 | 数值 |\n|------|------|------|\n"@ + point_rows(p) + "\n"@
        };
        assert(s2 =~= s1 + "## 成长轨迹\n\n"@ + a);
        assert(s3 =~= s2 + "## 年度亮点\n\n"@ + bullet_lines(string_views(report.highlights@)) + "\n"@);
        let c = pair_views(category_counts@);
        let b: Seq<char> = if c.len() == 0 {
            "_暂无记录_\n\n"@
        } else {
            "| 分类 | 数量 |\n|------|------|\n"@ + count_rows(c) + "\n"@
        };
        assert(s4 =~= s3 + "## 时间分配\n\n"@ + b);
        assert(md@ =~= s4 + "## 次年计划\n\n"@ + bullet_lines(string_views(report.next_year_plan@)) + "\n"@);
    }
    md
}

/// The annual report of `year` over the records `rs`.
pub open spec fn is_annual_report(r: Report, year: i32, rs: Seq<WorkRecord>) -> bool {
    &&& r.report_type == ReportType::Annual
    &&& r.title@ == int_text(year as int) + "年 年报"@
    &&& r.period_start.y() == year && r.period_start.m() == 1 && r.period_start.d() == 1
    &&& r.period_end.y() == year && r.period_end.m() == 12 && r.period_end.d() == 31
    &&& r.content@ == annual_markdown(
        year as int,
        panoramic_summary(
            year as int,
            rs.len() as nat,
            with_status_in(rs, done_statuses()).len(),
            with_status_in(rs, blocked_statuses()).len(),
            category_counts(rs),
        ),
        growth_trajectory(rs, year as int),
        highlights(rs, category_counts(rs)),
        category_counts(rs),
        next_year_plan(rs)
    )
    &&& r.status == crate::processor::report::confirm::ReportStatus::Draft
}

/// The annual report of `year`: the panoramic summary, the growth of each
/// quarter, the highlights, counts per category in label order, and next
/// year's plan.
pub fn generate_annual(year: i32, records: &[WorkRecord]) -> (r: Report)
    requires
        -262143 <= year <= 262142,
    ensures
        is_annual_report(r, year, records@),
{
    let period_start = Date::from_ymd(year, 1, 1).unwrap();
    let period_end = Date::from_ymd(year, 12, 31).unwrap();
    let done_words: [&str; 4] = ["done", "completed", "完成", "已完成"];
    let block_words: [&str; 2] = ["blocked", "阻塞"];
    assert(str_views(done_words@) =~= done_statuses());
    assert(str_views(block_words@) =~= blocked_statuses());
    let done_count = count_by_status(records, &done_words);
    let blocked_count = count_by_status(records, &block_words);
    let total = records.len();
    let counts = count_categories(records);
    let summary = build_panoramic_summary(year, total, done_count, blocked_count, counts.as_slice());
    let growth = build_growth_trajectory(records, year);
    let highlights = build_highlights(records, counts.as_slice());
    let plan = build_next_year_plan(records);
    let annual = AnnualReport {
        year,
        panoramic_summary: summary,
        growth_trajectory: growth,
        next_year_plan: plan,
        highlights,
    };
    let content = render_annual_markdown(&annual, counts.as_slice());
    let mut title = String::new();
    push_int(&mut title, year as i64);
    crate::text::append_str(&mut title, "年 年报");
    Report::new(ReportType::Annual, title, content, period_start, period_end)
}

} // verus!
