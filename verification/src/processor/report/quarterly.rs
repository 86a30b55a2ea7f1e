//! The quarterly report: OKR progress per objective, project milestones,
//! how the quarter's records divide among categories, output growth and a
//! summary.
use vstd::prelude::*;
use crate::processor::record::{Category, WorkRecord};
use crate::processor::report::date::{days_in_month, last_day_of_month, utc_date, utc_date_of, Date};
use crate::processor::report::markdown::{count_rows, push_count_rows};
use crate::processor::report::records::{
    blocked_statuses, category_counts, count_by_status, count_categories, done_statuses, has_status_in, pair_views,
    status_is_one_of, str_views, with_status_in,
};
use crate::processor::report::summary::{
    int_text, push_int, quarterly_summary, build_quarterly_summary, CapabilityMetric, Milestone, OkrItem,
    QuarterlyReport,
};
use crate::processor::report::{Report, ReportType};
use crate::processor::review::percent;
use crate::scheduler::dependency::string_views;
use crate::text::decimal;

verus! {

/// The index of the objective a category's records count toward.
pub open spec fn objective_index(c: Category) -> int {
    match c {
        Category::Task => 0,
        Category::Meeting => 1,
        Category::Communication => 1,
        Category::Research => 2,
        Category::Review => 3,
        Category::Planning => 4,
        Category::Document => 5,
        Category::Decision => 6,
    }
}

/// The objectives, by index.
pub open spec fn objective_names() -> Seq<Seq<char>> {
    seq!["任务执行"@, "沟通协作"@, "调研探索"@, "质量保障"@, "战略规划"@, "知识沉淀"@, "决策管理"@]
}

/// The record's status is one of the done statuses.
pub open spec fn is_done(r: WorkRecord) -> bool {
    status_is_one_of(r, done_statuses())
}

/// The number of records toward objective `k`, and of those done.
pub open spec fn objective_counts(rs: Seq<WorkRecord>, k: int) -> (nat, nat)
    decreases rs.len(),
{
    if rs.len() == 0 {
        (0, 0)
    } else {
        let (t, d) = objective_counts(rs.drop_last(), k);
        let r = rs.last();
        if objective_index(r.category) == k {
            (t + 1, if is_done(r) { d + 1 } else { d })
        } else {
            (t, d)
        }
    }
}

/// The key result of an objective or project: `完成 done/total 项`.
pub open spec fn done_of_text(done: nat, total: nat) -> Seq<char> {
    "完成 "@ + decimal(done) + "/"@ + decimal(total) + " 项"@
}

/// An OKR line: objective, key results, progress.
pub type OkrView = (Seq<char>, Seq<Seq<char>>, nat);

pub open spec fn okr_view(o: OkrItem) -> OkrView {
    (o.objective@, string_views(o.key_results@), o.progress_pct as nat)
}

/// The OKR lines of the objectives before index `k` that have records, in
/// objective order: one key result, `完成 done/total 项`, and the done share
/// as a rounded percentage.
pub open spec fn okr_upto(rs: Seq<WorkRecord>, k: int) -> Seq<OkrView>
    decreases k,
{
    if k <= 0 {
        Seq::empty()
    } else {
        let before = okr_upto(rs, k - 1);
        let (t, d) = objective_counts(rs, k - 1);
        if t > 0 {
            before.push((objective_names()[k - 1], seq![done_of_text(d, t)], percent(d, t)))
        } else {
            before
        }
    }
}

/// The OKR lines of all objectives with records.
pub open spec fn okr_items(rs: Seq<WorkRecord>) -> Seq<OkrView> {
    okr_upto(rs, 7)
}

fn objective_index_of(c: Category) -> (k: usize)
    ensures
        k == objective_index(c),
{
    match c {
        Category::Task => 0,
        Category::Meeting => 1,
        Category::Communication => 1,
        Category::Research => 2,
        Category::Review => 3,
        Category::Planning => 4,
        Category::Document => 5,
        Category::Decision => 6,
    }
}

fn objective_name(k: usize) -> (r: &'static str)
    requires
        k < 7,
    ensures
        r@ == objective_names()[k as int],
{
    match k {
        0 => "任务执行",
        1 => "沟通协作",
        2 => "调研探索",
        3 => "质量保障",
        4 => "战略规划",
        5 => "知识沉淀",
        _ => "决策管理",
    }
}

/// Whether the record's status is one of the done statuses.
fn record_done(r: &WorkRecord) -> (b: bool)
    ensures
        b == is_done(*r),
{
    let done_words: [&str; 4] = ["done", "completed", "完成", "已完成"];
    assert(str_views(done_words@) =~= done_statuses());
    has_status_in(r, &done_words)
}

/// Appends `完成 done/total 项`.
fn done_of_string(done: usize, total: usize) -> (r: String)
    ensures
        r@ == done_of_text(done as nat, total as nat),
{
    let mut s = String::from_str("完成 ");
    crate::text::push_decimal(&mut s, done as u64);
    crate::text::append_str(&mut s, "/");
    crate::text::push_decimal(&mut s, total as u64);
    crate::text::append_str(&mut s, " 项");
    assert(s@ =~= done_of_text(done as nat, total as nat));
    s
}

/// `num / den` as a rounded percentage, for `num <= den`.
fn percent_u32(num: usize, den: usize) -> (r: u32)
    requires
        num <= den,
    ensures
        r == percent(num as nat, den as nat),
{
    if den == 0 {
        0
    } else {
        let p: u128 = (200 * num as u128 + den as u128) / (2 * den as u128);
        assert(p <= 100) by (nonlinear_arith)
            requires
                p == (200 * num as u128 + den as u128) / (2 * den as u128),
                num <= den,
                den > 0,
        ;
        p as u32
    }
}

/// The OKR line of each objective with records, in objective order: key
/// result `完成 done/total 项` and the done share as a rounded percentage.
pub fn build_okr_from_records(records: &[WorkRecord]) -> (r: Vec<OkrItem>)
    ensures
        r@.map_values(|o: OkrItem| okr_view(o)) == okr_items(records@),
{
    let mut out: Vec<OkrItem> = Vec::new();
    let mut k: usize = 0;
    while k < 7
        invariant
            k <= 7,
            out@.map_values(|o: OkrItem| okr_view(o)) == okr_upto(records@, k as int),
        decreases 7 - k,
    {
        let mut total: usize = 0;
        let mut done: usize = 0;
        let mut i: usize = 0;
        while i < records.len()
            invariant
                i <= records@.len(),
                k < 7,
                (total as nat, done as nat) == objective_counts(records@.take(i as int), k as int),
                done <= total,
                total <= i,
            decreases records.len() - i,
        {
            assert(records@.take(i + 1).drop_last() =~= records@.take(i as int));
            if objective_index_of(records[i].category) == k {
                total = total + 1;
                if record_done(&records[i]) {
                    done = done + 1;
                }
            }
            i = i + 1;
        }
        assert(records@.take(records@.len() as int) =~= records@);
        if total > 0 {
            let mut krs: Vec<String> = Vec::new();
            krs.push(done_of_string(done, total));
            let item = OkrItem {
                objective: String::from_str(objective_name(k)),
                key_results: krs,
                progress_pct: percent_u32(done, total),
            };
            let ghost before = out@;
            let ghost v = okr_view(item);
            assert(string_views(item.key_results@) =~= seq![done_of_text(done as nat, total as nat)]);
            out.push(item);
            assert(out@.map_values(|o: OkrItem| okr_view(o)) =~= before.map_values(|o: OkrItem| okr_view(o)).push(v));
        }
        k = k + 1;
    }
    out
}

/// The objective, by name, that the records of a category count toward:
/// tasks toward 任务执行, meetings and communication toward 沟通协作,
/// research toward 调研探索, reviews toward 质量保障, planning toward
/// 战略规划, documents toward 知识沉淀 and decisions toward 决策管理.
pub open spec fn objective_of(c: Category) -> Seq<char> {
    match c {
        Category::Task => "任务执行"@,
        Category::Meeting => "沟通协作"@,
        Category::Communication => "沟通协作"@,
        Category::Research => "调研探索"@,
        Category::Review => "质量保障"@,
        Category::Planning => "战略规划"@,
        Category::Document => "知识沉淀"@,
        Category::Decision => "决策管理"@,
    }
}

/// The number of records that count toward the objective named `name`.
pub open spec fn count_toward(rs: Seq<WorkRecord>, name: Seq<char>) -> nat
    decreases rs.len(),
{
    if rs.len() == 0 {
        0
    } else {
        count_toward(rs.drop_last(), name) + if objective_of(rs.last().category) == name { 1nat } else { 0nat }
    }
}

/// The number of done records that count toward the objective named `name`.
pub open spec fn done_toward(rs: Seq<WorkRecord>, name: Seq<char>) -> nat
    decreases rs.len(),
{
    if rs.len() == 0 {
        0
    } else {
        done_toward(rs.drop_last(), name) + if objective_of(rs.last().category) == name && is_done(rs.last()) {
            1nat
        } else {
            0nat
        }
    }
}

/// Each category's records count toward the objective that bears its name.
pub proof fn law_objective_of_category(c: Category)
    ensures
        0 <= objective_index(c) < 7,
        objective_names()[objective_index(c)] == objective_of(c),
{
}

proof fn lemma_objective_names_distinct(i: int, j: int)
    requires
        0 <= i < 7,
        0 <= j < 7,
        i != j,
    ensures
        objective_names()[i] != objective_names()[j],
{
    reveal_strlit("任务执行");
    reveal_strlit("沟通协作");
    reveal_strlit("调研探索");
    reveal_strlit("质量保障");
    reveal_strlit("战略规划");
    reveal_strlit("知识沉淀");
    reveal_strlit("决策管理");
    assert(objective_names()[i][0] != objective_names()[j][0]);
}

proof fn lemma_counts_by_name(rs: Seq<WorkRecord>, k: int)
    requires
        0 <= k < 7,
    ensures
        objective_counts(rs, k) == (count_toward(rs, objective_names()[k]), done_toward(rs, objective_names()[k])),
    decreases rs.len(),
{
    if rs.len() > 0 {
        lemma_counts_by_name(rs.drop_last(), k);
        let c = rs.last().category;
        law_objective_of_category(c);
        if objective_index(c) != k {
            lemma_objective_names_distinct(objective_index(c), k);
        }
    }
}

/// The OKR line of objective `q`.
pub open spec fn okr_line(rs: Seq<WorkRecord>, q: int) -> OkrView {
    let (t, d) = objective_counts(rs, q);
    (objective_names()[q], seq![done_of_text(d, t)], percent(d, t))
}

proof fn lemma_okr_upto_items(rs: Seq<WorkRecord>, k: int, j: int)
    requires
        0 <= k <= 7,
        0 <= j < okr_upto(rs, k).len(),
    ensures
        exists|q: int| 0 <= q < k && objective_counts(rs, q).0 > 0 && okr_upto(rs, k)[j] == #[trigger] okr_line(rs, q),
    decreases k,
{
    if k > 0 {
        let before = okr_upto(rs, k - 1);
        if j < before.len() {
            lemma_okr_upto_items(rs, k - 1, j);
            let q = choose|q: int| 0 <= q < k - 1 && objective_counts(rs, q).0 > 0 && okr_upto(rs, k - 1)[j] == #[trigger] okr_line(rs, q);
            assert(okr_upto(rs, k)[j] == okr_upto(rs, k - 1)[j]);
            assert(0 <= q < k);
        } else {
            assert(okr_upto(rs, k)[j] == okr_line(rs, k - 1));
        }
    }
}

proof fn lemma_okr_upto_has(rs: Seq<WorkRecord>, k: int, q: int)
    requires
        0 <= q < k <= 7,
        objective_counts(rs, q).0 > 0,
    ensures
        exists|j: int| 0 <= j < okr_upto(rs, k).len() && (#[trigger] okr_upto(rs, k)[j]).0 == objective_names()[q],
    decreases k,
{
    if q < k - 1 {
        lemma_okr_upto_has(rs, k - 1, q);
        let j = choose|j: int| 0 <= j < okr_upto(rs, k - 1).len() && (#[trigger] okr_upto(rs, k - 1)[j]).0 == objective_names()[q];
        assert(okr_upto(rs, k)[j] == okr_upto(rs, k - 1)[j]);
    } else {
        let j = okr_upto(rs, k - 1).len() as int;
        assert(okr_upto(rs, k)[j].0 == objective_names()[q]);
    }
}

/// The OKR lines name the objectives the records count toward: each line
/// is for an objective some records count toward, and gives how many do and
/// how many of those are done; and every record's objective has a line.
pub proof fn law_okr_lines_by_objective(rs: Seq<WorkRecord>, c: Category)
    ensures
        forall|j: int| 0 <= j < okr_items(rs).len() ==> {
            let (name, krs, p) = #[trigger] okr_items(rs)[j];
            &&& count_toward(rs, name) > 0
            &&& krs == seq![done_of_text(done_toward(rs, name), count_toward(rs, name))]
            &&& p == percent(done_toward(rs, name), count_toward(rs, name))
        },
        count_toward(rs, objective_of(c)) > 0 ==> exists|j: int| 0 <= j < okr_items(rs).len()
            && (#[trigger] okr_items(rs)[j]).0 == objective_of(c),
{
    assert forall|j: int| 0 <= j < okr_items(rs).len() implies {
        let (name, krs, p) = #[trigger] okr_items(rs)[j];
        &&& count_toward(rs, name) > 0
        &&& krs == seq![done_of_text(done_toward(rs, name), count_toward(rs, name))]
        &&& p == percent(done_toward(rs, name), count_toward(rs, name))
    } by {
        lemma_okr_upto_items(rs, 7, j);
        let q = choose|q: int| 0 <= q < 7 && objective_counts(rs, q).0 > 0 && okr_upto(rs, 7)[j] == #[trigger] okr_line(rs, q);
        lemma_counts_by_name(rs, q);
    }
    law_objective_of_category(c);
    let k = objective_index(c);
    lemma_counts_by_name(rs, k);
    if count_toward(rs, objective_of(c)) > 0 {
        lemma_okr_upto_has(rs, 7, k);
    }
}

/// The projects the records name, each once, in order of first mention.
pub open spec fn distinct_projects(rs: Seq<WorkRecord>) -> Seq<Seq<char>>
    decreases rs.len(),
{
    if rs.len() == 0 {
        Seq::empty()
    } else {
        let before = distinct_projects(rs.drop_last());
        match rs.last().project {
            Some(p) => if before.contains(p@) { before } else { before.push(p@) },
            None => before,
        }
    }
}

/// The record belongs to project `p`.
pub open spec fn in_project(r: WorkRecord, p: Seq<char>) -> bool {
    r.project matches Some(x) && x@ == p
}

/// The number of records of project `p`, and of those done.
pub open spec fn project_counts(rs: Seq<WorkRecord>, p: Seq<char>) -> (nat, nat)
    decreases rs.len(),
{
    if rs.len() == 0 {
        (0, 0)
    } else {
        let (t, d) = project_counts(rs.drop_last(), p);
        let r = rs.last();
        if in_project(r, p) {
            (t + 1, if is_done(r) { d + 1 } else { d })
        } else {
            (t, d)
        }
    }
}

/// A milestone: project, text, achieved.
pub type MilestoneView = (Seq<char>, Seq<char>, bool);

pub open spec fn milestone_view(m: Milestone) -> MilestoneView {
    (m.project@, m.milestone@, m.achieved)
}

/// The milestone of each given project with records, in the order given:
/// `完成 done/total 项工作`, achieved when all its records are done.
pub open spec fn milestones_of(rs: Seq<WorkRecord>, ps: Seq<Seq<char>>) -> Seq<MilestoneView>
    decreases ps.len(),
{
    if ps.len() == 0 {
        Seq::empty()
    } else {
        let before = milestones_of(rs, ps.drop_last());
        let p = ps.last();
        let (t, d) = project_counts(rs, p);
        if t > 0 {
            before.push((p, done_of_text(d, t) + "工作"@, d == t))
        } else {
            before
        }
    }
}

/// Whether `r` belongs to project `p`.
fn record_in_project(r: &WorkRecord, p: &str) -> (b: bool)
    ensures
        b == in_project(*r, p@),
{
    match &r.project {
        Some(x) => crate::text::str_eq(x.as_str(), p),
        None => false,
    }
}

/// The projects the records name, each once, in order of first mention.
pub fn collect_projects(records: &[WorkRecord]) -> (r: Vec<String>)
    ensures
        string_views(r@) == distinct_projects(records@),
{
    let mut out: Vec<String> = Vec::new();
    let mut i: usize = 0;
    while i < records.len()
        invariant
            i <= records@.len(),
            string_views(out@) == distinct_projects(records@.take(i as int)),
        decreases records.len() - i,
    {
        assert(records@.take(i + 1).drop_last() =~= records@.take(i as int));
        assert(records@.take(i + 1).last() == records@[i as int]);
        match &records[i].project {
            Some(p) => {
                let ghost sv = string_views(out@);
                let mut seen = false;
                let mut j: usize = 0;
                while j < out.len()
                    invariant
                        j <= out@.len(),
                        sv == string_views(out@),
                        seen == exists|x: int| 0 <= x < j && sv[x] == p@,
                    decreases out.len() - j,
                {
                    if crate::text::str_eq(out[j].as_str(), p.as_str()) {
                        assert(sv[j as int] == p@);
                        seen = true;
                    }
                    j = j + 1;
                }
                if !seen {
                    let ghost before = out@;
                    let c = p.clone();
                    out.push(c);
                    assert(string_views(out@) =~= string_views(before).push(p@));
                } else {
                    assert(sv.contains(p@));
                }
                proof {
                    if !seen {
                        assert(!sv.contains(p@));
                    }
                }
            },
            None => {},
        }
        i = i + 1;
    }
    assert(records@.take(records@.len() as int) =~= records@);
    out
}

/// The milestone of each given project with records, in the order given
/// (see `milestones_of`).
pub fn build_milestones(records: &[WorkRecord], projects: &[String]) -> (r: Vec<Milestone>)
    ensures
        r@.map_values(|m: Milestone| milestone_view(m)) == milestones_of(records@, string_views(projects@)),
{
    let ghost ps = string_views(projects@);
    let mut out: Vec<Milestone> = Vec::new();
    let mut k: usize = 0;
    while k < projects.len()
        invariant
            k <= projects@.len(),
            ps == string_views(projects@),
            out@.map_values(|m: Milestone| milestone_view(m)) == milestones_of(records@, ps.take(k as int)),
        decreases projects.len() - k,
    {
        let proj = projects[k].as_str();
        let mut total: usize = 0;
        let mut done: usize = 0;
        let mut i: usize = 0;
        while i < records.len()
            invariant
                i <= records@.len(),
                (total as nat, done as nat) == project_counts(records@.take(i as int), proj@),
                done <= total,
                total <= i,
            decreases records.len() - i,
        {
            assert(records@.take(i + 1).drop_last() =~= records@.take(i as int));
            if record_in_project(&records[i], proj) {
                total = total + 1;
                if record_done(&records[i]) {
                    done = done + 1;
                }
            }
            i = i + 1;
        }
        assert(records@.take(records@.len() as int) =~= records@);
        assert(ps.take(k + 1).drop_last() =~= ps.take(k as int));
        assert(ps.take(k + 1).last() == proj@);
        if total > 0 {
            let mut text = done_of_string(done, total);
            crate::text::append_str(&mut text, "工作");
            let m = Milestone { project: String::from_str(proj), milestone: text, achieved: done == total };
            let ghost before = out@;
            let ghost v = milestone_view(m);
            out.push(m);
            assert(out@.map_values(|m: Milestone| milestone_view(m)) =~= before.map_values(
                |m: Milestone| milestone_view(m),
            ).push(v));
        }
        k = k + 1;
    }
    assert(ps.take(ps.len() as int) =~= ps);
    out
}

/// The record was created, by its UTC date, in month `m` of year `y`.
pub open spec fn in_month(r: WorkRecord, y: int, m: int) -> bool {
    match utc_date(r.created_at_ms as int) {
        Some((yy, mm, _)) => yy == y && mm == m,
        None => false,
    }
}

/// The number of done records created in month `m` of year `y`.
pub open spec fn month_done(rs: Seq<WorkRecord>, y: int, m: int) -> nat
    decreases rs.len(),
{
    if rs.len() == 0 {
        0
    } else {
        month_done(rs.drop_last(), y, m) + if in_month(rs.last(), y, m) && is_done(rs.last()) { 1nat } else { 0nat }
    }
}

/// A capability metric: name, baseline, current.
pub type MetricView = (Seq<char>, nat, nat);

pub open spec fn metric_view(m: CapabilityMetric) -> MetricView {
    (m.name@, m.baseline as nat, m.current as nat)
}

/// The quarter's capability metrics: the done records of its first month
/// against those of its last, and the quarter's done records against 0.
pub open spec fn capability_metrics(rs: Seq<WorkRecord>, year: int, quarter: int) -> Seq<MetricView> {
    let m0 = (quarter - 1) * 3 + 1;
    let a = month_done(rs, year, m0);
    let b = month_done(rs, year, m0 + 1);
    let c = month_done(rs, year, m0 + 2);
    seq![("月度产出"@, a, c), ("季度总产出"@, 0nat, a + b + c)]
}

/// The done records of three distinct months number no more than the
/// records.
proof fn lemma_three_months(rs: Seq<WorkRecord>, y: int, m: int)
    ensures
        month_done(rs, y, m) + month_done(rs, y, m + 1) + month_done(rs, y, m + 2) <= rs.len(),
    decreases rs.len(),
{
    if rs.len() > 0 {
        lemma_three_months(rs.drop_last(), y, m);
    }
}

/// The number of done records created in month `month` of `year`.
fn count_month_done(records: &[WorkRecord], year: i32, month: u32) -> (r: usize)
    ensures
        r == month_done(records@, year as int, month as int),
{
    let mut n: usize = 0;
    let mut i: usize = 0;
    while i < records.len()
        invariant
            i <= records@.len(),
            n == month_done(records@.take(i as int), year as int, month as int),
            n <= i,
        decreases records.len() - i,
    {
        assert(records@.take(i + 1).drop_last() =~= records@.take(i as int));
        let in_m = match utc_date_of(records[i].created_at_ms) {
            Some(d) => d.year() == year && d.month() == month,
            None => false,
        };
        if in_m && record_done(&records[i]) {
            n = n + 1;
        }
        i = i + 1;
    }
    assert(records@.take(records@.len() as int) =~= records@);
    n
}

/// The quarter's capability metrics (see `capability_metrics`).
pub fn build_capability_metrics(records: &[WorkRecord], year: i32, quarter: u32) -> (r: Vec<CapabilityMetric>)
    requires
        1 <= quarter <= 4,
    ensures
        r@.map_values(|m: CapabilityMetric| metric_view(m)) == capability_metrics(records@, year as int, quarter as int),
{
    let start_month = (quarter - 1) * 3 + 1;
    let n = records.len();
    let a = count_month_done(records, year, start_month);
    let b = count_month_done(records, year, start_month + 1);
    let c = count_month_done(records, year, start_month + 2);
    proof {
        lemma_three_months(records@, year as int, start_month as int);
    }
    let mut metrics: Vec<CapabilityMetric> = Vec::new();
    metrics.push(CapabilityMetric { name: String::from_str("月度产出"), baseline: a as u64, current: c as u64 });
    metrics.push(CapabilityMetric { name: String::from_str("季度总产出"), baseline: 0, current: (a + b + c) as u64 });
    assert(metrics@.map_values(|m: CapabilityMetric| metric_view(m)) =~= capability_metrics(
        records@,
        year as int,
        quarter as int,
    ));
    metrics
}

/// The strings joined with `sep` between them.
pub open spec fn join(s: Seq<Seq<char>>, sep: Seq<char>) -> Seq<char>
    decreases s.len(),
{
    if s.len() == 0 {
        Seq::empty()
    } else if s.len() == 1 {
        s[0]
    } else {
        join(s.drop_last(), sep) + sep + s.last()
    }
}

/// One OKR table row per line: objective, key results joined by `; `,
/// progress.
pub open spec fn okr_rows(o: Seq<OkrView>) -> Seq<char>
    decreases o.len(),
{
    if o.len() == 0 {
        Seq::empty()
    } else {
        let (obj, krs, pct) = o.last();
        okr_rows(o.drop_last()) + "| "@ + obj + " | "@ + join(krs, "; "@) + " | "@ + decimal(pct) + "% |\n"@
    }
}

/// One bullet per milestone, marked 已达成 or 进行中.
pub open spec fn milestone_lines(m: Seq<MilestoneView>) -> Seq<char>
    decreases m.len(),
{
    if m.len() == 0 {
        Seq::empty()
    } else {
        let (p, text, achieved) = m.last();
        milestone_lines(m.drop_last()) + "- **"@ + p + "**："@ + text + " ["@
            + (if achieved { "已达成"@ } else { "进行中"@ }) + "]\n"@
    }
}

/// One table row per metric: name, baseline, current.
pub open spec fn metric_rows(m: Seq<MetricView>) -> Seq<char>
    decreases m.len(),
{
    if m.len() == 0 {
        Seq::empty()
    } else {
        let (name, b, c) = m.last();
        metric_rows(m.drop_last()) + "| "@ + name + " | "@ + decimal(b) + " | "@ + decimal(c) + " |\n"@
    }
}

/// The quarterly report's Markdown.
pub open spec fn quarterly_markdown(
    period: Seq<char>,
    okrs: Seq<OkrView>,
    milestones: Seq<MilestoneView>,
    counts: Seq<(Seq<char>, nat)>,
    metrics: Seq<MetricView>,
    summary: Seq<char>,
) -> Seq<char> {
    "# 季报："@ + period + "\n\n"@
    + "## OKR 进度\n\n"@
    + (if okrs.len() == 0 {
        "_暂无 OKR 数据_\n\n"@
    } else {
        "| 目标 | 关键结果 | 进度 |\n|------|----------|------|\n"@ + okr_rows(okrs) + "\n"@
    })
    + "## 项目里程碑\n\n"@
    + (if milestones.len() == 0 { "_暂无项目里程碑_\n\n"@ } else { milestone_lines(milestones) + "\n"@ })
    + "## 时间分配\n\n"@
    + (if counts.len() == 0 {
        "_暂无记录_\n\n"@
    } else {
        "| 分类 | 数量 |\n|------|------|\n"@ + count_rows(counts) + "\n"@
    })
    + "## 能力成长\n\n"@
    + (if metrics.len() == 0 {
        "_暂无数据_\n\n"@
    } else {
        "| 指标 | 基线 | 当前 |\n|------|------|------|\n"@ + metric_rows(metrics) + "\n"@
    })
    + "## 总结\n\n"@ + summary + "\n"@
}

/// Appends the strings joined with `sep` (see `join`).
fn push_joined(md: &mut String, v: &Vec<String>, sep: &str)
    ensures
        final(md)@ == old(md)@ + join(string_views(v@), sep@),
{
    let ghost sv = string_views(v@);
    let mut i: usize = 0;
    assert(old(md)@ + join(sv.take(0), sep@) =~= old(md)@);
    while i < v.len()
        invariant
            i <= v@.len(),
            sv == string_views(v@),
            md@ == old(md)@ + join(sv.take(i as int), sep@),
        decreases v.len() - i,
    {
        assert(sv.take(i + 1).drop_last() =~= sv.take(i as int));
        assert(sv.take(i + 1).last() == v@[i as int]@);
        if i > 0 {
            crate::text::append_str(md, sep);
        } else {
            assert(sv.take(1) =~= seq![sv[0]]);
        }
        crate::text::append_str(md, v[i].as_str());
        i = i + 1;
    }
    assert(sv.take(sv.len() as int) =~= sv);
}

/// Appends one OKR row per line (see `okr_rows`).
fn push_okr_rows(md: &mut String, o: &Vec<OkrItem>)
    ensures
        final(md)@ == old(md)@ + okr_rows(o@.map_values(|x: OkrItem| okr_view(x))),
{
    let ghost v = o@.map_values(|x: OkrItem| okr_view(x));
    let mut i: usize = 0;
    assert(old(md)@ + okr_rows(v.take(0)) =~= old(md)@);
    while i < o.len()
        invariant
            i <= o@.len(),
            v == o@.map_values(|x: OkrItem| okr_view(x)),
            md@ == old(md)@ + okr_rows(v.take(i as int)),
        decreases o.len() - i,
    {
        let item = &o[i];
        assert(v.take(i + 1).drop_last() =~= v.take(i as int));
        assert(v.take(i + 1).last() == okr_view(*item));
        crate::text::append_str(md, "| ");
        crate::text::append_str(md, item.objective.as_str());
        crate::text::append_str(md, " | ");
        push_joined(md, &item.key_results, "; ");
        crate::text::append_str(md, " | ");
        crate::text::push_decimal(md, item.progress_pct as u64);
        crate::text::append_str(md, "% |\n");
        i = i + 1;
    }
    assert(v.take(v.len() as int) =~= v);
}

/// Appends one bullet per milestone (see `milestone_lines`).
fn push_milestone_lines(md: &mut String, m: &Vec<Milestone>)
    ensures
        final(md)@ == old(md)@ + milestone_lines(m@.map_values(|x: Milestone| milestone_view(x))),
{
    let ghost v = m@.map_values(|x: Milestone| milestone_view(x));
    let mut i: usize = 0;
    assert(old(md)@ + milestone_lines(v.take(0)) =~= old(md)@);
    while i < m.len()
        invariant
            i <= m@.len(),
            v == m@.map_values(|x: Milestone| milestone_view(x)),
            md@ == old(md)@ + milestone_lines(v.take(i as int)),
        decreases m.len() - i,
    {
        let item = &m[i];
        assert(v.take(i + 1).drop_last() =~= v.take(i as int));
        assert(v.take(i + 1).last() == milestone_view(*item));
        crate::text::append_str(md, "- **");
        crate::text::append_str(md, item.project.as_str());
        crate::text::append_str(md, "**：");
        crate::text::append_str(md, item.milestone.as_str());
        crate::text::append_str(md, " [");
        if item.achieved {
            crate::text::append_str(md, "已达成");
        } else {
            crate::text::append_str(md, "进行中");
        }
        crate::text::append_str(md, "]\n");
        i = i + 1;
    }
    assert(v.take(v.len() as int) =~= v);
}

/// Appends one row per metric (see `metric_rows`).
fn push_metric_rows(md: &mut String, m: &Vec<CapabilityMetric>)
    ensures
        final(md)@ == old(md)@ + metric_rows(m@.map_values(|x: CapabilityMetric| metric_view(x))),
{
    let ghost v = m@.map_values(|x: CapabilityMetric| metric_view(x));
    let mut i: usize = 0;
    assert(old(md)@ + metric_rows(v.take(0)) =~= old(md)@);
    while i < m.len()
        invariant
            i <= m@.len(),
            v == m@.map_values(|x: CapabilityMetric| metric_view(x)),
            md@ == old(md)@ + metric_rows(v.take(i as int)),
        decreases m.len() - i,
    {
        let item = &m[i];
        assert(v.take(i + 1).drop_last() =~= v.take(i as int));
        assert(v.take(i + 1).last() == metric_view(*item));
        crate::text::append_str(md, "| ");
        crate::text::append_str(md, item.name.as_str());
        crate::text::append_str(md, " | ");
        crate::text::push_decimal(md, item.baseline);
        crate::text::append_str(md, " | ");
        crate::text::push_decimal(md, item.current);
        crate::text::append_str(md, " |\n");
        i = i + 1;
    }
    assert(v.take(v.len() as int) =~= v);
}

/// The quarterly report's Markdown (see `quarterly_markdown`).
fn render_quarterly_markdown(report: &QuarterlyReport, category_counts: &[(&str, usize)]) -> (r: String)
    ensures
        r@ == quarterly_markdown(
            report.period@,
            report.okr_progress@.map_values(|x: OkrItem| okr_view(x)),
            report.project_milestones@.map_values(|x: Milestone| milestone_view(x)),
            pair_views(category_counts@),
            report.capability_growth@.map_values(|x: CapabilityMetric| metric_view(x)),
            report.summary@,
        ),
{
    let mut md = String::from_str("# 季报：");
    crate::text::append_str(&mut md, report.period.as_str());
    crate::text::append_str(&mut md, "\n\n");
    let ghost s0 = md@;
    crate::text::append_str(&mut md, "## OKR 进度\n\n");
    if report.okr_progress.len() == 0 {
        crate::text::append_str(&mut md, "_暂无 OKR 数据_\n\n");
    } else {
        crate::text::append_str(&mut md, "| 目标 | 关键结果 | 进度 |\n|------|----------|------|\n");
        push_okr_rows(&mut md, &report.okr_progress);
        crate::text::append_str(&mut md, "\n");
    }
    let ghost s1 = md@;
    crate::text::append_str(&mut md, "## 项目里程碑\n\n");
    if report.project_milestones.len() == 0 {
        crate::text::append_str(&mut md, "_暂无项目里程碑_\n\n");
    } else {
        push_milestone_lines(&mut md, &report.project_milestones);
        crate::text::append_str(&mut md, "\n");
    }
    let ghost s2 = md@;
    crate::text::append_str(&mut md, "## 时间分配\n\n");
    if category_counts.len() == 0 {
        crate::text::append_str(&mut md, "_暂无记录_\n\n");
    } else {
        crate::text::append_str(&mut md, "| 分类 | 数量 |\n|------|------|\n");
        push_count_rows(&mut md, category_counts);
        crate::text::append_str(&mut md, "\n");
    }
    let ghost s3 = md@;
    crate::text::append_str(&mut md, "## 能力成长\n\n");
    if report.capability_growth.len() == 0 {
        crate::text::append_str(&mut md, "_暂无数据_\n\n");
    } else {
        crate::text::append_str(&mut md, "| 指标 | 基线 | 当前 |\n|------|------|------|\n");
        push_metric_rows(&mut md, &report.capability_growth);
        crate::text::append_str(&mut md, "\n");
    }
    let ghost s4 = md@;
    crate::text::append_str(&mut md, "## 总结\n\n");
    crate::text::append_str(&mut md, report.summary.as_str());
    crate::text::append_str(&mut md, "\n");
    proof {
        let o = report.okr_progress@.map_values(|x: OkrItem| okr_view(x));
        let a: Seq<char> = if o.len() == 0 {
            "_暂无 OKR 数据_\n\n"@
        } else {
            "| 目标 | 关键结果 | 进度 |\n|------|----------|------|\n"@ + okr_rows(o) + "\n"@
        };
        assert(s1 =~= s0 + "## OKR 进度\n\n"@ + a);
        let m = report.project_milestones@.map_values(|x: Milestone| milestone_view(x));
        let b: Seq<char> = if m.len() == 0 { "_暂无项目里程碑_\n\n"@ } else { milestone_lines(m) + "\n"@ };
        assert(s2 =~= s1 + "## 项目里程碑\n\n"@ + b);
        let c = pair_views(category_counts@);
        let cc: Seq<char> = if c.len() == 0 {
            "_暂无记录_\n\n"@
        } else {
            "| 分类 | 数量 |\n|------|------|\n"@ + count_rows(c) + "\n"@
        };
        assert(s3 =~= s2 + "## 时间分配\n\n"@ + cc);
        let g = report.capability_growth@.map_values(|x: CapabilityMetric| metric_view(x));
        let d: Seq<char> = if g.len() == 0 {
            "_暂无数据_\n\n"@
        } else {
            "| 指标 | 基线 | 当前 |\n|------|------|------|\n"@ + metric_rows(g) + "\n"@
        };
        assert(s4 =~= s3 + "## 能力成长\n\n"@ + d);
        assert(md@ =~= s4 + "## 总结\n\n"@ + report.summary@ + "\n"@);
    }
    md
}

/// The first and last day of quarter `quarter` (1 to 4) of `year`.
pub fn quarter_date_range(year: i32, quarter: u32) -> (r: (Date, Date))
    requires
        -262143 <= year <= 262142,
        1 <= quarter <= 4,
        quarter == 4 ==> year < 262142,
    ensures
        r.0.y() == year && r.0.m() == (quarter - 1) * 3 + 1 && r.0.d() == 1,
        r.1.y() == year && r.1.m() == quarter * 3 && r.1.d() == days_in_month(year as int, quarter * 3),
{
    let start_month = (quarter - 1) * 3 + 1;
    let end_month = quarter * 3;
    let start = Date::from_ymd(year, start_month, 1).unwrap();
    let end = last_day_of_month(year, end_month);
    (start, end)
}

/// `year`-Q`quarter`.
pub open spec fn quarter_text(year: int, quarter: int) -> Seq<char> {
    int_text(year) + "-Q"@ + decimal(quarter as nat)
}

/// The quarterly report of `quarter` of `year` over the records `rs`.
pub open spec fn is_quarterly_report(r: Report, year: i32, quarter: u32, rs: Seq<WorkRecord>) -> bool {
    &&& r.report_type == ReportType::Quarterly
    &&& r.title@ == "季报："@ + quarter_text(year as int, quarter as int)
    &&& r.period_start.y() == year && r.period_start.m() == (quarter - 1) * 3 + 1 && r.period_start.d() == 1
    &&& r.period_end.y() == year && r.period_end.m() == quarter * 3
        && r.period_end.d() == days_in_month(year as int, quarter * 3)
    &&& r.content@ == quarterly_markdown(
        quarter_text(year as int, quarter as int),
        okr_items(rs),
        milestones_of(rs, distinct_projects(rs)),
        category_counts(rs),
        capability_metrics(rs, year as int, quarter as int),
        quarterly_summary(
            quarter_text(year as int, quarter as int),
            rs.len() as nat,
            with_status_in(rs, done_statuses()).len(),
            with_status_in(rs, blocked_statuses()).len(),
            category_counts(rs),
        )
    )
    &&& r.status == crate::processor::report::confirm::ReportStatus::Draft
}

/// The quarterly report of quarter `quarter` of `year`: OKR lines per
/// objective, milestones per project in order of first mention, counts per
/// category in label order, capability metrics, and the summary.
pub fn generate_quarter(year: i32, quarter: u32, records: &[WorkRecord]) -> (r: Report)
    requires
        -262143 <= year <= 262142,
        1 <= quarter <= 4,
        quarter == 4 ==> year < 262142,
    ensures
        is_quarterly_report(r, year, quarter, records@),
{
    let (period_start, period_end) = quarter_date_range(year, quarter);
    let mut period = String::new();
    push_int(&mut period, year as i64);
    crate::text::append_str(&mut period, "-Q");
    crate::text::push_decimal(&mut period, quarter as u64);
    assert(period@ =~= quarter_text(year as int, quarter as int));
    let done_words: [&str; 4] = ["done", "completed", "完成", "已完成"];
    let block_words: [&str; 2] = ["blocked", "阻塞"];
    assert(str_views(done_words@) =~= done_statuses());
    assert(str_views(block_words@) =~= blocked_statuses());
    let done_count = count_by_status(records, &done_words);
    let blocked_count = count_by_status(records, &block_words);
    let total = records.len();
    let counts = count_categories(records);
    let projects = collect_projects(records);
    let okr_progress = build_okr_from_records(records);
    let project_milestones = build_milestones(records, projects.as_slice());
    let capability_growth = build_capability_metrics(records, year, quarter);
    let summary = build_quarterly_summary(period.as_str(), total, done_count, blocked_count, counts.as_slice());
    let quarterly_report = QuarterlyReport {
        period: period.clone(),
        okr_progress,
        project_milestones,
        capability_growth,
        summary,
    };
    let content = render_quarterly_markdown(&quarterly_report, counts.as_slice());
    let mut title = String::from_str("季报：");
    crate::text::append_str(&mut title, period.as_str());
    Report::new(ReportType::Quarterly, title, content, period_start, period_end)
}

} // verus!
