//! The summary paragraphs of periodic reports, and the structures of the
//! quarterly, semi-annual and annual reports.  Category counts are given as
//! (label, count) pairs in a fixed order.
use vstd::prelude::*;
use crate::processor::report::records::pair_views;
use crate::processor::review::percent;
use crate::text::decimal;

verus! {

/// An OKR line of a quarterly report.
#[derive(Debug, Clone, PartialEq)]
pub struct OkrItem {
    pub objective: String,
    pub key_results: Vec<String>,
    pub progress_pct: u32,
}

/// A project milestone of a quarterly report.
#[derive(Debug, Clone, PartialEq)]
pub struct Milestone {
    pub project: String,
    pub milestone: String,
    pub achieved: bool,
}

/// A capability metric of a quarterly report: a count at the start and now.
#[derive(Debug, Clone, PartialEq)]
pub struct CapabilityMetric {
    pub name: String,
    pub baseline: u64,
    pub current: u64,
}

/// A quarterly report's parts.
#[derive(Debug, Clone, PartialEq)]
pub struct QuarterlyReport {
    pub period: String,
    pub okr_progress: Vec<OkrItem>,
    pub project_milestones: Vec<Milestone>,
    pub capability_growth: Vec<CapabilityMetric>,
    pub summary: String,
}

/// A goal adjustment of a semi-annual report.
#[derive(Debug, Clone, PartialEq)]
pub struct GoalAdjustment {
    pub goal: String,
    pub reason: String,
    pub new_direction: String,
}

/// A semi-annual report's parts.
#[derive(Debug, Clone, PartialEq)]
pub struct SemiAnnualReport {
    pub period: String,
    pub stage_summary: String,
    pub goal_adjustments: Vec<GoalAdjustment>,
    pub key_achievements: Vec<String>,
    pub next_half_plan: Vec<String>,
}

/// A point of an annual growth trajectory.
#[derive(Debug, Clone, PartialEq)]
pub struct GrowthPoint {
    pub period: String,
    pub metric: String,
    pub value: u64,
}

/// An annual report's parts.
#[derive(Debug, Clone, PartialEq)]
pub struct AnnualReport {
    pub year: i32,
    pub panoramic_summary: String,
    pub growth_trajectory: Vec<GrowthPoint>,
    pub next_year_plan: Vec<String>,
    pub highlights: Vec<String>,
}

/// An integer as `Display` prints it.
pub open spec fn int_text(i: int) -> Seq<char> {
    if i < 0 {
        seq!['-'] + decimal((-i) as nat)
    } else {
        decimal(i as nat)
    }
}

/// Appends `i` as `Display` prints it.
pub fn push_int(s: &mut String, i: i64)
    ensures
        final(s)@ == old(s)@ + int_text(i as int),
{
    if i < 0 {
        crate::text::push_char(s, '-');
        let a: u64 = if i == i64::MIN {
            9223372036854775808u64
        } else {
            (-i) as u64
        };
        crate::text::push_decimal(s, a);
        assert(s@ =~= old(s)@ + (seq!['-'] + decimal((-i) as nat)));
    } else {
        crate::text::push_decimal(s, i as u64);
    }
}

/// The index `Iterator::max_by_key` picks by count: the last of the
/// largest counts, from index `k` on (`best` the best index before `k`).
pub open spec fn last_max_from(c: Seq<(Seq<char>, nat)>, k: int, best: int) -> int
    decreases c.len() - k,
{
    if k >= c.len() || k < 0 {
        best
    } else if c[k].1 >= c[best].1 {
        last_max_from(c, k + 1, k)
    } else {
        last_max_from(c, k + 1, best)
    }
}

/// The index of the last of the largest counts.
pub open spec fn last_max(c: Seq<(Seq<char>, nat)>) -> int {
    last_max_from(c, 1, 0)
}

pub(crate) fn last_max_index(c: &[(&str, usize)]) -> (r: usize)
    requires
        c@.len() > 0,
    ensures
        r < c@.len(),
        r == last_max(pair_views(c@)),
{
    let ghost cv = pair_views(c@);
    let mut best: usize = 0;
    let mut k: usize = 1;
    while k < c.len()
        invariant
            1 <= k <= c@.len(),
            best < k,
            cv == pair_views(c@),
            last_max(cv) == last_max_from(cv, k as int, best as int),
        decreases c.len() - k,
    {
        if c[k].1 >= c[best].1 {
            best = k;
        }
        k = k + 1;
    }
    best
}

/// The index of the first of the largest counts, among the indices other
/// than `skip`, from `k` on (`best` the best index so far, or -1).
pub open spec fn first_max_from(c: Seq<(Seq<char>, nat)>, skip: int, k: int, best: int) -> int
    decreases c.len() - k,
{
    if k >= c.len() || k < 0 {
        best
    } else if k != skip && (best < 0 || c[k].1 > c[best].1) {
        first_max_from(c, skip, k + 1, k)
    } else {
        first_max_from(c, skip, k + 1, best)
    }
}

/// The index of the first of the largest counts other than at `skip`
/// (-1 when there is none): what a stable sort by descending count puts
/// first (with `skip` = -1) or second (with `skip` the first).
pub open spec fn first_max(c: Seq<(Seq<char>, nat)>, skip: int) -> int {
    first_max_from(c, skip, 0, -1)
}

fn first_max_index(c: &[(&str, usize)], skip: Option<usize>) -> (r: Option<usize>)
    ensures
        r matches Some(i) ==> i < c@.len() && i == first_max(pair_views(c@), if skip is Some { skip->0 as int } else { -1 }),
        r is None ==> first_max(pair_views(c@), if skip is Some { skip->0 as int } else { -1 }) == -1,
{
    let ghost cv = pair_views(c@);
    let ghost sk: int = if skip is Some { skip->0 as int } else { -1 };
    let mut best: Option<usize> = None;
    let mut k: usize = 0;
    while k < c.len()
        invariant
            k <= c@.len(),
            cv == pair_views(c@),
            sk == if skip is Some { skip->0 as int } else { -1 },
            best matches Some(b) ==> b < k,
            first_max(cv, sk) == first_max_from(cv, sk, k as int, if best is Some { best->0 as int } else { -1 }),
        decreases c.len() - k,
    {
        let skipped = match skip {
            Some(s) => s == k,
            None => false,
        };
        if !skipped {
            let better = match best {
                None => true,
                Some(b) => c[k].1 > c[b].1,
            };
            if better {
                best = Some(k);
            }
        }
        k = k + 1;
    }
    best
}

/// The opening sentence shared by the summaries: totals, completions and
/// the completion rate.
pub open spec fn totals_text(total: nat, done: nat) -> Seq<char> {
    "共处理 "@ + decimal(total) + " 项工作，完成 "@ + decimal(done) + " 项（"@ + decimal(percent(done, total)) + "%）。"@
}

/// The quarterly summary: nothing recorded; or the totals, the blocked
/// count when there is any, and the category with the most records (the
/// last of equals).
pub open spec fn quarterly_summary(period: Seq<char>, total: nat, done: nat, blocked: nat, c: Seq<(Seq<char>, nat)>) -> Seq<char> {
    if total == 0 {
        period + " 暂无工作记录。"@
    } else {
        period + " "@ + totals_text(total, done) + (if blocked > 0 {
            " "@ + decimal(blocked) + " 项受阻需关注。"@
        } else {
            Seq::empty()
        }) + (if c.len() > 0 {
            " 主要投入领域为「"@ + c[last_max(c)].0 + "」（"@ + decimal(c[last_max(c)].1) + " 项）。"@
        } else {
            Seq::empty()
        })
    }
}

/// The annual summary: nothing recorded; or the totals, the blocked count
/// when there is any, and the two categories with the most records (in
/// stable descending order), closed by a full stop.
pub open spec fn panoramic_summary(year: int, total: nat, done: nat, blocked: nat, c: Seq<(Seq<char>, nat)>) -> Seq<char> {
    if total == 0 {
        int_text(year) + "年暂无工作记录。"@
    } else {
        let a = first_max(c, -1);
        let b = first_max(c, a);
        int_text(year) + "年"@ + totals_text(total, done) + (if blocked > 0 {
            " 全年 "@ + decimal(blocked) + " 项受阻。"@
        } else {
            Seq::empty()
        }) + (if a >= 0 {
            " 主要领域「"@ + c[a].0 + "」（"@ + decimal(c[a].1) + " 项）"@
        } else {
            Seq::empty()
        }) + (if b >= 0 {
            "、「"@ + c[b].0 + "」（"@ + decimal(c[b].1) + " 项）"@
        } else {
            Seq::empty()
        }) + "。"@
    }
}

/// Appends the totals sentence.
fn push_totals(s: &mut String, total: usize, done: usize)
    requires
        total > 0,
    ensures
        final(s)@ == old(s)@ + totals_text(total as nat, done as nat),
{
    crate::text::append_str(s, "共处理 ");
    crate::text::push_decimal(s, total as u64);
    crate::text::append_str(s, " 项工作，完成 ");
    crate::text::push_decimal(s, done as u64);
    crate::text::append_str(s, " 项（");
    crate::processor::report::markdown::push_percent(s, done, total);
    crate::text::append_str(s, "%）。");
    assert(s@ =~= old(s)@ + totals_text(total as nat, done as nat));
}

/// The quarterly summary (see `quarterly_summary`).
pub fn build_quarterly_summary(
    period: &str,
    total: usize,
    done_count: usize,
    blocked_count: usize,
    category_counts: &[(&str, usize)],
) -> (r: String)
    ensures
        r@ == quarterly_summary(period@, total as nat, done_count as nat, blocked_count as nat, pair_views(category_counts@)),
{
    let mut s = String::from_str(period);
    if total == 0 {
        crate::text::append_str(&mut s, " 暂无工作记录。");
        return s;
    }
    crate::text::append_str(&mut s, " ");
    push_totals(&mut s, total, done_count);
    let ghost after_totals = s@;
    if blocked_count > 0 {
        crate::text::append_str(&mut s, " ");
        crate::text::push_decimal(&mut s, blocked_count as u64);
        crate::text::append_str(&mut s, " 项受阻需关注。");
    }
    let ghost after_blocked = s@;
    if category_counts.len() > 0 {
        let i = last_max_index(category_counts);
        let (cat, count) = category_counts[i];
        crate::text::append_str(&mut s, " 主要投入领域为「");
        crate::text::append_str(&mut s, cat);
        crate::text::append_str(&mut s, "」（");
        crate::text::push_decimal(&mut s, count as u64);
        crate::text::append_str(&mut s, " 项）。");
    }
    proof {
        let c = pair_views(category_counts@);
        let bl: Seq<char> = if blocked_count > 0 {
            " "@ + decimal(blocked_count as nat) + " 项受阻需关注。"@
        } else {
            Seq::empty()
        };
        assert(after_blocked =~= after_totals + bl);
        if c.len() > 0 {
            let m = last_max(c);
            assert(s@ =~= after_blocked + (" 主要投入领域为「"@ + c[m].0 + "」（"@ + decimal(c[m].1) + " 项）。"@));
        } else {
            assert(s@ =~= after_blocked + Seq::<char>::empty());
        }
    }
    s
}

/// The annual summary (see `panoramic_summary`).
pub fn build_panoramic_summary(
    year: i32,
    total: usize,
    done_count: usize,
    blocked_count: usize,
    category_counts: &[(&str, usize)],
) -> (r: String)
    ensures
        r@ == panoramic_summary(year as int, total as nat, done_count as nat, blocked_count as nat, pair_views(category_counts@)),
{
    let mut s = String::new();
    push_int(&mut s, year as i64);
    if total == 0 {
        crate::text::append_str(&mut s, "年暂无工作记录。");
        return s;
    }
    crate::text::append_str(&mut s, "年");
    push_totals(&mut s, total, done_count);
    let ghost after_totals = s@;
    if blocked_count > 0 {
        crate::text::append_str(&mut s, " 全年 ");
        crate::text::push_decimal(&mut s, blocked_count as u64);
        crate::text::append_str(&mut s, " 项受阻。");
    }
    let ghost after_blocked = s@;
    let first = first_max_index(category_counts, None);
    match first {
        Some(i) => {
            let (cat, count) = category_counts[i];
            crate::text::append_str(&mut s, " 主要领域「");
            crate::text::append_str(&mut s, cat);
            crate::text::append_str(&mut s, "」（");
            crate::text::push_decimal(&mut s, count as u64);
            crate::text::append_str(&mut s, " 项）");
        },
        None => {},
    }
    let ghost after_first = s@;
    let second = match first {
        Some(i) => first_max_index(category_counts, Some(i)),
        None => None,
    };
    match second {
        Some(j) => {
            let (cat, count) = category_counts[j];
            crate::text::append_str(&mut s, "、「");
            crate::text::append_str(&mut s, cat);
            crate::text::append_str(&mut s, "」（");
            crate::text::push_decimal(&mut s, count as u64);
            crate::text::append_str(&mut s, " 项）");
        },
        None => {},
    }
    let ghost after_second = s@;
    crate::text::append_str(&mut s, "。");
    proof {
        let c = pair_views(category_counts@);
        let a = first_max(c, -1);
        let b = first_max(c, a);
        let bl: Seq<char> = if blocked_count > 0 {
            " 全年 "@ + decimal(blocked_count as nat) + " 项受阻。"@
        } else {
            Seq::empty()
        };
        let fa: Seq<char> = if a >= 0 {
            " 主要领域「"@ + c[a].0 + "」（"@ + decimal(c[a].1) + " 项）"@
        } else {
            Seq::empty()
        };
        let fb: Seq<char> = if b >= 0 {
            "、「"@ + c[b].0 + "」（"@ + decimal(c[b].1) + " 项）"@
        } else {
            Seq::empty()
        };
        assert(after_blocked =~= after_totals + bl);
        assert(after_first =~= after_blocked + fa);
        if a < 0 {
            lemma_first_max_none(c, a);
        }
        assert(after_second =~= after_first + fb);
        assert(s@ =~= after_second + "。"@);
    }
    s
}

/// With no first maximum there are no counts, so no second either.
proof fn lemma_first_max_none(c: Seq<(Seq<char>, nat)>, a: int)
    requires
        a == first_max(c, -1),
        a < 0,
    ensures
        c.len() == 0,
        first_max(c, a) == -1,
{
    if c.len() > 0 {
        lemma_first_max_from_found(c, -1, 1, 0);
    }
}

/// Once something is found, the result is an index.
proof fn lemma_first_max_from_found(c: Seq<(Seq<char>, nat)>, skip: int, k: int, best: int)
    requires
        0 <= best,
    ensures
        first_max_from(c, skip, k, best) >= 0,
    decreases c.len() - k,
{
    if k < c.len() && k >= 0 {
        if k != skip && (best < 0 || c[k].1 > c[best].1) {
            lemma_first_max_from_found(c, skip, k + 1, k);
        } else {
            lemma_first_max_from_found(c, skip, k + 1, best);
        }
    }
}

} // verus!
