//! Aggregations of work records that the periodic reports share: filtering
//! by task status, counting, and counts per category.
use vstd::prelude::*;
use crate::clock::lowercase;
use crate::processor::record::{Category, WorkRecord};
use crate::text::contains;

verus! {

/// The views of string slices.
pub open spec fn str_views(s: Seq<&str>) -> Seq<Seq<char>> {
    s.map_values(|x: &str| x@)
}

/// The records behind references.
pub open spec fn derefs(v: Seq<&WorkRecord>) -> Seq<WorkRecord> {
    v.map_values(|r: &WorkRecord| *r)
}

/// A record's task status, lower-cased.
pub open spec fn lower_status(r: WorkRecord) -> Option<Seq<char>> {
    match r.task_status {
        Some(s) => Some(lowercase(s@)),
        None => None,
    }
}

/// The record's lower-cased status is one of `statuses`.
pub open spec fn status_is_one_of(r: WorkRecord, statuses: Seq<Seq<char>>) -> bool {
    match lower_status(r) {
        Some(l) => statuses.contains(l),
        None => false,
    }
}

/// The record's lower-cased status contains one of `words`.
pub open spec fn status_mentions(r: WorkRecord, words: Seq<Seq<char>>) -> bool {
    match lower_status(r) {
        Some(l) => exists|k: int| 0 <= k < words.len() && contains(l, #[trigger] words[k]),
        None => false,
    }
}

/// The records whose status is one of `statuses`, in order.
pub open spec fn with_status_in(rs: Seq<WorkRecord>, statuses: Seq<Seq<char>>) -> Seq<WorkRecord>
    decreases rs.len(),
{
    if rs.len() == 0 {
        Seq::empty()
    } else {
        let r = with_status_in(rs.drop_last(), statuses);
        if status_is_one_of(rs.last(), statuses) { r.push(rs.last()) } else { r }
    }
}

/// The records whose status mentions one of `words`, in order.
pub open spec fn with_status_mentioning(rs: Seq<WorkRecord>, words: Seq<Seq<char>>) -> Seq<WorkRecord>
    decreases rs.len(),
{
    if rs.len() == 0 {
        Seq::empty()
    } else {
        let r = with_status_mentioning(rs.drop_last(), words);
        if status_mentions(rs.last(), words) { r.push(rs.last()) } else { r }
    }
}

/// The statuses that count as done.
pub open spec fn done_statuses() -> Seq<Seq<char>> {
    seq!["done"@, "completed"@, "完成"@, "已完成"@]
}

/// The statuses that count as blocked.
pub open spec fn blocked_statuses() -> Seq<Seq<char>> {
    seq!["blocked"@, "阻塞"@]
}

fn lowered(r: &WorkRecord) -> (s: Option<String>)
    ensures
        crate::processor::task::model::opt_view(s) == lower_status(*r),
{
    match &r.task_status {
        Some(t) => Some(crate::clock::to_lowercase(t.as_str())),
        None => None,
    }
}

fn one_of(l: &str, statuses: &[&str]) -> (b: bool)
    ensures
        b == str_views(statuses@).contains(l@),
{
    let ghost sv = str_views(statuses@);
    let mut k: usize = 0;
    while k < statuses.len()
        invariant
            k <= statuses@.len(),
            sv == str_views(statuses@),
            forall|j: int| 0 <= j < k ==> sv[j] != l@,
        decreases statuses.len() - k,
    {
        if crate::text::str_eq(l, statuses[k]) {
            assert(sv[k as int] == l@);
            return true;
        }
        k = k + 1;
    }
    false
}

fn mentions(l: &str, words: &[&str]) -> (b: bool)
    ensures
        b == exists|k: int| 0 <= k < words@.len() && contains(l@, #[trigger] str_views(words@)[k]),
{
    let ghost wv = str_views(words@);
    let v = crate::text::chars_of(l);
    let mut k: usize = 0;
    while k < words.len()
        invariant
            k <= words@.len(),
            wv == str_views(words@),
            v@ == l@,
            forall|j: int| 0 <= j < k ==> !contains(l@, #[trigger] wv[j]),
        decreases words.len() - k,
    {
        if crate::text::contains_str(v.as_slice(), words[k]) {
            assert(contains(l@, wv[k as int]));
            return true;
        }
        k = k + 1;
    }
    false
}

/// Whether `r`'s lower-cased status is one of `statuses`.
pub fn has_status_in(r: &WorkRecord, statuses: &[&str]) -> (b: bool)
    ensures
        b == status_is_one_of(*r, str_views(statuses@)),
{
    match lowered(r) {
        Some(l) => one_of(l.as_str(), statuses),
        None => false,
    }
}

/// Whether `r`'s lower-cased status mentions one of `words`.
pub fn has_status_mentioning(r: &WorkRecord, words: &[&str]) -> (b: bool)
    ensures
        b == status_mentions(*r, str_views(words@)),
{
    match lowered(r) {
        Some(l) => mentions(l.as_str(), words),
        None => false,
    }
}

/// The records whose lower-cased status is one of `statuses`, in order.
pub fn filter_by_status<'a>(records: &'a [WorkRecord], statuses: &[&str]) -> (r: Vec<&'a WorkRecord>)
    ensures
        derefs(r@) == with_status_in(records@, str_views(statuses@)),
{
    let mut out: Vec<&WorkRecord> = Vec::new();
    let mut i: usize = 0;
    while i < records.len()
        invariant
            i <= records@.len(),
            derefs(out@) == with_status_in(records@.take(i as int), str_views(statuses@)),
        decreases records.len() - i,
    {
        assert(records@.take(i + 1).drop_last() =~= records@.take(i as int));
        if has_status_in(&records[i], statuses) {
            let ghost before = out@;
            out.push(&records[i]);
            assert(derefs(out@) =~= derefs(before).push(records@[i as int]));
        }
        i = i + 1;
    }
    assert(records@.take(records@.len() as int) =~= records@);
    out
}

/// The records whose lower-cased status mentions one of `words`, in order.
pub fn filter_by_mention<'a>(records: &'a [WorkRecord], words: &[&str]) -> (r: Vec<&'a WorkRecord>)
    ensures
        derefs(r@) == with_status_mentioning(records@, str_views(words@)),
{
    let mut out: Vec<&WorkRecord> = Vec::new();
    let mut i: usize = 0;
    while i < records.len()
        invariant
            i <= records@.len(),
            derefs(out@) == with_status_mentioning(records@.take(i as int), str_views(words@)),
        decreases records.len() - i,
    {
        assert(records@.take(i + 1).drop_last() =~= records@.take(i as int));
        if has_status_mentioning(&records[i], words) {
            let ghost before = out@;
            out.push(&records[i]);
            assert(derefs(out@) =~= derefs(before).push(records@[i as int]));
        }
        i = i + 1;
    }
    assert(records@.take(records@.len() as int) =~= records@);
    out
}

/// The number of records whose lower-cased status is one of `statuses`.
pub fn count_by_status(records: &[WorkRecord], statuses: &[&str]) -> (r: usize)
    ensures
        r == with_status_in(records@, str_views(statuses@)).len(),
{
    filter_by_status(records, statuses).len()
}

/// Whether a task status counts as done: lower-cased, one of `done`,
/// `completed`, `完成`, `已完成`.
pub fn is_done_status(s: &str) -> (r: bool)
    ensures
        r == done_statuses().contains(lowercase(s@)),
{
    let l = crate::clock::to_lowercase(s);
    let ls = l.as_str();
    let r = crate::text::str_eq(ls, "done") || crate::text::str_eq(ls, "completed") || crate::text::str_eq(ls, "完成")
        || crate::text::str_eq(ls, "已完成");
    proof {
        let d = done_statuses();
        if r {
            if l@ == "done"@ { assert(d[0] == l@); }
            if l@ == "completed"@ { assert(d[1] == l@); }
            if l@ == "完成"@ { assert(d[2] == l@); }
            if l@ == "已完成"@ { assert(d[3] == l@); }
        }
    }
    r
}

/// A category's report label.
pub open spec fn category_label(c: Category) -> Seq<char> {
    match c {
        Category::Task => "任务"@,
        Category::Meeting => "会议"@,
        Category::Communication => "沟通"@,
        Category::Research => "调研"@,
        Category::Review => "评审"@,
        Category::Planning => "规划"@,
        Category::Document => "文档"@,
        Category::Decision => "决策"@,
    }
}

/// The categories in the order of their labels (by code point).
pub open spec fn label_order() -> Seq<Category> {
    seq![
        Category::Task,
        Category::Meeting,
        Category::Decision,
        Category::Document,
        Category::Communication,
        Category::Planning,
        Category::Review,
        Category::Research,
    ]
}

/// The number of records of category `c`.
pub open spec fn count_of(rs: Seq<WorkRecord>, c: Category) -> nat
    decreases rs.len(),
{
    if rs.len() == 0 {
        0
    } else {
        count_of(rs.drop_last(), c) + if rs.last().category == c { 1nat } else { 0nat }
    }
}

/// (label, count) for each category with records, from index `k` of the
/// label order on.
pub open spec fn counts_from(rs: Seq<WorkRecord>, k: int) -> Seq<(Seq<char>, nat)>
    decreases 8 - k,
{
    if k < 0 || k >= 8 {
        Seq::empty()
    } else {
        let c = label_order()[k];
        let rest = counts_from(rs, k + 1);
        if count_of(rs, c) > 0 {
            seq![(category_label(c), count_of(rs, c))] + rest
        } else {
            rest
        }
    }
}

/// (label, count) for each category with records, in label order.
pub open spec fn category_counts(rs: Seq<WorkRecord>) -> Seq<(Seq<char>, nat)> {
    counts_from(rs, 0)
}

pub fn category_label_str(c: Category) -> (r: &'static str)
    ensures
        r@ == category_label(c),
{
    match c {
        Category::Task => "任务",
        Category::Meeting => "会议",
        Category::Communication => "沟通",
        Category::Research => "调研",
        Category::Review => "评审",
        Category::Planning => "规划",
        Category::Document => "文档",
        Category::Decision => "决策",
    }
}

fn label_order_at(k: usize) -> (c: Category)
    requires
        k < 8,
    ensures
        c == label_order()[k as int],
{
    match k {
        0 => Category::Task,
        1 => Category::Meeting,
        2 => Category::Decision,
        3 => Category::Document,
        4 => Category::Communication,
        5 => Category::Planning,
        6 => Category::Review,
        _ => Category::Research,
    }
}

fn count_category(records: &[WorkRecord], c: Category) -> (r: usize)
    ensures
        r == count_of(records@, c),
{
    let mut n: usize = 0;
    let mut i: usize = 0;
    while i < records.len()
        invariant
            i <= records@.len(),
            n == count_of(records@.take(i as int), c),
            n <= i,
        decreases records.len() - i,
    {
        assert(records@.take(i + 1).drop_last() =~= records@.take(i as int));
        if records[i].category == c {
            n = n + 1;
        }
        i = i + 1;
    }
    assert(records@.take(records@.len() as int) =~= records@);
    n
}

/// The views of (label, count) pairs.
pub open spec fn pair_views(c: Seq<(&str, usize)>) -> Seq<(Seq<char>, nat)> {
    c.map_values(|p: (&str, usize)| (p.0@, p.1 as nat))
}

/// (label, count) for each category with records, in label order.
pub fn count_categories(records: &[WorkRecord]) -> (r: Vec<(&'static str, usize)>)
    ensures
        pair_views(r@) == category_counts(records@),
{
    let mut out: Vec<(&'static str, usize)> = Vec::new();
    let mut k: usize = 8;
    while k > 0
        invariant
            k <= 8,
            pair_views(out@) == counts_from(records@, k as int),
        decreases k,
    {
        k = k - 1;
        let c = label_order_at(k);
        let n = count_category(records, c);
        if n > 0 {
            let ghost before = out@;
            let mut next: Vec<(&'static str, usize)> = Vec::new();
            next.push((category_label_str(c), n));
            let mut rest = out;
            next.append(&mut rest);
            out = next;
            assert(pair_views(out@) =~= seq![(category_label(c), n as nat)] + pair_views(before));
        }
    }
    out
}

} // verus!
