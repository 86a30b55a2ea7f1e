//! Tiered review of processor output, and the queue of pushes that wait for
//! a user's confirmation.  Summaries and extractions get the light
//! consistency check; analyses and reports the deeper semantic one.
use vstd::prelude::*;
use crate::processor::error::WbError;
use crate::processor::record::{Issue, ReviewResult, ReviewVerdict};
use crate::processor::review_rules::{issue_is, utf8_len};
use crate::scheduler::dependency::{join_strings, join_with, string_views};
use crate::store::{Keyed, KeyedStore};
use crate::text::{contains, decimal};

verus! {

/// The kind of output a processor produced.
#[derive(PartialEq, Eq, Structural, Clone, Copy, Debug, Hash)]
pub enum OutputType {
    Summary,
    Analysis,
    Extraction,
    Report,
}

/// What a processor produced: the input of a review.
#[derive(Debug, Clone)]
pub struct ProcessorOutput {
    pub output_type: OutputType,
    pub content: String,
    /// The output's confidence, in thousandths.
    pub confidence_permille: u32,
    /// The people and key entities the output concerns.
    pub entities: Vec<String>,
}

/// An issue seen as four texts: type, severity, description, suggestion.
pub type IssueView = (Seq<char>, Seq<char>, Seq<char>, Seq<char>);

pub open spec fn issue_view(i: Issue) -> IssueView {
    (i.issue_type@, i.severity@, i.description@, i.suggestion@)
}

pub open spec fn issue_views(s: Seq<Issue>) -> Seq<IssueView> {
    s.map_values(|i: Issue| issue_view(i))
}

/// The descriptions of the issues of severity `high` or `critical`, in order.
pub open spec fn severe_descs(s: Seq<IssueView>) -> Seq<Seq<char>>
    decreases s.len(),
{
    if s.len() == 0 {
        Seq::empty()
    } else {
        let r = severe_descs(s.drop_last());
        if s.last().1 == "high"@ || s.last().1 == "critical"@ {
            r.push(s.last().2)
        } else {
            r
        }
    }
}

/// The descriptions of the issues of severity `medium`, in order.
pub open spec fn medium_descs(s: Seq<IssueView>) -> Seq<Seq<char>>
    decreases s.len(),
{
    if s.len() == 0 {
        Seq::empty()
    } else {
        let r = medium_descs(s.drop_last());
        if s.last().1 == "medium"@ {
            r.push(s.last().2)
        } else {
            r
        }
    }
}

/// The verdict the issues call for: a fix when any is severe, listing the
/// severe ones; else a review when any is medium, listing those; else
/// approval.
pub open spec fn verdict_is(v: ReviewVerdict, issues: Seq<IssueView>) -> bool {
    if severe_descs(issues).len() > 0 {
        v matches ReviewVerdict::NeedsFix(m) && m@ == join_with(severe_descs(issues), "; "@)
    } else if medium_descs(issues).len() > 0 {
        v matches ReviewVerdict::NeedsReview(m) && m@ == join_with(medium_descs(issues), "; "@)
    } else {
        v matches ReviewVerdict::Approved
    }
}

/// The verdict for `issues` (see `verdict_is`).
pub(crate) fn verdict_for(issues: &Vec<Issue>) -> (r: ReviewVerdict)
    ensures
        verdict_is(r, issue_views(issues@)),
{
    proof {
        reveal_strlit("high");
        reveal_strlit("critical");
        reveal_strlit("medium");
        assert("high"@.len() == 4 && "critical"@.len() == 8 && "medium"@.len() == 6);
    }
    let ghost iv = issue_views(issues@);
    let mut severe: Vec<String> = Vec::new();
    let mut medium: Vec<String> = Vec::new();
    let mut i: usize = 0;
    assert(iv.subrange(0, 0) =~= Seq::<IssueView>::empty());
    while i < issues.len()
        invariant
            i <= issues@.len(),
            iv == issue_views(issues@),
            string_views(severe@) == severe_descs(iv.subrange(0, i as int)),
            string_views(medium@) == medium_descs(iv.subrange(0, i as int)),
        decreases issues.len() - i,
    {
        let sev = issues[i].severity.as_str();
        proof {
            reveal_strlit("high");
            reveal_strlit("critical");
            reveal_strlit("medium");
            assert("high"@.len() == 4 && "critical"@.len() == 8 && "medium"@.len() == 6);
        }
        assert(iv.subrange(0, i + 1).drop_last() =~= iv.subrange(0, i as int));
        assert(iv.subrange(0, i + 1).last() == issue_view(issues@[i as int]));
        if crate::text::str_eq(sev, "high") || crate::text::str_eq(sev, "critical") {
            let ghost before = severe@;
            severe.push(issues[i].description.clone());
            assert(string_views(severe@) =~= string_views(before).push(issues@[i as int].description@));
        } else if crate::text::str_eq(sev, "medium") {
            let ghost before = medium@;
            medium.push(issues[i].description.clone());
            assert(string_views(medium@) =~= string_views(before).push(issues@[i as int].description@));
        }
        i = i + 1;
    }
    assert(iv.subrange(0, issues@.len() as int) =~= iv);
    if severe.len() > 0 {
        ReviewVerdict::NeedsFix(join_strings(&severe, "; "))
    } else if medium.len() > 0 {
        ReviewVerdict::NeedsReview(join_strings(&medium, "; "))
    } else {
        ReviewVerdict::Approved
    }
}

/// A review model.
pub trait ReviewModel {
    /// The name the model signs its reviews with.
    fn reviewer_name(&self) -> &str;

    /// Reviews `output`.
    fn review(&self, output: &ProcessorOutput) -> ReviewResult;
}

/// The light review: contradictions and coverage of key entities.
pub struct SmallModelReview {
    /// The least share of entities the content must mention, in thousandths.
    pub min_coverage_permille: u32,
    /// Pairs of statements that contradict each other.
    pub contradiction_pairs: Vec<(String, String)>,
}

/// The contradiction issue for the first pair, from index `k` of `pairs`
/// on, whose both statements occur in `content`.
pub open spec fn contradiction_from(content: Seq<char>, pairs: Seq<(Seq<char>, Seq<char>)>, k: int) -> Option<IssueView>
    decreases pairs.len() - k,
{
    if k < 0 || k >= pairs.len() {
        None
    } else if contains(content, pairs[k].0) && contains(content, pairs[k].1) {
        Some((
            "contradiction"@,
            "high"@,
            "内容中同时包含矛盾表述「"@ + pairs[k].0 + "」和「"@ + pairs[k].1 + "」"@,
            "请检查输出是否自相矛盾，并修正不一致的描述"@,
        ))
    } else {
        contradiction_from(content, pairs, k + 1)
    }
}

pub open spec fn pair_views(p: Seq<(String, String)>) -> Seq<(Seq<char>, Seq<char>)> {
    p.map_values(|x: (String, String)| (x.0@, x.1@))
}

/// How many of `entities` occur in `content`.
pub open spec fn covered_count(content: Seq<char>, entities: Seq<Seq<char>>) -> nat
    decreases entities.len(),
{
    if entities.len() == 0 {
        0
    } else {
        covered_count(content, entities.drop_last()) + if contains(content, entities.last()) {
            1nat
        } else {
            0nat
        }
    }
}

/// `num / den` as a whole percentage, rounded half up.
///
/// The rounding is of the exact quotient.  Computed in `f64`, a quotient
/// whose exact percentage ends in one half can come out just below it (29 of
/// 200 gives 14.499..., which rounds to 14 where this gives 15); the library
/// keeps no floating-point values, so such ties round as exact halves do.
pub open spec fn percent(num: nat, den: nat) -> nat {
    if den == 0 {
        0
    } else {
        (200 * num + den) / (2 * den)
    }
}

/// The coverage issue: when some entities are given and the share the
/// content mentions is below the minimum.
pub open spec fn coverage_issue(content: Seq<char>, entities: Seq<Seq<char>>, min_permille: nat) -> Option<IssueView> {
    let n = entities.len();
    let c = covered_count(content, entities);
    if n == 0 || c * 1000 >= min_permille * n {
        None
    } else {
        Some((
            "low_coverage"@,
            "medium"@,
            "关键信息覆盖度 "@ + decimal(percent(c, n)) + "%（"@ + decimal(c) + "/"@ + decimal(n) + "），低于阈值 "@
                + decimal((min_permille + 5) / 10) + "%"@,
            "输出可能遗漏了重要信息，请补充缺失的实体"@,
        ))
    }
}

/// The issues found, in check order.
pub open spec fn found(a: Option<IssueView>, b: Option<IssueView>) -> Seq<IssueView> {
    (if a is Some { seq![a->0] } else { Seq::empty() }) + (if b is Some { seq![b->0] } else { Seq::empty() })
}

/// The confidence after review: unchanged when nothing was found, else
/// scaled by `tenths`/10, rounded down.
pub open spec fn reviewed_confidence(c: u32, issues: nat, tenths: nat) -> nat {
    if issues == 0 {
        c as nat
    } else {
        (c as nat * tenths) / 10
    }
}

/// `r` is the review by `name` that found `issues` in an output of
/// confidence `c`, scaling confidence by `tenths` when it found any.
pub open spec fn review_is(r: ReviewResult, name: Seq<char>, issues: Seq<IssueView>, c: u32, tenths: nat) -> bool {
    &&& issue_views(r.issues@) == issues
    &&& verdict_is(r.verdict, issues)
    &&& r.reviewer@ == name
    &&& r.confidence_permille == reviewed_confidence(c, issues.len(), tenths)
}

fn issue_of(t: &str, sev: &str, desc: String, sugg: &str) -> (r: Issue)
    ensures
        issue_view(r) == (t@, sev@, desc@, sugg@),
{
    Issue {
        issue_type: String::from_str(t),
        severity: String::from_str(sev),
        description: desc,
        suggestion: String::from_str(sugg),
    }
}

fn scaled(c: u32, tenths: u32) -> (r: u32)
    requires
        tenths <= 10,
    ensures
        r == (c as nat * tenths as nat) / 10,
{
    assert(c as u64 * tenths as u64 <= 10 * 0xffff_ffffu64) by (nonlinear_arith)
        requires
            tenths <= 10,
            c <= 0xffff_ffffu32,
    ;
    let x: u64 = (c as u64 * tenths as u64) / 10;
    assert(x <= c) by (nonlinear_arith)
        requires
            x == (c as u64 * tenths as u64) / 10,
            tenths <= 10,
    ;
    x as u32
}

fn result_of(issues: Vec<Issue>, name: &str, c: u32, tenths: u32) -> (r: ReviewResult)
    requires
        tenths <= 10,
    ensures
        review_is(r, name@, issue_views(issues@), c, tenths as nat),
{
    let verdict = verdict_for(&issues);
    let confidence_permille = if issues.len() == 0 {
        c
    } else {
        scaled(c, tenths)
    };
    ReviewResult { verdict, issues, reviewer: String::from_str(name), confidence_permille }
}

pub(crate) fn push_found(issues: &mut Vec<Issue>, found: Option<Issue>)
    ensures
        issue_views(final(issues)@) == issue_views(old(issues)@) + match found {
            Some(i) => seq![issue_view(i)],
            None => Seq::<IssueView>::empty(),
        },
{
    match found {
        Some(i) => {
            let ghost before = issues@;
            let ghost iv = issue_view(i);
            issues.push(i);
            assert(issue_views(issues@) =~= issue_views(before) + seq![iv]);
        },
        None => {
            assert(issue_views(issues@) =~= issue_views(issues@) + Seq::<IssueView>::empty());
        },
    }
}

pub open spec fn opt_issue_view(o: Option<Issue>) -> Option<IssueView> {
    match o {
        Some(i) => Some(issue_view(i)),
        None => None,
    }
}

impl SmallModelReview {
    /// A minimum coverage of one half, and the pairs 已批准/已拒绝,
    /// 已完成/未完成 and 增加/减少.
    pub fn new() -> (r: Self)
        ensures
            r.min_coverage_permille == 500,
            pair_views(r.contradiction_pairs@) == seq![
                ("已批准"@, "已拒绝"@),
                ("已完成"@, "未完成"@),
                ("增加"@, "减少"@),
            ],
    {
        let mut pairs: Vec<(String, String)> = Vec::new();
        pairs.push((String::from_str("已批准"), String::from_str("已拒绝")));
        pairs.push((String::from_str("已完成"), String::from_str("未完成")));
        pairs.push((String::from_str("增加"), String::from_str("减少")));
        let r = SmallModelReview { min_coverage_permille: 500, contradiction_pairs: pairs };
        assert(pair_views(r.contradiction_pairs@) =~= seq![
            ("已批准"@, "已拒绝"@),
            ("已完成"@, "未完成"@),
            ("增加"@, "减少"@),
        ]);
        r
    }

    /// The same review with another minimum coverage, clamped to 0..=1000.
    pub fn with_min_coverage(self, coverage_permille: u32) -> (r: Self)
        ensures
            r.min_coverage_permille == if coverage_permille > 1000 { 1000 } else { coverage_permille },
            r.contradiction_pairs@ == self.contradiction_pairs@,
    {
        let mut s = self;
        s.min_coverage_permille = if coverage_permille > 1000 { 1000 } else { coverage_permille };
        s
    }

    fn check_contradiction(&self, content: &str) -> (r: Option<Issue>)
        ensures
            opt_issue_view(r) == contradiction_from(content@, pair_views(self.contradiction_pairs@), 0),
    {
        let v = crate::text::chars_of(content);
        let ghost pv = pair_views(self.contradiction_pairs@);
        let mut k: usize = 0;
        while k < self.contradiction_pairs.len()
            invariant
                k <= self.contradiction_pairs@.len(),
                v@ == content@,
                pv == pair_views(self.contradiction_pairs@),
                contradiction_from(content@, pv, 0) == contradiction_from(content@, pv, k as int),
            decreases self.contradiction_pairs.len() - k,
        {
            let (a, b) = &self.contradiction_pairs[k];
            if crate::text::contains_str(v.as_slice(), a.as_str()) && crate::text::contains_str(v.as_slice(), b.as_str()) {
                let mut desc = String::from_str("内容中同时包含矛盾表述「");
                crate::text::append_str(&mut desc, a.as_str());
                crate::text::append_str(&mut desc, "」和「");
                crate::text::append_str(&mut desc, b.as_str());
                crate::text::append_str(&mut desc, "」");
                return Some(issue_of("contradiction", "high", desc, "请检查输出是否自相矛盾，并修正不一致的描述"));
            }
            k = k + 1;
        }
        None
    }

    fn check_coverage(&self, output: &ProcessorOutput) -> (r: Option<Issue>)
        ensures
            opt_issue_view(r) == coverage_issue(output.content@, string_views(output.entities@), self.min_coverage_permille as nat),
    {
        let n = output.entities.len();
        if n == 0 {
            return None;
        }
        let v = crate::text::chars_of(output.content.as_str());
        let ghost es = string_views(output.entities@);
        let mut covered: usize = 0;
        let mut i: usize = 0;
        assert(es.subrange(0, 0) =~= Seq::<Seq<char>>::empty());
        while i < n
            invariant
                n == output.entities@.len(),
                i <= n,
                v@ == output.content@,
                es == string_views(output.entities@),
                covered == covered_count(output.content@, es.subrange(0, i as int)),
                covered <= i,
            decreases n - i,
        {
            assert(es.subrange(0, i + 1).drop_last() =~= es.subrange(0, i as int));
            if crate::text::contains_str(v.as_slice(), output.entities[i].as_str()) {
                covered = covered + 1;
            }
            i = i + 1;
        }
        assert(es.subrange(0, n as int) =~= es);
        let min = self.min_coverage_permille as u128;
        assert((covered as u128) * 1000 <= 1000 * 0xffff_ffff_ffff_ffffu128) by (nonlinear_arith)
            requires
                covered <= 0xffff_ffff_ffff_ffffu128,
        ;
        assert(min * (n as u128) <= 0xffff_ffffu128 * 0xffff_ffff_ffff_ffffu128) by (nonlinear_arith)
            requires
                min <= 0xffff_ffffu128,
                n <= 0xffff_ffff_ffff_ffffu128,
        ;
        if (covered as u128) * 1000 >= min * (n as u128) {
            None
        } else {
            let p: u128 = (200 * covered as u128 + n as u128) / (2 * n as u128);
            assert(p <= 100) by (nonlinear_arith)
                requires
                    p == (200 * covered as u128 + n as u128) / (2 * n as u128),
                    covered <= n,
                    n > 0,
            ;
            let pct: u64 = p as u64;
            let mut desc = String::from_str("关键信息覆盖度 ");
            crate::text::push_decimal(&mut desc, pct);
            crate::text::append_str(&mut desc, "%（");
            crate::text::push_decimal(&mut desc, covered as u64);
            crate::text::append_str(&mut desc, "/");
            crate::text::push_decimal(&mut desc, n as u64);
            crate::text::append_str(&mut desc, "），低于阈值 ");
            crate::text::push_decimal(&mut desc, ((min + 5) / 10) as u64);
            crate::text::append_str(&mut desc, "%");
            Some(issue_of("low_coverage", "medium", desc, "输出可能遗漏了重要信息，请补充缺失的实体"))
        }
    }
}

impl Default for SmallModelReview {
    fn default() -> (r: Self)
        ensures
            r.min_coverage_permille == 500,
    {
        SmallModelReview::new()
    }
}

impl ReviewModel for SmallModelReview {
    fn reviewer_name(&self) -> (r: &str)
        ensures
            r@ == "small_model"@,
    {
        "small_model"
    }

    /// Contradiction check, then coverage check; confidence scaled by 0.7
    /// when anything was found.
    fn review(&self, output: &ProcessorOutput) -> (r: ReviewResult)
        ensures
            review_is(
                r,
                "small_model"@,
                found(
                    contradiction_from(output.content@, pair_views(self.contradiction_pairs@), 0),
                    coverage_issue(output.content@, string_views(output.entities@), self.min_coverage_permille as nat),
                ),
                output.confidence_permille,
                7,
            ),
    {
        let mut issues: Vec<Issue> = Vec::new();
        let a = self.check_contradiction(output.content.as_str());
        push_found(&mut issues, a);
        let b = self.check_coverage(output);
        push_found(&mut issues, b);
        let ghost fa = opt_issue_view(a);
        let ghost fb = opt_issue_view(b);
        assert(issue_views(issues@) =~= found(fa, fb));
        result_of(issues, "small_model", output.confidence_permille, 7)
    }
}

/// The deep review: analysis length and coverage of analysis dimensions.
pub struct LargeModelReview {
    /// The least content length, in bytes, of a deep enough analysis.
    pub min_depth_length: usize,
    /// Dimensions of which an analysis must touch at least one.
    pub analysis_dimensions: Vec<String>,
}

/// The depth issue: when the content is shorter than `min` bytes.
pub open spec fn depth_issue(content: Seq<char>, min: nat) -> Option<IssueView> {
    if utf8_len(content) < min {
        Some((
            "shallow_analysis"@,
            "medium"@,
            "分析内容过短（"@ + decimal(utf8_len(content) as nat) + " 字符，最少 "@ + decimal(min) + "），可能不够深入"@,
            "请补充更详细的分析内容"@,
        ))
    } else {
        None
    }
}

/// The dimension issue: when dimensions are given and none occurs.
pub open spec fn dimensions_issue(content: Seq<char>, dims: Seq<Seq<char>>) -> Option<IssueView> {
    if dims.len() > 0 && covered_count(content, dims) == 0 {
        Some((
            "missing_dimensions"@,
            "high"@,
            "分析未覆盖任何标准维度（原因/影响/建议/结论/背景）"@,
            "请确保分析至少覆盖一个关键维度"@,
        ))
    } else {
        None
    }
}

impl LargeModelReview {
    /// A minimum depth of 50 bytes, and the dimensions 原因, 影响, 建议,
    /// 结论, 背景.
    pub fn new() -> (r: Self)
        ensures
            r.min_depth_length == 50,
            string_views(r.analysis_dimensions@) == seq!["原因"@, "影响"@, "建议"@, "结论"@, "背景"@],
    {
        let mut dims: Vec<String> = Vec::new();
        dims.push(String::from_str("原因"));
        dims.push(String::from_str("影响"));
        dims.push(String::from_str("建议"));
        dims.push(String::from_str("结论"));
        dims.push(String::from_str("背景"));
        let r = LargeModelReview { min_depth_length: 50, analysis_dimensions: dims };
        assert(string_views(r.analysis_dimensions@) =~= seq!["原因"@, "影响"@, "建议"@, "结论"@, "背景"@]);
        r
    }

    /// The same review with another minimum depth.
    pub fn with_min_depth_length(self, length: usize) -> (r: Self)
        ensures
            r.min_depth_length == length,
            r.analysis_dimensions@ == self.analysis_dimensions@,
    {
        let mut s = self;
        s.min_depth_length = length;
        s
    }

    fn check_depth(&self, output: &ProcessorOutput) -> (r: Option<Issue>)
        ensures
            opt_issue_view(r) == depth_issue(output.content@, self.min_depth_length as nat),
    {
        let len = output.content.as_str().len();
        if len < self.min_depth_length {
            let mut desc = String::from_str("分析内容过短（");
            crate::text::push_decimal(&mut desc, len as u64);
            crate::text::append_str(&mut desc, " 字符，最少 ");
            crate::text::push_decimal(&mut desc, self.min_depth_length as u64);
            crate::text::append_str(&mut desc, "），可能不够深入");
            Some(issue_of("shallow_analysis", "medium", desc, "请补充更详细的分析内容"))
        } else {
            None
        }
    }

    fn check_dimensions(&self, output: &ProcessorOutput) -> (r: Option<Issue>)
        ensures
            opt_issue_view(r) == dimensions_issue(output.content@, string_views(self.analysis_dimensions@)),
    {
        let n = self.analysis_dimensions.len();
        if n == 0 {
            return None;
        }
        let v = crate::text::chars_of(output.content.as_str());
        let ghost ds = string_views(self.analysis_dimensions@);
        let mut covered: usize = 0;
        let mut i: usize = 0;
        assert(ds.subrange(0, 0) =~= Seq::<Seq<char>>::empty());
        while i < n
            invariant
                n == self.analysis_dimensions@.len(),
                i <= n,
                v@ == output.content@,
                ds == string_views(self.analysis_dimensions@),
                covered == covered_count(output.content@, ds.subrange(0, i as int)),
                covered <= i,
            decreases n - i,
        {
            assert(ds.subrange(0, i + 1).drop_last() =~= ds.subrange(0, i as int));
            if crate::text::contains_str(v.as_slice(), self.analysis_dimensions[i].as_str()) {
                covered = covered + 1;
            }
            i = i + 1;
        }
        assert(ds.subrange(0, n as int) =~= ds);
        if covered == 0 {
            Some(issue_of(
                "missing_dimensions",
                "high",
                String::from_str("分析未覆盖任何标准维度（原因/影响/建议/结论/背景）"),
                "请确保分析至少覆盖一个关键维度",
            ))
        } else {
            None
        }
    }
}

impl Default for LargeModelReview {
    fn default() -> (r: Self)
        ensures
            r.min_depth_length == 50,
    {
        LargeModelReview::new()
    }
}

impl ReviewModel for LargeModelReview {
    fn reviewer_name(&self) -> (r: &str)
        ensures
            r@ == "large_model"@,
    {
        "large_model"
    }

    /// Depth check, then dimension check; confidence scaled by 0.6 when
    /// anything was found.
    fn review(&self, output: &ProcessorOutput) -> (r: ReviewResult)
        ensures
            review_is(
                r,
                "large_model"@,
                found(
                    depth_issue(output.content@, self.min_depth_length as nat),
                    dimensions_issue(output.content@, string_views(self.analysis_dimensions@)),
                ),
                output.confidence_permille,
                6,
            ),
    {
        let mut issues: Vec<Issue> = Vec::new();
        let a = self.check_depth(output);
        push_found(&mut issues, a);
        let b = self.check_dimensions(output);
        push_found(&mut issues, b);
        let ghost fa = opt_issue_view(a);
        let ghost fb = opt_issue_view(b);
        assert(issue_views(issues@) =~= found(fa, fb));
        result_of(issues, "large_model", output.confidence_permille, 6)
    }
}

/// Picks the review by output type: the light one for summaries and
/// extractions, the deep one for analyses and reports.
pub struct TieredReview {
    small_reviewer: SmallModelReview,
    large_reviewer: LargeModelReview,
}

/// Whether output of type `t` goes to the light review.
pub open spec fn goes_to_small(t: OutputType) -> bool {
    t == OutputType::Summary || t == OutputType::Extraction
}

impl TieredReview {
    pub closed spec fn small(self) -> SmallModelReview {
        self.small_reviewer
    }

    pub closed spec fn large(self) -> LargeModelReview {
        self.large_reviewer
    }

    pub fn new(small_reviewer: SmallModelReview, large_reviewer: LargeModelReview) -> (r: Self)
        ensures
            r.small() == small_reviewer,
            r.large() == large_reviewer,
    {
        TieredReview { small_reviewer, large_reviewer }
    }

    /// The light review.
    pub fn small_reviewer(&self) -> (r: &SmallModelReview)
        ensures
            *r == self.small(),
    {
        &self.small_reviewer
    }

    /// Both reviews with their default settings.
    pub fn default_config() -> (r: Self)
        ensures
            r.small().min_coverage_permille == 500,
            r.large().min_depth_length == 50,
    {
        TieredReview { small_reviewer: SmallModelReview::new(), large_reviewer: LargeModelReview::new() }
    }

    /// Reviews `output` with the review its type calls for.
    pub fn review(&self, output: &ProcessorOutput) -> (r: ReviewResult)
        ensures
            goes_to_small(output.output_type) ==> review_is(
                r,
                "small_model"@,
                found(
                    contradiction_from(output.content@, pair_views(self.small().contradiction_pairs@), 0),
                    coverage_issue(output.content@, string_views(output.entities@), self.small().min_coverage_permille as nat),
                ),
                output.confidence_permille,
                7,
            ),
            !goes_to_small(output.output_type) ==> review_is(
                r,
                "large_model"@,
                found(
                    depth_issue(output.content@, self.large().min_depth_length as nat),
                    dimensions_issue(output.content@, string_views(self.large().analysis_dimensions@)),
                ),
                output.confidence_permille,
                6,
            ),
    {
        match output.output_type {
            OutputType::Summary | OutputType::Extraction => self.small_reviewer.review(output),
            OutputType::Analysis | OutputType::Report => self.large_reviewer.review(output),
        }
    }
}

/// Who can see the data a push touches.
#[derive(PartialEq, Eq, Structural, Clone, Copy, Debug)]
pub enum DataScope {
    /// Visible to the user alone: no confirmation needed.
    Private,
    /// Shared data: needs confirmation.
    Shared,
    /// An outside system: needs confirmation.
    External,
}

/// A push waiting for the user's confirmation.
#[derive(Debug, Clone)]
pub struct ConfirmRequest {
    pub id: String,
    pub content: String,
    pub reason: String,
    pub data_scope: DataScope,
    pub created_at: String,
}

impl Keyed for ConfirmRequest {
    open spec fn key(&self) -> Seq<char> {
        self.id@
    }

    fn key_str(&self) -> (r: &str) {
        self.id.as_str()
    }
}

/// Whether data of scope `s` needs the user's confirmation.
pub open spec fn needs_confirm(s: DataScope) -> bool {
    s == DataScope::Shared || s == DataScope::External
}

/// The pushes awaiting confirmation.  Private data passes at once; shared
/// and external data waits for the user.
pub struct UserConfirmPush {
    pending: KeyedStore<ConfirmRequest>,
}

impl UserConfirmPush {
    /// The requests waiting, by id.
    pub closed spec fn view(self) -> Map<Seq<char>, ConfirmRequest> {
        self.pending.view()
    }

    /// Finitely many requests wait.
    pub proof fn lemma_pending_finite(self)
        ensures
            self@.dom().finite(),
    {
        self.pending.lemma_view_finite();
    }

    pub fn new() -> (r: Self)
        ensures
            r@ == Map::<Seq<char>, ConfirmRequest>::empty(),
    {
        UserConfirmPush { pending: KeyedStore::new() }
    }

    /// Whether data of scope `data_scope` needs confirmation.
    pub fn should_confirm(&self, data_scope: &DataScope) -> (r: bool)
        ensures
            r == needs_confirm(*data_scope),
    {
        match data_scope {
            DataScope::Shared | DataScope::External => true,
            DataScope::Private => false,
        }
    }

    /// Submits a push: private data passes at once and is not queued; a
    /// request whose id already waits is refused; otherwise it waits.
    pub fn push(&mut self, request: ConfirmRequest) -> (r: Result<(), WbError>)
        ensures
            old(self)@.dom().finite(),
            final(self)@.dom().finite(),
            needs_confirm(request.data_scope) && !old(self)@.contains_key(request.id@) ==> final(self)@.dom().len()
                == old(self)@.dom().len() + 1,
            !needs_confirm(request.data_scope) ==> r is Ok && final(self)@ == old(self)@,
            needs_confirm(request.data_scope) && old(self)@.contains_key(request.id@) ==> (r matches Err(e)
                && e is Ai && e.message() == "确认请求 "@ + request.id@ + " 已存在"@) && final(self)@ == old(self)@,
            needs_confirm(request.data_scope) && !old(self)@.contains_key(request.id@) ==> r is Ok
                && final(self)@ == old(self)@.insert(request.id@, request),
    {
        proof { self.pending.lemma_view_finite(); }
        if !self.should_confirm(&request.data_scope) {
            return Ok(());
        }
        if self.pending.contains_key(request.id.as_str()) {
            let mut m = String::from_str("确认请求 ");
            crate::text::append_str(&mut m, request.id.as_str());
            crate::text::append_str(&mut m, " 已存在");
            return Err(WbError::ai(m));
        }
        self.pending.insert(request);
        Ok(())
    }

    fn not_found(id: &str) -> (e: WbError)
        ensures
            e is NotFound && e.message() == "确认请求 "@ + id@ + " 不存在"@,
    {
        let mut m = String::from_str("确认请求 ");
        crate::text::append_str(&mut m, id);
        crate::text::append_str(&mut m, " 不存在");
        WbError::NotFound(m)
    }

    /// Confirms request `id`: it stops waiting.
    pub fn confirm(&mut self, id: &str) -> (r: Result<(), WbError>)
        ensures
            old(self)@.dom().finite(),
            final(self)@.dom().finite(),
            r is Ok ==> final(self)@.dom().len() == old(self)@.dom().len() - 1,
            r is Ok == old(self)@.contains_key(id@),
            r matches Err(e) ==> e is NotFound && e.message() == "确认请求 "@ + id@ + " 不存在"@,
            final(self)@ == old(self)@.remove(id@),
    {
        proof { self.pending.lemma_view_finite(); }
        match self.pending.remove(id) {
            Some(_) => Ok(()),
            None => Err(Self::not_found(id)),
        }
    }

    /// Rejects request `id`: it stops waiting.
    pub fn reject(&mut self, id: &str) -> (r: Result<(), WbError>)
        ensures
            old(self)@.dom().finite(),
            final(self)@.dom().finite(),
            r is Ok ==> final(self)@.dom().len() == old(self)@.dom().len() - 1,
            r is Ok == old(self)@.contains_key(id@),
            r matches Err(e) ==> e is NotFound && e.message() == "确认请求 "@ + id@ + " 不存在"@,
            final(self)@ == old(self)@.remove(id@),
    {
        proof { self.pending.lemma_view_finite(); }
        match self.pending.remove(id) {
            Some(_) => Ok(()),
            None => Err(Self::not_found(id)),
        }
    }

    /// Every request waiting, each once.
    pub fn pending(&self) -> (r: Vec<&ConfirmRequest>)
        ensures
            self@.dom().finite(),
            r@.len() == self@.dom().len(),
            forall|i: int| 0 <= i < r@.len() ==> self@.contains_key(r@[i].id@) && self@[r@[i].id@] == *r@[i],
            forall|k: Seq<char>| #[trigger] self@.contains_key(k) ==> exists|i: int| 0 <= i < r@.len() && r@[i].id@ == k,
    {
        proof { self.pending.lemma_view_finite(); }
        self.pending.values()
    }

    /// The number of requests waiting.
    pub fn pending_count(&self) -> (r: usize)
        ensures
            self@.dom().finite(),
            r == self@.dom().len(),
    {
        proof { self.pending.lemma_view_finite(); }
        self.pending.len()
    }
}

impl Default for UserConfirmPush {
    fn default() -> (r: Self)
        ensures
            r@ == Map::<Seq<char>, ConfirmRequest>::empty(),
    {
        UserConfirmPush::new()
    }
}

} // verus!
