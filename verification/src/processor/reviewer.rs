//! The review agent: a chain of rules over every work record, a light model
//! review for records that concern other people or are reviews and
//! documents, and a deep review for long or widely shared records.
use vstd::prelude::*;
use crate::processor::record::{Category, Issue, ReviewResult, ReviewVerdict, WorkRecord};
use crate::processor::review::{
    push_found, contradiction_from, coverage_issue, depth_issue, dimensions_issue, found, issue_views, pair_views,
    reviewed_confidence, verdict_is, ConfirmRequest, DataScope, IssueView, LargeModelReview, OutputType,
    ProcessorOutput, ReviewModel, SmallModelReview, TieredReview, UserConfirmPush,
};
use crate::processor::review_rules::{
    CategoryConsistencyRule, ConfidenceThresholdRule, ContentLengthRule, RequiredFieldsRule, ReviewRule,
};
use crate::scheduler::dependency::{join_strings, join_with, string_views};

verus! {

/// The output the model reviews see of a record: a summary for reviews and
/// documents, an analysis otherwise; its detail, confidence, and its people
/// then its tags as entities.
pub open spec fn output_view(record: WorkRecord) -> (OutputType, Seq<char>, u32, Seq<Seq<char>>) {
    (
        if record.category == Category::Review || record.category == Category::Document {
            OutputType::Summary
        } else {
            OutputType::Analysis
        },
        record.detail@,
        record.confidence_permille,
        string_views(record.people@) + string_views(record.tags@),
    )
}

/// The issues the light review finds in a record's output.
pub open spec fn small_findings(s: SmallModelReview, record: WorkRecord) -> Seq<IssueView> {
    let (_, content, _, entities) = output_view(record);
    found(
        contradiction_from(content, pair_views(s.contradiction_pairs@), 0),
        coverage_issue(content, entities, s.min_coverage_permille as nat),
    )
}

/// The issues the deep review finds in a record's output.
pub open spec fn large_findings(l: LargeModelReview, record: WorkRecord) -> Seq<IssueView> {
    let content = record.detail@;
    found(depth_issue(content, l.min_depth_length as nat), dimensions_issue(content, string_views(l.analysis_dimensions@)))
}

/// The issues, the name of the model that judged and the confidence in
/// thousandths of a review result (the verdict follows from the issues).
pub type ReviewView = (Seq<IssueView>, Seq<char>, nat);

/// `r` is the review seen as `v`, with the verdict its issues call for.
pub open spec fn result_is(r: ReviewResult, v: ReviewView) -> bool {
    &&& issue_views(r.issues@) == v.0
    &&& verdict_is(r.verdict, v.0)
    &&& r.reviewer@ == v.1
    &&& r.confidence_permille == v.2
}

/// `r` is the agent's review of `record`: for a skipped record, approved by
/// `rule` at full confidence with no issue; otherwise the agent's final
/// review for the issues its added rules find (at most one each).
pub open spec fn reviewed_as(agent: ReviewAgent, record: WorkRecord, r: ReviewResult) -> bool {
    if skipped(record) {
        r.verdict == ReviewVerdict::Approved && r.issues@.len() == 0 && r.reviewer@ == "rule"@ && r.confidence_permille == 1000
    } else {
        exists|added: Seq<IssueView>|
            added.len() <= agent.rule_chain().len() && #[trigger] result_is(r, agent.final_review(record, added))
    }
}

/// The record is skipped: it has no source events and a confidence of at
/// least 0.9 (an archived record).
pub open spec fn skipped(record: WorkRecord) -> bool {
    record.source_event_ids@.len() == 0 && record.confidence_permille >= 900
}

/// The share of rules passed, in thousandths rounded down (all, with no
/// rules).
pub open spec fn pass_rate(rules: nat, failed: nat) -> nat {
    if rules == 0 {
        1000
    } else {
        ((rules - failed) as int * 1000 / rules as int) as nat
    }
}

/// The deep review runs: it is configured and the record's detail is
/// longer than 500 characters or it names at least three people.
pub open spec fn wants_large(large: Option<LargeModelReview>, record: WorkRecord) -> bool {
    large is Some && (record.detail@.len() > 500 || record.people@.len() >= 3)
}

/// The confirmation request for a record that concerns other people.
pub open spec fn people_request_is(q: ConfirmRequest, record: WorkRecord) -> bool {
    &&& q.id@ == "confirm-"@ + record.id@
    &&& q.content@ == record.title@
    &&& q.reason@ == "涉及人员："@ + join_with(string_views(record.people@), "、"@)
    &&& q.data_scope == DataScope::Shared
}

/// The issue found, as a sequence of at most one.
pub open spec fn opt_seq(o: Option<IssueView>) -> Seq<IssueView> {
    match o {
        Some(i) => seq![i],
        None => Seq::empty(),
    }
}

/// The issues the four standard rules find, in order: required fields,
/// confidence of at least 0.6, detail of at least 10 bytes, category
/// consistency.
pub open spec fn standard_findings(record: WorkRecord) -> Seq<IssueView> {
    opt_seq(RequiredFieldsRule.finds(record)) + opt_seq((ConfidenceThresholdRule { threshold_permille: 600 }).finds(record))
        + opt_seq((ContentLengthRule { min_length: 10 }).finds(record)) + opt_seq(CategoryConsistencyRule.finds(record))
}

/// The review agent: the four standard rules, then the rules added.
pub struct ReviewAgent {
    rules: Vec<Box<dyn ReviewRule>>,
    tiered_review: Option<TieredReview>,
    large_model_reviewer: Option<LargeModelReview>,
    user_push: UserConfirmPush,
}

impl ReviewAgent {
    /// The rules added after the standard ones.
    pub closed spec fn rule_chain(self) -> Seq<Box<dyn ReviewRule>> {
        self.rules@
    }

    pub closed spec fn tiered(self) -> Option<TieredReview> {
        self.tiered_review
    }

    pub closed spec fn large(self) -> Option<LargeModelReview> {
        self.large_model_reviewer
    }

    /// The confirmation requests waiting, by id.
    pub closed spec fn pushes(self) -> Map<Seq<char>, ConfirmRequest> {
        self.user_push@
    }

    /// The review of the record before any deep review, when the added
    /// rules find `added`.
    pub open spec fn base_review(self, record: WorkRecord, added: Seq<IssueView>) -> ReviewView {
        let rules = standard_findings(record) + added;
        let conf = record.confidence_permille;
        if self.tiered() is Some && (record.people@.len() > 0 || record.category == Category::Review
            || record.category == Category::Document) {
            let small = small_findings(self.tiered()->0.small(), record);
            (rules + small, "small_model"@, reviewed_confidence(conf, small.len(), 7))
        } else {
            (rules, "rule"@, pass_rate(4 + self.rule_chain().len(), rules.len()))
        }
    }

    /// The agent's review of the record (see `review`), when the added
    /// rules find `added`.
    pub open spec fn final_review(self, record: WorkRecord, added: Seq<IssueView>) -> ReviewView {
        let base = self.base_review(record, added);
        if wants_large(self.large(), record) {
            let large = large_findings(self.large()->0, record);
            let conf = reviewed_confidence(record.confidence_permille, large.len(), 6);
            if conf < 300 {
                base
            } else {
                (base.0 + large, "large_model"@, conf)
            }
        } else {
            base
        }
    }

    /// The agent with the four standard rules and no other, no model
    /// review and nothing waiting.
    pub fn new() -> (r: Self)
        ensures
            r.rule_chain().len() == 0,
            r.tiered() is None,
            r.large() is None,
            r.pushes() == Map::<Seq<char>, ConfirmRequest>::empty(),
    {
        ReviewAgent { rules: Vec::new(), tiered_review: None, large_model_reviewer: None, user_push: UserConfirmPush::new() }
    }

    /// The agent with `rule` appended to its rules.
    pub fn with_rule(self, rule: Box<dyn ReviewRule>) -> (r: Self)
        ensures
            r.rule_chain() == self.rule_chain().push(rule),
            r.tiered() == self.tiered(),
            r.large() == self.large(),
            r.pushes() == self.pushes(),
    {
        let mut s = self;
        s.rules.push(rule);
        s
    }

    /// The agent with the light and deep reviews of `tiered` for records
    /// that concern people, reviews and documents.
    pub fn with_tiered_review(self, tiered: TieredReview) -> (r: Self)
        ensures
            r.rule_chain() == self.rule_chain(),
            r.tiered() == Some(tiered),
            r.large() == self.large(),
            r.pushes() == self.pushes(),
    {
        let mut s = self;
        s.tiered_review = Some(tiered);
        s
    }

    /// The agent with a deep review for long or widely shared records.
    pub fn with_large_model_review(self, large: LargeModelReview) -> (r: Self)
        ensures
            r.rule_chain() == self.rule_chain(),
            r.tiered() == self.tiered(),
            r.large() == Some(large),
            r.pushes() == self.pushes(),
    {
        let mut s = self;
        s.large_model_reviewer = Some(large);
        s
    }

    /// The number of confirmation requests waiting.
    pub fn pending_confirm_count(&self) -> (r: usize)
        ensures
            r == self.pushes().dom().len(),
    {
        self.user_push.pending_count()
    }

    /// Whether the record is reviewed at all (see `skipped`).
    pub fn should_review(&self, record: &WorkRecord) -> (r: bool)
        ensures
            r == !skipped(*record),
    {
        !(record.source_event_ids.len() == 0 && record.confidence_permille >= 900)
    }

    /// The standard rules' issues, then those the added rules return.
    fn run_rules(&self, record: &WorkRecord) -> (r: Vec<Issue>)
        ensures
            issue_views(r@).take(standard_findings(*record).len() as int) == standard_findings(*record),
            standard_findings(*record).len() <= r@.len() <= standard_findings(*record).len() + self.rule_chain().len(),
    {
        let mut out: Vec<Issue> = Vec::new();
        push_found(&mut out, RequiredFieldsRule.check(record));
        push_found(&mut out, ConfidenceThresholdRule::default().check(record));
        push_found(&mut out, ContentLengthRule::default().check(record));
        push_found(&mut out, CategoryConsistencyRule.check(record));
        let ghost base = standard_findings(*record);
        assert(issue_views(out@) =~= base);
        let mut i: usize = 0;
        while i < self.rules.len()
            invariant
                i <= self.rules@.len(),
                base == standard_findings(*record),
                issue_views(out@).take(base.len() as int) == base,
                base.len() <= out@.len() <= base.len() + i,
            decreases self.rules@.len() - i,
        {
            let found = self.rules[i].check(record);
            let ghost before = issue_views(out@);
            push_found(&mut out, found);
            assert(issue_views(out@).take(base.len() as int) =~= before.take(base.len() as int));
            i = i + 1;
        }
        out
    }

    /// Reviews `record`: nothing for an archived record (approved, by
    /// `rule`, full confidence); otherwise the rules, with the light review
    /// for records concerning people or of category review or document when
    /// configured, then the deep review for long or widely shared records
    /// when configured, unless its confidence falls below 0.3.  A record
    /// concerning people whose verdict is not a fix leaves a confirmation
    /// request, unless one with its id is already waiting.  The rules added
    /// with `with_rule` are the caller's code with no contract: the result
    /// is stated exactly for whatever issues they return (at most one
    /// each), and nothing is stated of which they return.
    pub fn review(&mut self, record: &WorkRecord) -> (r: ReviewResult)
        ensures
            final(self).rule_chain() == old(self).rule_chain(),
            final(self).tiered() == old(self).tiered(),
            final(self).large() == old(self).large(),
            reviewed_as(*old(self), *record, r),
            skipped(*record) ==> r.verdict == ReviewVerdict::Approved && r.issues@.len() == 0 && r.reviewer@ == "rule"@
                && r.confidence_permille == 1000 && final(self).pushes() == old(self).pushes(),
            !skipped(*record) ==> exists|added: Seq<IssueView>|
                added.len() <= old(self).rule_chain().len() && #[trigger] result_is(r, old(self).final_review(*record, added)),
            !skipped(*record) ==> {
                if record.people@.len() > 0 && !(r.verdict is NeedsFix) && !old(self).pushes().contains_key(
                    "confirm-"@ + record.id@,
                ) {
                    &&& final(self).pushes().contains_key("confirm-"@ + record.id@)
                    &&& people_request_is(final(self).pushes()["confirm-"@ + record.id@], *record)
                    &&& final(self).pushes() == old(self).pushes().insert(
                        "confirm-"@ + record.id@,
                        final(self).pushes()["confirm-"@ + record.id@],
                    )
                } else {
                    final(self).pushes() == old(self).pushes()
                }
            },
    {
        if !self.should_review(record) {
            return ReviewResult {
                verdict: ReviewVerdict::Approved,
                issues: Vec::new(),
                reviewer: String::from_str("rule"),
                confidence_permille: 1000,
            };
        }
        let rule_issues = self.run_rules(record);
        let ghost std_len = standard_findings(*record).len();
        let ghost added = issue_views(rule_issues@).skip(std_len as int);
        assert(issue_views(rule_issues@) =~= standard_findings(*record) + added);
        let involving_others = record.people.len() > 0;
        let is_review_or_doc = record.category == Category::Review || record.category == Category::Document;
        let base = if involving_others && self.tiered_review.is_some() {
            self.review_with_small_model_direct(record, rule_issues)
        } else if is_review_or_doc && self.tiered_review.is_some() {
            self.review_with_small_model(record, rule_issues)
        } else {
            self.review_with_rules_only(rule_issues)
        };
        let result = if self.needs_large_model_review(record) {
            self.review_with_large_model(record, base)
        } else {
            base
        };
        let is_fix = match &result.verdict {
            ReviewVerdict::NeedsFix(_) => true,
            _ => false,
        };
        if involving_others && !is_fix {
            self.create_people_confirm_request(record);
        }
        assert(result_is(result, old(self).final_review(*record, added)));
        result
    }

    fn needs_large_model_review(&self, record: &WorkRecord) -> (r: bool)
        ensures
            r == wants_large(self.large(), *record),
    {
        self.large_model_reviewer.is_some() && (record.detail.as_str().unicode_len() > 500 || record.people.len() >= 3)
    }

    /// Submits the confirmation request of a record concerning people; a
    /// request already waiting under its id is left as it is.
    fn create_people_confirm_request(&mut self, record: &WorkRecord)
        ensures
            final(self).rule_chain() == old(self).rule_chain(),
            final(self).tiered() == old(self).tiered(),
            final(self).large() == old(self).large(),
            !old(self).pushes().contains_key("confirm-"@ + record.id@) ==> {
                &&& final(self).pushes().contains_key("confirm-"@ + record.id@)
                &&& people_request_is(final(self).pushes()["confirm-"@ + record.id@], *record)
                &&& final(self).pushes() == old(self).pushes().insert(
                    "confirm-"@ + record.id@,
                    final(self).pushes()["confirm-"@ + record.id@],
                )
            },
            old(self).pushes().contains_key("confirm-"@ + record.id@) ==> final(self).pushes() == old(self).pushes(),
    {
        let people_str = join_strings(&record.people, "、");
        let mut id = String::from_str("confirm-");
        crate::text::append_str(&mut id, record.id.as_str());
        let mut reason = String::from_str("涉及人员：");
        crate::text::append_str(&mut reason, people_str.as_str());
        let request = ConfirmRequest {
            id,
            content: record.title.clone(),
            reason,
            data_scope: DataScope::Shared,
            created_at: crate::clock::now_rfc3339(),
        };
        let ghost q = request;
        let _ = self.user_push.push(request);
        proof {
            if !old(self).pushes().contains_key("confirm-"@ + record.id@) {
                assert(self.pushes()["confirm-"@ + record.id@] == q);
            }
        }
    }

    /// Adds the deep review to `base`; keeps `base` when the deep review's
    /// confidence is below 0.3.
    fn review_with_large_model(&self, record: &WorkRecord, base: ReviewResult) -> (r: ReviewResult)
        requires
            self.large() is Some,
        ensures
            ({
                let large = large_findings(self.large()->0, *record);
                let conf = reviewed_confidence(record.confidence_permille, large.len(), 6);
                if conf < 300 {
                    r == base
                } else {
                    result_is(r, (issue_views(base.issues@) + large, "large_model"@, conf))
                }
            }),
    {
        let large = self.large_model_reviewer.as_ref().unwrap();
        let output = work_record_to_processor_output(record);
        let large_result = large.review(&output);
        if large_result.confidence_permille < 300 {
            return base;
        }
        let mut all_issues = base.issues;
        let mut extra = large_result.issues;
        let ghost a = issue_views(all_issues@);
        let ghost b = issue_views(extra@);
        all_issues.append(&mut extra);
        assert(issue_views(all_issues@) =~= a + b);
        let verdict = crate::processor::review::verdict_for(&all_issues);
        ReviewResult {
            verdict,
            issues: all_issues,
            reviewer: String::from_str("large_model"),
            confidence_permille: large_result.confidence_permille,
        }
    }

    /// The rules alone: confidence is the share of rules passed.
    fn review_with_rules_only(&self, issues: Vec<Issue>) -> (r: ReviewResult)
        requires
            issues@.len() <= 4 + self.rule_chain().len(),
        ensures
            result_is(r, (issue_views(issues@), "rule"@, pass_rate(4 + self.rule_chain().len(), issues@.len()))),
    {
        let verdict = crate::processor::review::verdict_for(&issues);
        let n: u128 = 4 + self.rules.len() as u128;
        let passed: u128 = n - issues.len() as u128;
        let c: u128 = (passed * 1000) / n;
        assert(c as int <= 1000) by (nonlinear_arith)
            requires
                c as int == (passed as int * 1000) / (n as int),
                passed <= n,
                n > 0,
        ;
        let confidence_permille = c as u32;
        ReviewResult { verdict, issues, reviewer: String::from_str("rule"), confidence_permille }
    }

    /// The rules' issues with the light review's, for a record concerning
    /// people: the light review is used directly, whatever the output type.
    fn review_with_small_model_direct(&self, record: &WorkRecord, rule_issues: Vec<Issue>) -> (r: ReviewResult)
        requires
            self.tiered() is Some,
        ensures
            ({
                let small = small_findings(self.tiered()->0.small(), *record);
                result_is(
                    r,
                    (
                        issue_views(rule_issues@) + small,
                        "small_model"@,
                        reviewed_confidence(record.confidence_permille, small.len(), 7),
                    ),
                )
            }),
    {
        let tiered = self.tiered_review.as_ref().unwrap();
        let output = work_record_to_processor_output(record);
        let small_result = tiered.small_reviewer().review(&output);
        let mut all_issues = rule_issues;
        let mut extra = small_result.issues;
        let ghost a = issue_views(all_issues@);
        let ghost b = issue_views(extra@);
        all_issues.append(&mut extra);
        assert(issue_views(all_issues@) =~= a + b);
        let verdict = crate::processor::review::verdict_for(&all_issues);
        ReviewResult {
            verdict,
            issues: all_issues,
            reviewer: String::from_str("small_model"),
            confidence_permille: small_result.confidence_permille,
        }
    }
    /// The rules' issues with those of the review `TieredReview` picks, for
    /// a review or document record (whose output is a summary, so the light
    /// review).
    fn review_with_small_model(&self, record: &WorkRecord, rule_issues: Vec<Issue>) -> (r: ReviewResult)
        requires
            self.tiered() is Some,
            record.category == Category::Review || record.category == Category::Document,
        ensures
            ({
                let small = small_findings(self.tiered()->0.small(), *record);
                result_is(
                    r,
                    (
                        issue_views(rule_issues@) + small,
                        "small_model"@,
                        reviewed_confidence(record.confidence_permille, small.len(), 7),
                    ),
                )
            }),
    {
        let tiered = self.tiered_review.as_ref().unwrap();
        let output = work_record_to_processor_output(record);
        let small_result = tiered.review(&output);
        let mut all_issues = rule_issues;
        let mut extra = small_result.issues;
        let ghost a = issue_views(all_issues@);
        let ghost b = issue_views(extra@);
        all_issues.append(&mut extra);
        assert(issue_views(all_issues@) =~= a + b);
        let verdict = crate::processor::review::verdict_for(&all_issues);
        ReviewResult {
            verdict,
            issues: all_issues,
            reviewer: String::from_str("small_model"),
            confidence_permille: small_result.confidence_permille,
        }
    }
}

/// The output the model reviews see of a record (see `output_view`).
pub fn work_record_to_processor_output(record: &WorkRecord) -> (r: ProcessorOutput)
    ensures
        (r.output_type, r.content@, r.confidence_permille, string_views(r.entities@)) == output_view(*record),
{
    let output_type = match record.category {
        Category::Review | Category::Document => OutputType::Summary,
        _ => OutputType::Analysis,
    };
    let mut entities = crate::processor::task::model::copy_strings(&record.people);
    let mut tags = crate::processor::task::model::copy_strings(&record.tags);
    entities.append(&mut tags);
    assert(string_views(entities@) =~= string_views(record.people@) + string_views(record.tags@));
    ProcessorOutput {
        output_type,
        content: record.detail.clone(),
        confidence_permille: record.confidence_permille,
        entities,
    }
}

/// The verdict the issues call for (see `verdict_is`).
pub fn determine_verdict(issues: &Vec<Issue>) -> (r: ReviewVerdict)
    ensures
        verdict_is(r, issue_views(issues@)),
{
    crate::processor::review::verdict_for(issues)
}

} // verus!
