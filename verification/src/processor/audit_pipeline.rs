//! End-to-end audit: the processing audit records of every step, queried
//! by trace, step, confidence, time and review verdict.
use vstd::prelude::*;
use crate::processor::record::ReviewVerdict;
use crate::text::{lemma_lex_lt_total, lemma_lex_lt_transitive, lex_lt};

verus! {

/// A processing step that leaves an audit record.
#[derive(PartialEq, Eq, Structural, Clone, Copy, Debug)]
pub enum AuditStep {
    Classifier,
    Extract,
    Upgrade,
    Review,
    UserConfirm,
    Persist,
}

/// The audit record of one processing step.
#[derive(Debug, Clone)]
pub struct ProcessingAudit {
    pub event_id: String,
    pub record_id: Option<String>,
    /// Links the records of one item's way through the pipeline.
    pub trace_id: String,
    pub step: AuditStep,
    /// When the step ran, in milliseconds since the Unix epoch.
    pub timestamp_ms: i64,
    pub duration_ms: u64,
    pub model: String,
    pub model_version: String,
    pub prompt_id: String,
    /// The prompt's parameters, as JSON text.
    pub prompt_params: String,
    pub input_summary: String,
    /// The step's output, as JSON text.
    pub output: String,
    /// The step's confidence, in thousandths.
    pub confidence_permille: u32,
    pub token_input: u64,
    pub token_output: u64,
    /// The estimated cost, in millionths of the currency unit.
    pub cost_estimate_micros: u64,
    pub upgrade_reason: Option<String>,
    pub previous_model: Option<String>,
    pub review_verdict: Option<ReviewVerdict>,
    pub review_issues: Option<Vec<String>>,
    pub user_action: Option<String>,
    pub user_correction: Option<String>,
}

/// What a query keeps; a field left `None` keeps everything.
#[derive(Debug, Clone)]
pub struct AuditFilter {
    pub step: Option<AuditStep>,
    pub trace_id: Option<String>,
    /// The least confidence kept, in thousandths.
    pub min_confidence_permille: Option<u32>,
    /// The earliest instant kept, in milliseconds since the Unix epoch.
    pub after_ms: Option<i64>,
    pub has_review_verdict: Option<ReviewVerdict>,
}

impl Default for AuditFilter {
    fn default() -> (r: Self)
        ensures
            r.step is None && r.trace_id is None && r.min_confidence_permille is None && r.after_ms is None
                && r.has_review_verdict is None,
    {
        AuditFilter { step: None, trace_id: None, min_confidence_permille: None, after_ms: None, has_review_verdict: None }
    }
}

/// Two verdicts are equal: the same variant with the same reasons.
pub open spec fn same_verdict(a: ReviewVerdict, b: ReviewVerdict) -> bool {
    match (a, b) {
        (ReviewVerdict::Approved, ReviewVerdict::Approved) => true,
        (ReviewVerdict::NeedsReview(x), ReviewVerdict::NeedsReview(y)) => x@ == y@,
        (ReviewVerdict::NeedsFix(x), ReviewVerdict::NeedsFix(y)) => x@ == y@,
        _ => false,
    }
}

/// The record passes every condition the filter sets.
pub open spec fn passes(r: ProcessingAudit, f: AuditFilter) -> bool {
    &&& (f.step matches Some(s) ==> r.step == s)
    &&& (f.trace_id matches Some(t) ==> r.trace_id@ == t@)
    &&& (f.min_confidence_permille matches Some(m) ==> r.confidence_permille >= m)
    &&& (f.after_ms matches Some(a) ==> r.timestamp_ms >= a)
    &&& (f.has_review_verdict matches Some(v) ==> (r.review_verdict matches Some(rv) && same_verdict(rv, v)))
}

/// The records passing the filter, in order.
pub open spec fn filtered(rs: Seq<ProcessingAudit>, f: AuditFilter) -> Seq<ProcessingAudit>
    decreases rs.len(),
{
    if rs.len() == 0 {
        Seq::empty()
    } else {
        let before = filtered(rs.drop_last(), f);
        if passes(rs.last(), f) { before.push(rs.last()) } else { before }
    }
}

/// The records of trace `t`, in order.
pub open spec fn of_trace(rs: Seq<ProcessingAudit>, t: Seq<char>) -> Seq<ProcessingAudit>
    decreases rs.len(),
{
    if rs.len() == 0 {
        Seq::empty()
    } else {
        let before = of_trace(rs.drop_last(), t);
        if rs.last().trace_id@ == t { before.push(rs.last()) } else { before }
    }
}

/// The records behind references.
pub open spec fn audit_derefs(v: Seq<&ProcessingAudit>) -> Seq<ProcessingAudit> {
    v.map_values(|r: &ProcessingAudit| *r)
}

/// The step a step name stands for; an unknown name stands for the
/// classifier.
pub open spec fn step_named(name: Seq<char>) -> AuditStep {
    if name == "Classifier"@ {
        AuditStep::Classifier
    } else if name == "Extract"@ {
        AuditStep::Extract
    } else if name == "Upgrade"@ {
        AuditStep::Upgrade
    } else if name == "Review"@ {
        AuditStep::Review
    } else if name == "UserConfirm"@ {
        AuditStep::UserConfirm
    } else if name == "Persist"@ {
        AuditStep::Persist
    } else {
        AuditStep::Classifier
    }
}

/// The sequence is strictly increasing in `lex_lt`.
pub open spec fn strictly_sorted(v: Seq<Seq<char>>) -> bool {
    forall|i: int, j: int| 0 <= i < j < v.len() ==> lex_lt(#[trigger] v[i], #[trigger] v[j])
}

/// The trace ids of the records.
pub open spec fn trace_ids(rs: Seq<ProcessingAudit>) -> Set<Seq<char>> {
    Set::new(|t: Seq<char>| exists|i: int| 0 <= i < rs.len() && #[trigger] rs[i].trace_id@ == t)
}

/// The audit trail, in the order the records were added.
pub struct AuditPipeline {
    records: Vec<ProcessingAudit>,
}

impl View for AuditPipeline {
    type V = Seq<ProcessingAudit>;

    closed spec fn view(&self) -> Seq<ProcessingAudit> {
        self.records@
    }
}

fn step_of_name(step: &str) -> (r: AuditStep)
    ensures
        r == step_named(step@),
{
    if crate::text::str_eq(step, "Classifier") {
        AuditStep::Classifier
    } else if crate::text::str_eq(step, "Extract") {
        AuditStep::Extract
    } else if crate::text::str_eq(step, "Upgrade") {
        AuditStep::Upgrade
    } else if crate::text::str_eq(step, "Review") {
        AuditStep::Review
    } else if crate::text::str_eq(step, "UserConfirm") {
        AuditStep::UserConfirm
    } else if crate::text::str_eq(step, "Persist") {
        AuditStep::Persist
    } else {
        AuditStep::Classifier
    }
}

/// Whether two verdicts are equal (see `same_verdict`).
fn verdict_eq(a: &ReviewVerdict, b: &ReviewVerdict) -> (r: bool)
    ensures
        r == same_verdict(*a, *b),
{
    match (a, b) {
        (ReviewVerdict::Approved, ReviewVerdict::Approved) => true,
        (ReviewVerdict::NeedsReview(x), ReviewVerdict::NeedsReview(y)) => crate::text::str_eq(x.as_str(), y.as_str()),
        (ReviewVerdict::NeedsFix(x), ReviewVerdict::NeedsFix(y)) => crate::text::str_eq(x.as_str(), y.as_str()),
        _ => false,
    }
}

/// Whether the record passes the filter (see `passes`).
fn passes_filter(r: &ProcessingAudit, f: &AuditFilter) -> (b: bool)
    ensures
        b == passes(*r, *f),
{
    if let Some(s) = &f.step {
        if r.step != *s {
            return false;
        }
    }
    if let Some(t) = &f.trace_id {
        if !crate::text::str_eq(r.trace_id.as_str(), t.as_str()) {
            return false;
        }
    }
    if let Some(m) = f.min_confidence_permille {
        if r.confidence_permille < m {
            return false;
        }
    }
    if let Some(a) = f.after_ms {
        if r.timestamp_ms < a {
            return false;
        }
    }
    if let Some(v) = &f.has_review_verdict {
        match &r.review_verdict {
            Some(rv) => {
                if !verdict_eq(rv, v) {
                    return false;
                }
            },
            None => {
                return false;
            },
        }
    }
    true
}

impl AuditPipeline {
    /// An empty trail.
    pub fn new() -> (r: Self)
        ensures
            r@ == Seq::<ProcessingAudit>::empty(),
    {
        AuditPipeline { records: Vec::new() }
    }

    /// Appends a record of step `step` (by name; an unknown name records the
    /// classifier) for `trace_id`, with `details` as its input summary, the
    /// current time, and every other field empty or zero.
    pub fn record(&mut self, step: &str, trace_id: &str, details: String)
        ensures
            final(self)@.len() == old(self)@.len() + 1,
            final(self)@.take(old(self)@.len() as int) == old(self)@,
            ({
                let a = final(self)@.last();
                &&& a.step == step_named(step@)
                &&& a.trace_id@ == trace_id@
                &&& a.input_summary@ == details@
                &&& a.event_id@.len() == 0
                &&& a.record_id is None
                &&& a.duration_ms == 0
                &&& a.model@.len() == 0
                &&& a.model_version@.len() == 0
                &&& a.prompt_id@.len() == 0
                &&& a.prompt_params@ == "null"@
                &&& a.output@ == "null"@
                &&& a.confidence_permille == 0
                &&& a.token_input == 0
                &&& a.token_output == 0
                &&& a.cost_estimate_micros == 0
                &&& a.upgrade_reason is None
                &&& a.previous_model is None
                &&& a.review_verdict is None
                &&& a.review_issues is None
                &&& a.user_action is None
                &&& a.user_correction is None
            }),
    {
        let audit = ProcessingAudit {
            event_id: String::new(),
            record_id: None,
            trace_id: String::from_str(trace_id),
            step: step_of_name(step),
            timestamp_ms: crate::clock::now_millis(),
            duration_ms: 0,
            model: String::new(),
            model_version: String::new(),
            prompt_id: String::new(),
            prompt_params: String::from_str("null"),
            input_summary: details,
            output: String::from_str("null"),
            confidence_permille: 0,
            token_input: 0,
            token_output: 0,
            cost_estimate_micros: 0,
            upgrade_reason: None,
            previous_model: None,
            review_verdict: None,
            review_issues: None,
            user_action: None,
            user_correction: None,
        };
        self.records.push(audit);
        assert(self@.take(old(self)@.len() as int) =~= old(self)@);
    }

    /// Appends a complete record.
    pub fn push(&mut self, audit: ProcessingAudit)
        ensures
            final(self)@ == old(self)@.push(audit),
    {
        self.records.push(audit);
    }

    /// The records of trace `trace_id`, in order.
    pub fn trace(&self, trace_id: &str) -> (r: Vec<&ProcessingAudit>)
        ensures
            audit_derefs(r@) == of_trace(self@, trace_id@),
    {
        let mut out: Vec<&ProcessingAudit> = Vec::new();
        let mut i: usize = 0;
        while i < self.records.len()
            invariant
                i <= self@.len(),
                audit_derefs(out@) == of_trace(self@.take(i as int), trace_id@),
            decreases self@.len() - i,
        {
            assert(self@.take(i + 1).drop_last() =~= self@.take(i as int));
            let r = &self.records[i];
            if crate::text::str_eq(r.trace_id.as_str(), trace_id) {
                let ghost before = out@;
                out.push(r);
                assert(audit_derefs(out@) =~= audit_derefs(before).push(*r));
            }
            i = i + 1;
        }
        assert(self@.take(self@.len() as int) =~= self@);
        out
    }

    /// The records passing `filter`, in order.
    pub fn query(&self, filter: AuditFilter) -> (r: Vec<&ProcessingAudit>)
        ensures
            audit_derefs(r@) == filtered(self@, filter),
    {
        let mut out: Vec<&ProcessingAudit> = Vec::new();
        let mut i: usize = 0;
        while i < self.records.len()
            invariant
                i <= self@.len(),
                audit_derefs(out@) == filtered(self@.take(i as int), filter),
            decreases self@.len() - i,
        {
            assert(self@.take(i + 1).drop_last() =~= self@.take(i as int));
            let r = &self.records[i];
            if passes_filter(r, &filter) {
                let ghost before = out@;
                out.push(r);
                assert(audit_derefs(out@) =~= audit_derefs(before).push(*r));
            }
            i = i + 1;
        }
        assert(self@.take(self@.len() as int) =~= self@);
        out
    }

    /// All records, in order.
    pub fn all(&self) -> (r: &[ProcessingAudit])
        ensures
            r@ == self@,
    {
        self.records.as_slice()
    }

    /// The number of records.
    pub fn len(&self) -> (r: usize)
        ensures
            r == self@.len(),
    {
        self.records.len()
    }

    /// Whether there are no records.
    pub fn is_empty(&self) -> (r: bool)
        ensures
            r == (self@.len() == 0),
    {
        self.records.len() == 0
    }

    /// The number of records of trace `trace_id`.
    pub fn trace_count(&self, trace_id: &str) -> (r: usize)
        ensures
            r == of_trace(self@, trace_id@).len(),
    {
        self.trace(trace_id).len()
    }

    /// The distinct trace ids, in ascending order.
    pub fn unique_traces(&self) -> (r: Vec<String>)
        ensures
            strictly_sorted(r@.map_values(|s: String| s@)),
            r@.map_values(|s: String| s@).to_set() == trace_ids(self@),
    {
        let mut ids: Vec<String> = Vec::new();
        let mut i: usize = 0;
        while i < self.records.len()
            invariant
                i <= self@.len(),
                strictly_sorted(ids@.map_values(|s: String| s@)),
                ids@.map_values(|s: String| s@).to_set() == trace_ids(self@.take(i as int)),
            decreases self@.len() - i,
        {
            let ghost before = ids@.map_values(|s: String| s@);
            insert_sorted(&mut ids, self.records[i].trace_id.as_str());
            proof {
                let t = self@[i as int].trace_id@;
                assert(trace_ids(self@.take(i + 1)) =~= trace_ids(self@.take(i as int)).insert(t)) by {
                    assert forall|x: Seq<char>| trace_ids(self@.take(i + 1)).contains(x) implies trace_ids(
                        self@.take(i as int),
                    ).insert(t).contains(x) by {
                        let k = choose|k: int| 0 <= k < i + 1 && #[trigger] self@.take(i + 1)[k].trace_id@ == x;
                        if k < i {
                            assert(self@.take(i as int)[k] == self@.take(i + 1)[k]);
                        }
                    }
                    assert forall|x: Seq<char>| trace_ids(self@.take(i as int)).insert(t).contains(x) implies trace_ids(
                        self@.take(i + 1),
                    ).contains(x) by {
                        if x == t {
                            assert(self@.take(i + 1)[i as int].trace_id@ == x);
                        } else {
                            let k = choose|k: int| 0 <= k < i && #[trigger] self@.take(i as int)[k].trace_id@ == x;
                            assert(self@.take(i + 1)[k] == self@.take(i as int)[k]);
                        }
                    }
                }
            }
            i = i + 1;
        }
        assert(self@.take(self@.len() as int) =~= self@);
        ids
    }
}

impl Default for AuditPipeline {
    fn default() -> (r: Self)
        ensures
            r@ == Seq::<ProcessingAudit>::empty(),
    {
        AuditPipeline::new()
    }
}

/// Inserts `s` into the strictly sorted `v` unless it is there already.
fn insert_sorted(v: &mut Vec<String>, s: &str)
    requires
        strictly_sorted(old(v)@.map_values(|x: String| x@)),
    ensures
        strictly_sorted(final(v)@.map_values(|x: String| x@)),
        final(v)@.map_values(|x: String| x@).to_set() == old(v)@.map_values(|x: String| x@).to_set().insert(s@),
{
    let ghost old_views = v@.map_values(|x: String| x@);
    let mut i: usize = 0;
    while i < v.len() && crate::text::str_lt(v[i].as_str(), s)
        invariant
            i <= v@.len(),
            v@.map_values(|x: String| x@) == old_views,
            strictly_sorted(old_views),
            forall|j: int| 0 <= j < i ==> lex_lt(#[trigger] old_views[j], s@),
        decreases v@.len() - i,
    {
        i = i + 1;
    }
    if i < v.len() && crate::text::str_eq(v[i].as_str(), s) {
        assert(old_views.to_set().insert(s@) =~= old_views.to_set()) by {
            assert(old_views[i as int] == s@);
        }
        return;
    }
    proof {
        if i < old_views.len() {
            lemma_lex_lt_total(old_views[i as int], s@);
        }
    }
    v.insert(i, String::from_str(s));
    proof {
        let nv = v@.map_values(|x: String| x@);
        assert(nv =~= old_views.insert(i as int, s@));
        assert forall|a: int, b: int| 0 <= a < b < nv.len() implies lex_lt(#[trigger] nv[a], #[trigger] nv[b]) by {
            if b < i {
                assert(nv[a] == old_views[a] && nv[b] == old_views[b]);
            } else if b == i {
                assert(nv[a] == old_views[a]);
            } else if a == i {
                assert(nv[b] == old_views[b - 1]);
                if b - 1 > i {
                    assert(lex_lt(old_views[i as int], old_views[b - 1]));
                    lemma_lex_lt_transitive(s@, old_views[i as int], old_views[b - 1]);
                }
            } else if a < i {
                assert(nv[a] == old_views[a] && nv[b] == old_views[b - 1]);
            } else {
                assert(nv[a] == old_views[a - 1] && nv[b] == old_views[b - 1]);
            }
        }
        assert(nv.to_set() =~= old_views.to_set().insert(s@)) by {
            assert forall|x: Seq<char>| nv.to_set().contains(x) implies old_views.to_set().insert(s@).contains(x) by {
                let k = choose|k: int| 0 <= k < nv.len() && nv[k] == x;
                if k < i {
                    assert(old_views[k] == x);
                } else if k > i {
                    assert(old_views[k - 1] == x);
                }
            }
            assert forall|x: Seq<char>| old_views.to_set().insert(s@).contains(x) implies nv.to_set().contains(x) by {
                if x == s@ {
                    assert(nv[i as int] == x);
                } else {
                    let k = choose|k: int| 0 <= k < old_views.len() && old_views[k] == x;
                    if k < i {
                        assert(nv[k] == x);
                    } else {
                        assert(nv[k + 1] == x);
                    }
                }
            }
        }
    }
}

/// A query whose filter sets only a trace id keeps exactly the records
/// `trace` gives for that id.
pub proof fn law_trace_is_query_by_trace(rs: Seq<ProcessingAudit>, f: AuditFilter)
    requires
        f.step is None,
        f.trace_id is Some,
        f.min_confidence_permille is None,
        f.after_ms is None,
        f.has_review_verdict is None,
    ensures
        filtered(rs, f) == of_trace(rs, f.trace_id->0@),
    decreases rs.len(),
{
    if rs.len() > 0 {
        law_trace_is_query_by_trace(rs.drop_last(), f);
    }
}

/// A query whose filter sets nothing keeps every record, in order.
pub proof fn law_empty_filter_keeps_all(rs: Seq<ProcessingAudit>, f: AuditFilter)
    requires
        f.step is None,
        f.trace_id is None,
        f.min_confidence_permille is None,
        f.after_ms is None,
        f.has_review_verdict is None,
    ensures
        filtered(rs, f) == rs,
    decreases rs.len(),
{
    if rs.len() > 0 {
        law_empty_filter_keeps_all(rs.drop_last(), f);
        assert(rs.drop_last().push(rs.last()) =~= rs);
    }
}

/// Every record a query keeps passes the filter, and a query keeps no more
/// records than there are.
pub proof fn law_query_sound(rs: Seq<ProcessingAudit>, f: AuditFilter)
    ensures
        filtered(rs, f).len() <= rs.len(),
        forall|i: int| 0 <= i < filtered(rs, f).len() ==> passes(#[trigger] filtered(rs, f)[i], f),
    decreases rs.len(),
{
    if rs.len() > 0 {
        law_query_sound(rs.drop_last(), f);
        let before = filtered(rs.drop_last(), f);
        assert forall|i: int| 0 <= i < filtered(rs, f).len() implies passes(#[trigger] filtered(rs, f)[i], f) by {
            if i < before.len() {
                assert(filtered(rs, f)[i] == before[i]);
            }
        }
    }
}

} // verus!
