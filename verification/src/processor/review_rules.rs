//! Quality rules a review applies to a work record; each either passes the
//! record or reports one issue.
use vstd::prelude::*;
use crate::processor::record::{Category, Issue, WorkRecord};
use crate::processor::review::{opt_issue_view, IssueView};
use crate::scheduler::dependency::{join_strings, join_with, string_views};
use crate::text::{decimal, trim};
use vstd::utf8::encode_utf8;

verus! {

/// A review rule.
pub trait ReviewRule {
    /// The rule's name.
    fn name(&self) -> &str;

    /// `None` when the record passes, else the issue found.
    fn check(&self, record: &WorkRecord) -> Option<Issue>;
}

/// `i` is the issue with these type, severity, description and suggestion.
pub open spec fn issue_is(i: Issue, t: Seq<char>, sev: Seq<char>, desc: Seq<char>, sugg: Seq<char>) -> bool {
    i.issue_type@ == t && i.severity@ == sev && i.description@ == desc && i.suggestion@ == sugg
}

fn make_issue(t: &str, sev: &str, desc: String, sugg: String) -> (r: Issue)
    ensures
        issue_is(r, t@, sev@, desc@, sugg@),
{
    Issue { issue_type: String::from_str(t), severity: String::from_str(sev), description: desc, suggestion: sugg }
}

/// Title, summary and detail must each hold more than whitespace.
pub struct RequiredFieldsRule;

/// The names of the required fields that are blank, in field order.
pub open spec fn missing_fields(r: WorkRecord) -> Seq<Seq<char>> {
    (if trim(r.title@).len() == 0 { seq!["title"@] } else { Seq::empty() })
        + (if trim(r.summary@).len() == 0 { seq!["summary"@] } else { Seq::empty() })
        + (if trim(r.detail@).len() == 0 { seq!["detail"@] } else { Seq::empty() })
}

fn is_blank(s: &String) -> (r: bool)
    ensures
        r == (trim(s@).len() == 0),
{
    let v = crate::text::chars_of(s.as_str());
    let (a, b) = crate::text::trim_bounds(v.as_slice(), 0, v.len());
    assert(v@.subrange(0, v@.len() as int) =~= s@);
    a == b
}

impl RequiredFieldsRule {
    /// A `missing_field` issue of severity `critical` naming the blank
    /// fields, when there are any.
    pub open spec fn finds(&self, record: WorkRecord) -> Option<IssueView> {
        let m = missing_fields(record);
        if m.len() == 0 {
            None
        } else {
            Some((
                "missing_field"@,
                "critical"@,
                "Required fields are empty: "@ + join_with(m, ", "@),
                "Ensure the AI extraction populates: "@ + join_with(m, ", "@),
            ))
        }
    }
}

impl ReviewRule for RequiredFieldsRule {
    fn name(&self) -> (r: &str)
        ensures
            r@ == "required_fields"@,
    {
        "required_fields"
    }

    fn check(&self, record: &WorkRecord) -> (r: Option<Issue>)
        ensures
            opt_issue_view(r) == self.finds(*record),
    {
        let mut missing: Vec<String> = Vec::new();
        if is_blank(&record.title) {
            missing.push(String::from_str("title"));
        }
        if is_blank(&record.summary) {
            missing.push(String::from_str("summary"));
        }
        if is_blank(&record.detail) {
            missing.push(String::from_str("detail"));
        }
        assert(string_views(missing@) =~= missing_fields(*record));
        if missing.len() == 0 {
            None
        } else {
            let joined = join_strings(&missing, ", ");
            let mut desc = String::from_str("Required fields are empty: ");
            crate::text::append_str(&mut desc, joined.as_str());
            let mut sugg = String::from_str("Ensure the AI extraction populates: ");
            crate::text::append_str(&mut sugg, joined.as_str());
            Some(make_issue("missing_field", "critical", desc, sugg))
        }
    }
}

/// Records below a confidence threshold need a human look.
pub struct ConfidenceThresholdRule {
    /// The threshold, in thousandths; confidence below it triggers.
    pub threshold_permille: u32,
}

impl Default for ConfidenceThresholdRule {
    /// A threshold of 0.6.
    fn default() -> (r: Self)
        ensures
            r.threshold_permille == 600,
    {
        ConfidenceThresholdRule { threshold_permille: 600 }
    }
}

/// A confidence in thousandths written with two decimals (`0.90`), rounded
/// half up.
pub open spec fn two_decimals(permille: nat) -> Seq<char> {
    let h = (permille + 5) / 10;
    decimal(h / 100) + "."@ + (if h % 100 < 10 { "0"@ } else { Seq::empty() }) + decimal(h % 100)
}

fn two_decimals_string(permille: u32) -> (r: String)
    ensures
        r@ == two_decimals(permille as nat),
{
    let h: u64 = (permille as u64 + 5) / 10;
    let mut s = crate::text::decimal_string(h / 100);
    crate::text::append_str(&mut s, ".");
    if h % 100 < 10 {
        crate::text::append_str(&mut s, "0");
    }
    crate::text::push_decimal(&mut s, h % 100);
    s
}

impl ConfidenceThresholdRule {
    /// A `low_confidence` issue of severity `high` when the record's
    /// confidence is below the threshold.
    pub open spec fn finds(&self, record: WorkRecord) -> Option<IssueView> {
        if record.confidence_permille < self.threshold_permille {
            Some((
                "low_confidence"@,
                "high"@,
                "Confidence "@ + two_decimals(record.confidence_permille as nat) + " is below threshold "@
                    + two_decimals(self.threshold_permille as nat),
                "Consider re-processing with a larger model or manual review"@,
            ))
        } else {
            None
        }
    }
}

impl ReviewRule for ConfidenceThresholdRule {
    fn name(&self) -> (r: &str)
        ensures
            r@ == "confidence_threshold"@,
    {
        "confidence_threshold"
    }

    fn check(&self, record: &WorkRecord) -> (r: Option<Issue>)
        ensures
            opt_issue_view(r) == self.finds(*record),
    {
        if record.confidence_permille < self.threshold_permille {
            let mut desc = String::from_str("Confidence ");
            crate::text::append_str(&mut desc, two_decimals_string(record.confidence_permille).as_str());
            crate::text::append_str(&mut desc, " is below threshold ");
            crate::text::append_str(&mut desc, two_decimals_string(self.threshold_permille).as_str());
            Some(make_issue(
                "low_confidence",
                "high",
                desc,
                String::from_str("Consider re-processing with a larger model or manual review"),
            ))
        } else {
            None
        }
    }
}

/// The length of `s` in bytes, as `str::len` returns it: the length of its
/// UTF-8 encoding.
pub open spec fn utf8_len(s: Seq<char>) -> usize {
    encode_utf8(s).len() as usize
}

/// A detail shorter than a minimum (in bytes) suggests an incomplete
/// extraction.
pub struct ContentLengthRule {
    pub min_length: usize,
}

impl Default for ContentLengthRule {
    /// A minimum of 10 bytes.
    fn default() -> (r: Self)
        ensures
            r.min_length == 10,
    {
        ContentLengthRule { min_length: 10 }
    }
}

impl ContentLengthRule {
    /// A `format_error` issue of severity `medium` when the detail is
    /// shorter than the minimum.
    pub open spec fn finds(&self, record: WorkRecord) -> Option<IssueView> {
        if utf8_len(record.detail@) < self.min_length {
            Some((
                "format_error"@,
                "medium"@,
                "Detail content is too short ("@ + decimal(utf8_len(record.detail@) as nat) + " chars, minimum "@
                    + decimal(self.min_length as nat) + ")"@,
                "The AI extraction may have produced incomplete output"@,
            ))
        } else {
            None
        }
    }
}

impl ReviewRule for ContentLengthRule {
    fn name(&self) -> (r: &str)
        ensures
            r@ == "content_length"@,
    {
        "content_length"
    }

    fn check(&self, record: &WorkRecord) -> (r: Option<Issue>)
        ensures
            opt_issue_view(r) == self.finds(*record),
    {
        let len = record.detail.as_str().len();
        if len < self.min_length {
            let mut desc = String::from_str("Detail content is too short (");
            crate::text::push_decimal(&mut desc, len as u64);
            crate::text::append_str(&mut desc, " chars, minimum ");
            crate::text::push_decimal(&mut desc, self.min_length as u64);
            crate::text::append_str(&mut desc, ")");
            Some(make_issue(
                "format_error",
                "medium",
                desc,
                String::from_str("The AI extraction may have produced incomplete output"),
            ))
        } else {
            None
        }
    }
}

/// A category's name, as `Debug` prints it.
pub open spec fn category_name(c: Category) -> Seq<char> {
    match c {
        Category::Task => "Task"@,
        Category::Meeting => "Meeting"@,
        Category::Communication => "Communication"@,
        Category::Research => "Research"@,
        Category::Review => "Review"@,
        Category::Planning => "Planning"@,
        Category::Document => "Document"@,
        Category::Decision => "Decision"@,
    }
}

/// A category's name.
pub fn category_name_str(c: Category) -> (r: &'static str)
    ensures
        r@ == category_name(c),
{
    match c {
        Category::Task => "Task",
        Category::Meeting => "Meeting",
        Category::Communication => "Communication",
        Category::Research => "Research",
        Category::Review => "Review",
        Category::Planning => "Planning",
        Category::Document => "Document",
        Category::Decision => "Decision",
    }
}

/// Task records must carry a task status, and other records must not.
pub struct CategoryConsistencyRule;

impl CategoryConsistencyRule {
    /// An `invalid_state` issue: of severity `medium` for a task without a
    /// status, of severity `low` for a non-task with one.
    pub open spec fn finds(&self, record: WorkRecord) -> Option<IssueView> {
        if record.category == Category::Task && record.task_status is None {
            Some((
                "invalid_state"@,
                "medium"@,
                "Category is Task but task_status is missing"@,
                "Ensure task_status is set for task-type records"@,
            ))
        } else if record.category != Category::Task && record.task_status is Some {
            Some((
                "invalid_state"@,
                "low"@,
                "Category is "@ + category_name(record.category) + " but task_status is set"@,
                "Consider if category should be Task, or remove task_status"@,
            ))
        } else {
            None
        }
    }
}

impl ReviewRule for CategoryConsistencyRule {
    fn name(&self) -> (r: &str)
        ensures
            r@ == "category_consistency"@,
    {
        "category_consistency"
    }

    fn check(&self, record: &WorkRecord) -> (r: Option<Issue>)
        ensures
            opt_issue_view(r) == self.finds(*record),
    {
        let is_task = record.category == Category::Task;
        if is_task && record.task_status.is_none() {
            return Some(make_issue(
                "invalid_state",
                "medium",
                String::from_str("Category is Task but task_status is missing"),
                String::from_str("Ensure task_status is set for task-type records"),
            ));
        }
        if !is_task && record.task_status.is_some() {
            let mut desc = String::from_str("Category is ");
            crate::text::append_str(&mut desc, category_name_str(record.category));
            crate::text::append_str(&mut desc, " but task_status is set");
            return Some(make_issue(
                "invalid_state",
                "low",
                desc,
                String::from_str("Consider if category should be Task, or remove task_status"),
            ));
        }
        None
    }
}

} // verus!
