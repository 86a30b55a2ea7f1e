//! Entity extraction: turning a model's extraction output into work-record
//! fields, and reading clock times out of Chinese and numeric text.
use vstd::prelude::*;
use crate::processor::event::Event;
use crate::processor::record::{Category, WorkRecord};
use crate::processor::task::model::{copy_strings, opt_view};
use crate::scheduler::dependency::string_views;
use crate::processor::due_date::{due_kind, parse_due_date_from_text, DueKind};
use crate::text::{contains, is_digit};

verus! {

/// What a model extracted from an event.
#[derive(Debug, Clone)]
pub struct Extraction {
    pub title: String,
    pub summary: String,
    pub detail: String,
    pub people: Vec<String>,
    pub tags: Vec<String>,
    pub project: Option<String>,
    pub due_date: Option<String>,
    /// In thousandths.
    pub confidence_permille: u32,
    pub is_status_update: bool,
    pub related_task_id: Option<String>,
}

/// The members of a JSON object that extraction reads, as found: a member
/// is `None` when absent or of another JSON type; array items that are not
/// strings are `None`.
#[derive(Debug, Clone)]
pub struct RawFields {
    pub title: Option<String>,
    pub summary: Option<String>,
    pub detail: Option<String>,
    pub people: Option<Vec<Option<String>>>,
    pub tags: Option<Vec<Option<String>>>,
    pub project: Option<String>,
    /// The `confidence` member, in thousandths.
    pub confidence_permille: Option<u32>,
    pub due_date: Option<String>,
}

/// The structured data extracted for a work record.
#[derive(Debug, Clone)]
pub struct ExtractedData {
    pub title: String,
    pub summary: String,
    pub detail: String,
    pub category: Category,
    pub project: Option<String>,
    pub people: Vec<String>,
    pub tags: Vec<String>,
    pub task_status: Option<String>,
    /// In thousandths.
    pub confidence_permille: u32,
    /// The due date as the model wrote it (such as `明天下午5点`).
    pub due_date: Option<String>,
}

/// The task status a category starts with: `in_progress` for tasks.
pub open spec fn initial_task_status(c: Category) -> Option<Seq<char>> {
    match c {
        Category::Task => Some("in_progress"@),
        _ => None,
    }
}

/// The strings among `items`, in order.
pub open spec fn strings_of(items: Seq<Option<String>>) -> Seq<Seq<char>>
    decreases items.len(),
{
    if items.len() == 0 {
        Seq::empty()
    } else {
        let r = strings_of(items.drop_last());
        match items.last() {
            Some(s) => r.push(s@),
            None => r,
        }
    }
}

/// The strings of an array member, or none.
pub open spec fn array_strings(a: Option<Vec<Option<String>>>) -> Seq<Seq<char>> {
    match a {
        Some(v) => strings_of(v@),
        None => Seq::empty(),
    }
}

/// A due date taken from raw JSON: kept unless empty or `null`.
pub open spec fn raw_due(d: Option<String>) -> Option<Seq<char>> {
    match d {
        Some(s) => if s@.len() > 0 && s@ != "null"@ {
            Some(s@)
        } else {
            None
        },
        None => None,
    }
}

/// `r` is the data of a well-formed model extraction `e` for `category`:
/// its fields as given, the category's initial task status.
pub open spec fn data_of_extraction(r: ExtractedData, e: Extraction, category: Category) -> bool {
    &&& r.title@ == e.title@
    &&& r.summary@ == e.summary@
    &&& r.detail@ == e.detail@
    &&& r.category == category
    &&& opt_view(r.project) == opt_view(e.project)
    &&& string_views(r.people@) == string_views(e.people@)
    &&& string_views(r.tags@) == string_views(e.tags@)
    &&& opt_view(r.task_status) == initial_task_status(category)
    &&& r.confidence_permille == e.confidence_permille
    &&& opt_view(r.due_date) == opt_view(e.due_date)
}

/// `r` is the data read from the raw JSON members `fields` of the text
/// `json`, with defaults: title `Untitled`, empty summary, the whole JSON
/// text as detail, no people, tags or project, confidence 0.5, and a due date
/// only when it is neither empty nor `null`.
pub open spec fn data_of_raw(r: ExtractedData, fields: RawFields, json: Seq<char>, category: Category) -> bool {
    &&& r.title@ == match fields.title { Some(t) => t@, None => "Untitled"@ }
    &&& r.summary@ == match fields.summary { Some(t) => t@, None => Seq::<char>::empty() }
    &&& r.detail@ == match fields.detail { Some(t) => t@, None => json }
    &&& r.category == category
    &&& opt_view(r.project) == opt_view(fields.project)
    &&& string_views(r.people@) == array_strings(fields.people)
    &&& string_views(r.tags@) == array_strings(fields.tags)
    &&& opt_view(r.task_status) == initial_task_status(category)
    &&& r.confidence_permille == match fields.confidence_permille { Some(c) => c, None => 500 }
    &&& opt_view(r.due_date) == raw_due(fields.due_date)
}

fn copy_opt(o: &Option<String>) -> (r: Option<String>)
    ensures
        opt_view(r) == opt_view(*o),
{
    match o {
        Some(s) => Some(s.clone()),
        None => None,
    }
}

fn collect_strings(items: &Option<Vec<Option<String>>>) -> (r: Vec<String>)
    ensures
        string_views(r@) == array_strings(*items),
{
    let mut out: Vec<String> = Vec::new();
    match items {
        None => {
            assert(string_views(out@) =~= Seq::<Seq<char>>::empty());
        },
        Some(v) => {
            let mut i: usize = 0;
            assert(v@.subrange(0, 0) =~= Seq::<Option<String>>::empty());
            assert(string_views(out@) =~= Seq::<Seq<char>>::empty());
            while i < v.len()
                invariant
                    i <= v@.len(),
                    string_views(out@) == strings_of(v@.subrange(0, i as int)),
                decreases v.len() - i,
            {
                assert(v@.subrange(0, i + 1).drop_last() =~= v@.subrange(0, i as int));
                match &v[i] {
                    Some(s) => {
                        let ghost before = out@;
                        out.push(s.clone());
                        assert(string_views(out@) =~= string_views(before).push(s@));
                    },
                    None => {},
                }
                i = i + 1;
            }
            assert(v@.subrange(0, v@.len() as int) =~= v@);
        },
    }
    out
}

/// The entity extractor.
pub struct EntityExtractor;

impl EntityExtractor {
    /// The task status a record of `category` starts with.
    pub fn infer_task_status(category: &Category) -> (r: Option<String>)
        ensures
            opt_view(r) == initial_task_status(*category),
    {
        match category {
            Category::Task => Some(String::from_str("in_progress")),
            _ => None,
        }
    }

    /// The data of a well-formed model extraction: its fields as given,
    /// the category's initial task status.
    pub fn from_extraction(extraction: &Extraction, category: &Category) -> (r: ExtractedData)
        ensures
            data_of_extraction(r, *extraction, *category),
    {
        ExtractedData {
            title: extraction.title.clone(),
            summary: extraction.summary.clone(),
            detail: extraction.detail.clone(),
            category: *category,
            project: copy_opt(&extraction.project),
            people: copy_strings(&extraction.people),
            tags: copy_strings(&extraction.tags),
            task_status: Self::infer_task_status(category),
            confidence_permille: extraction.confidence_permille,
            due_date: copy_opt(&extraction.due_date),
        }
    }

    /// The data read from raw JSON members, with defaults: title
    /// `Untitled`, empty summary, the whole JSON text as detail, no people,
    /// tags or project, confidence 0.5, and a due date only when it is neither
    /// empty nor `null`.
    pub fn from_raw_fields(fields: &RawFields, json_str: &str, category: &Category) -> (r: ExtractedData)
        ensures
            data_of_raw(r, *fields, json_str@, *category),
    {
        let title = match &fields.title {
            Some(t) => t.clone(),
            None => String::from_str("Untitled"),
        };
        let summary = match &fields.summary {
            Some(t) => t.clone(),
            None => String::new(),
        };
        let detail = match &fields.detail {
            Some(t) => t.clone(),
            None => String::from_str(json_str),
        };
        let due_date = match &fields.due_date {
            Some(d) => {
                if d.unicode_len() > 0 && !crate::text::str_eq(d.as_str(), "null") {
                    Some(d.clone())
                } else {
                    None
                }
            },
            None => None,
        };
        ExtractedData {
            title,
            summary,
            detail,
            category: *category,
            project: copy_opt(&fields.project),
            people: collect_strings(&fields.people),
            tags: collect_strings(&fields.tags),
            task_status: Self::infer_task_status(category),
            confidence_permille: match fields.confidence_permille {
                Some(c) => c,
                None => 500,
            },
            due_date,
        }
    }

    /// The data of a model's output: from the extraction when the output
    /// parsed as one, else from its raw JSON members.
    pub fn extract(parsed: Option<&Extraction>, raw: &RawFields, model_output: &str, category: &Category) -> (r: ExtractedData)
        ensures
            match parsed {
                Some(e) => data_of_extraction(r, *e, *category),
                None => data_of_raw(r, *raw, model_output@, *category),
            },
    {
        match parsed {
            Some(e) => Self::from_extraction(e, category),
            None => Self::from_raw_fields(raw, model_output, category),
        }
    }

    /// A new work record from extracted data and its event: a fresh id,
    /// created now, the due instant its due date text gives (see
    /// `parse_due_date_from_text`), and a review needed below a confidence
    /// of 0.8.
    pub fn to_work_record(data: &ExtractedData, event: &Event, model_used: &str) -> (r: WorkRecord)
        ensures
            Self::record_from(r, *data, *event, model_used@),
            r.obsidian_path@.len() == 0,
            data.due_date is None ==> r.task_due_ms is None,
            data.due_date matches Some(d) && due_kind(d@) is None ==> r.task_due_ms is None,
            data.due_date matches Some(d) && (due_kind(d@) matches Some(DueKind::Iso(_, _, _))) ==> r.task_due_ms is Some,
    {
        let due = match &data.due_date {
            Some(d) => parse_due_date_from_text(d.as_str()),
            None => None,
        };
        Self::to_work_record_with_due(data, event, model_used, due)
    }

    /// The record `to_work_record` makes, but for its due instant.
    pub open spec fn record_from(r: WorkRecord, data: ExtractedData, event: Event, model_used: Seq<char>) -> bool {
        &&& r.id@.len() == 36
        &&& string_views(r.source_event_ids@) == seq![event.id@]
        &&& r.title@ == data.title@
        &&& r.summary@ == data.summary@
        &&& r.detail@ == data.detail@
        &&& r.category == data.category
        &&& opt_view(r.project) == opt_view(data.project)
        &&& string_views(r.people@) == string_views(data.people@)
        &&& string_views(r.tags@) == string_views(data.tags@)
        &&& opt_view(r.task_status) == opt_view(data.task_status)
        &&& r.task_priority is None
        &&& r.task_progress is None
        &&& r.model_used@ == model_used
        &&& r.confidence_permille == data.confidence_permille
        &&& r.needs_review == (data.confidence_permille < 800)
    }

    /// The record `to_work_record` makes, with the due instant given.
    pub fn to_work_record_with_due(data: &ExtractedData, event: &Event, model_used: &str, task_due_ms: Option<i64>) -> (r: WorkRecord)
        ensures
            r.id@.len() == 36,
            string_views(r.source_event_ids@) == seq![event.id@],
            r.title@ == data.title@,
            r.summary@ == data.summary@,
            r.detail@ == data.detail@,
            r.category == data.category,
            opt_view(r.project) == opt_view(data.project),
            string_views(r.people@) == string_views(data.people@),
            string_views(r.tags@) == string_views(data.tags@),
            opt_view(r.task_status) == opt_view(data.task_status),
            r.task_due_ms == task_due_ms,
            r.task_priority is None,
            r.task_progress is None,
            r.model_used@ == model_used@,
            r.confidence_permille == data.confidence_permille,
            r.needs_review == (data.confidence_permille < 800),
            r.obsidian_path@.len() == 0,
    {
        let mut ids: Vec<String> = Vec::new();
        ids.push(event.id.clone());
        assert(string_views(ids@) =~= seq![event.id@]);
        WorkRecord {
            id: crate::clock::new_uuid(),
            created_at_ms: crate::clock::now_millis(),
            source_event_ids: ids,
            title: data.title.clone(),
            summary: data.summary.clone(),
            detail: data.detail.clone(),
            category: data.category,
            project: copy_opt(&data.project),
            people: copy_strings(&data.people),
            tags: copy_strings(&data.tags),
            task_status: copy_opt(&data.task_status),
            task_due_ms,
            task_priority: None,
            task_progress: None,
            model_used: String::from_str(model_used),
            confidence_permille: data.confidence_permille,
            needs_review: data.confidence_permille < 800,
            obsidian_path: String::new(),
        }
    }
}

/// The numeric value of a digit character.
pub open spec fn digit_value(c: char) -> nat {
    ((c as u32) - ('0' as u32)) as nat
}

/// The two-digit number at `i` in `s`.
pub open spec fn two_digits(s: Seq<char>, i: int) -> nat {
    10 * digit_value(s[i]) + digit_value(s[i + 1])
}

/// An `HH:MM` pattern starts at `i` in `s`.
pub open spec fn hhmm_at(s: Seq<char>, i: int) -> bool {
    &&& 0 <= i && i + 5 <= s.len()
    &&& is_digit(s[i]) && is_digit(s[i + 1]) && s[i + 2] == ':' && is_digit(s[i + 3]) && is_digit(s[i + 4])
}

/// The first valid `HH:MM` (hour below 24, minute below 60) from `i` on.
pub open spec fn first_hhmm_from(s: Seq<char>, i: int) -> Option<(nat, nat)>
    decreases s.len() - i,
{
    if i < 0 || i + 5 > s.len() {
        None
    } else if hhmm_at(s, i) && two_digits(s, i) < 24 && two_digits(s, i + 3) < 60 {
        Some((two_digits(s, i), two_digits(s, i + 3)))
    } else {
        first_hhmm_from(s, i + 1)
    }
}

/// An hour read with `X点`: afternoon hours before noon move by twelve,
/// and 12 in the morning is midnight.
pub open spec fn adjust_hour(h: nat, afternoon: bool, morning: bool) -> nat {
    if afternoon && h < 12 {
        h + 12
    } else if morning && h == 12 {
        0
    } else {
        h
    }
}

/// The minutes written from `j` on, just after a `点`: two digits standing
/// alone making a number below 60 (as in `10点30分`), else one digit standing
/// alone (as in `3点5分`), else none (0).  A digit stands alone when the
/// text ends after it or goes on with anything but a digit.
pub open spec fn minutes_after(s: Seq<char>, j: int) -> nat {
    if 0 <= j && j + 1 < s.len() && is_digit(s[j]) && is_digit(s[j + 1]) && (j + 2 >= s.len() || !is_digit(s[j + 2]))
        && two_digits(s, j) < 60 {
        two_digits(s, j)
    } else if 0 <= j && j < s.len() && is_digit(s[j]) && (j + 1 >= s.len() || !is_digit(s[j + 1])) {
        digit_value(s[j])
    } else {
        0
    }
}

/// The first `X点` clock time from `i` on: a two-digit hour below 24 or a
/// one-digit hour, with the minutes written after `点` (see
/// `minutes_after`).
pub open spec fn clock_from(s: Seq<char>, i: int, afternoon: bool, morning: bool) -> Option<(nat, nat)>
    decreases s.len() - i,
{
    if i < 0 || i >= s.len() {
        None
    } else if i + 2 < s.len() && is_digit(s[i]) && is_digit(s[i + 1]) && s[i + 2] == '点' && two_digits(s, i) < 24 {
        Some((adjust_hour(two_digits(s, i), afternoon, morning), minutes_after(s, i + 3)))
    } else if is_digit(s[i]) && i + 1 < s.len() && s[i + 1] == '点' {
        Some((adjust_hour(digit_value(s[i]), afternoon, morning), minutes_after(s, i + 2)))
    } else {
        clock_from(s, i + 1, afternoon, morning)
    }
}

/// The clock time written in `s`, as (hour, minute): the first valid
/// `HH:MM`, else the first `X点` reading (see `clock_from`), with 下午 and
/// 上午 anywhere in the text shifting the hour.
pub open spec fn time_in_text(s: Seq<char>) -> Option<(nat, nat)> {
    match first_hhmm_from(s, 0) {
        Some(t) => Some(t),
        None => clock_from(s, 0, contains(s, "下午"@), contains(s, "上午"@)),
    }
}

fn digit_of(c: char) -> (r: u32)
    requires
        is_digit(c),
    ensures
        r == digit_value(c),
        r <= 9,
{
    (c as u32) - ('0' as u32)
}

fn is_digit_c(c: char) -> (r: bool)
    ensures
        r == is_digit(c),
{
    '0' <= c && c <= '9'
}

/// The minutes written in `v` from `j` on (see `minutes_after`).
fn minutes_at(v: &Vec<char>, j: usize) -> (r: u32)
    ensures
        r == minutes_after(v@, j as int),
        r < 60,
{
    let n = v.len();
    if j < n && n - j > 1 && is_digit_c(v[j]) && is_digit_c(v[j + 1]) && (n - j <= 2 || !is_digit_c(v[j + 2])) {
        let m = 10 * digit_of(v[j]) + digit_of(v[j + 1]);
        if m < 60 {
            return m;
        }
    }
    if j < n && is_digit_c(v[j]) && (n - j <= 1 || !is_digit_c(v[j + 1])) {
        digit_of(v[j])
    } else {
        0
    }
}

/// The clock time written in `text` (see `time_in_text`).
pub fn extract_time_from_text(text: &str) -> (r: Option<(u32, u32)>)
    ensures
        r matches Some((h, m)) ==> time_in_text(text@) == Some((h as nat, m as nat)),
        r is None ==> time_in_text(text@) is None,
        r matches Some((h, m)) ==> h < 24 && m < 60,
{
    let v = crate::text::chars_of(text);
    let n = v.len();
    let mut i: usize = 0;
    while n >= 5 && i <= n - 5
        invariant
            n == v@.len(),
            v@ == text@,
            first_hhmm_from(text@, 0) == first_hhmm_from(text@, i as int),
        decreases n - i,
    {
        if is_digit_c(v[i]) && is_digit_c(v[i + 1]) && v[i + 2] == ':' && is_digit_c(v[i + 3]) && is_digit_c(v[i + 4]) {
            let h = 10 * digit_of(v[i]) + digit_of(v[i + 1]);
            let m = 10 * digit_of(v[i + 3]) + digit_of(v[i + 4]);
            if h < 24 && m < 60 {
                return Some((h, m));
            }
        }
        i = i + 1;
    }
    let afternoon = crate::text::contains_str(v.as_slice(), "下午");
    let morning = crate::text::contains_str(v.as_slice(), "上午");
    let mut i: usize = 0;
    while i < n
        invariant
            n == v@.len(),
            v@ == text@,
            first_hhmm_from(text@, 0) is None,
            afternoon == contains(text@, "下午"@),
            morning == contains(text@, "上午"@),
            clock_from(text@, 0, afternoon, morning) == clock_from(text@, i as int, afternoon, morning),
        decreases n - i,
    {
        if n - i > 2 && is_digit_c(v[i]) && is_digit_c(v[i + 1]) && v[i + 2] == '点' {
            let h = 10 * digit_of(v[i]) + digit_of(v[i + 1]);
            if h < 24 {
                let hour = if afternoon && h < 12 {
                    h + 12
                } else if morning && h == 12 {
                    0
                } else {
                    h
                };
                return Some((hour, minutes_at(&v, i + 3)));
            }
        }
        if is_digit_c(v[i]) && n - i > 1 && v[i + 1] == '点' {
            let h = digit_of(v[i]);
            let hour = if afternoon && h < 12 {
                h + 12
            } else if morning && h == 12 {
                0
            } else {
                h
            };
            return Some((hour, minutes_at(&v, i + 2)));
        }
        i = i + 1;
    }
    None
}

} // verus!
