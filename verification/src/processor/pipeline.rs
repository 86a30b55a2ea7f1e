//! The decisions of the processing pipeline (classify → route → extract →
//! review → persist): which route an event finally takes, what is extracted
//! when the model is skipped or fails, how a discovered task marks a record,
//! and whether a reviewed record is persisted.
use vstd::prelude::*;
use crate::processor::classifier::{route_of, Classifier, ProcessingRoute};
use crate::processor::event::mention_text;
use crate::processor::extraction::{EntityExtractor, Extraction, RawFields};
use crate::processor::persist::PersistStep;
use crate::processor::record::ReviewResult;
use crate::processor::reviewer::{reviewed_as, ReviewAgent};
use crate::processor::task::discovery::TaskDiscovery;
use crate::processor::task::discovery_ai::{tasks_from_extraction, TaskContext};
use crate::text::contains;
use crate::processor::event::{content_text, content_title, Confidence, Event, EventContent, EventType};
use crate::processor::extraction::{initial_task_status, ExtractedData};
use crate::processor::record::{Category, ReviewVerdict, WorkRecord};
use crate::processor::task::model::{opt_view, TaskPriority};
use crate::text::str_eq;

verus! {

/// Time spent in each step, in milliseconds.
#[derive(Debug, Clone)]
pub struct StepTimings {
    pub classify_ms: u64,
    pub extract_ms: u64,
    pub review_ms: u64,
    pub persist_ms: u64,
}

impl Default for StepTimings {
    fn default() -> (r: Self)
        ensures
            r.classify_ms == 0 && r.extract_ms == 0 && r.review_ms == 0 && r.persist_ms == 0,
    {
        StepTimings { classify_ms: 0, extract_ms: 0, review_ms: 0, persist_ms: 0 }
    }
}

/// The route a model's category label calls for.
pub open spec fn label_route(category: Seq<char>) -> ProcessingRoute {
    if category == "task"@ || category == "approval"@ || category == "manual_note"@ || category == "meeting"@
        || category == "calendar"@ || category == "email"@ {
        ProcessingRoute::Instant
    } else if category == "okr"@ {
        ProcessingRoute::Pattern
    } else {
        ProcessingRoute::Aggregate
    }
}

/// The route a model's category label calls for: instant for tasks,
/// approvals, manual notes, meetings, calendar events and mail; pattern
/// analysis for OKRs; aggregation for everything else.
pub fn category_to_route(category: &str) -> (r: ProcessingRoute)
    ensures
        r == label_route(category@),
{

    if str_eq(category, "task") || str_eq(category, "approval") || str_eq(category, "manual_note")
        || str_eq(category, "meeting") || str_eq(category, "calendar") || str_eq(category, "email") {
        ProcessingRoute::Instant
    } else if str_eq(category, "okr") {
        ProcessingRoute::Pattern
    } else {
        ProcessingRoute::Aggregate
    }
}

/// The route an event finally takes: an archived event stays archived;
/// otherwise the model's category decides when the model classified it,
/// and the rules' route stands when it did not.
pub fn final_route(rule_route: ProcessingRoute, model_category: Option<&str>) -> (r: ProcessingRoute)
    ensures
        rule_route == ProcessingRoute::Archive ==> r == ProcessingRoute::Archive,
        rule_route != ProcessingRoute::Archive ==> r == match model_category {
            Some(c) => label_route(c@),
            None => rule_route,
        },
{
    if rule_route == ProcessingRoute::Archive {
        return rule_route;
    }
    match model_category {
        Some(c) => category_to_route(c),
        None => rule_route,
    }
}

/// The category of record an event of type `t` makes.
pub open spec fn category_of_event(t: EventType) -> Category {
    match t {
        EventType::TaskUpdate => Category::Task,
        EventType::Meeting | EventType::CalendarEvent => Category::Meeting,
        EventType::Message | EventType::Email => Category::Communication,
        EventType::DocumentChange | EventType::ManualNote => Category::Document,
        EventType::Approval => Category::Decision,
        EventType::OkrUpdate | EventType::Browsing => Category::Planning,
        EventType::AppActivity => Category::Research,
    }
}

/// The category of record `event` makes (see `category_of_event`).
pub fn map_event_to_category(event: &Event) -> (r: Category)
    ensures
        r == category_of_event(event.event_type),
{
    match event.event_type {
        EventType::TaskUpdate => Category::Task,
        EventType::Meeting | EventType::CalendarEvent => Category::Meeting,
        EventType::Message | EventType::Email => Category::Communication,
        EventType::DocumentChange | EventType::ManualNote => Category::Document,
        EventType::Approval => Category::Decision,
        EventType::OkrUpdate | EventType::Browsing => Category::Planning,
        EventType::AppActivity => Category::Research,
    }
}

/// Whether task discovery runs on events of type `t`: messages, mail and
/// manual notes only.
pub fn is_text_rich_event(t: EventType) -> (r: bool)
    ensures
        r == (t == EventType::Message || t == EventType::Email || t == EventType::ManualNote),
{
    match t {
        EventType::Message | EventType::Email | EventType::ManualNote => true,
        _ => false,
    }
}

/// The confidence an event starts with, in thousandths: 0.9, 0.7 or 0.4 by
/// its source's confidence.
pub fn event_initial_confidence(c: Confidence) -> (r: u32)
    ensures
        r == match c {
            Confidence::High => 900u32,
            Confidence::Medium => 700u32,
            Confidence::Low => 400u32,
        },
{
    match c {
        Confidence::High => 900,
        Confidence::Medium => 700,
        Confidence::Low => 400,
    }
}

/// What an archived event yields without the model: its title, a fixed
/// summary, its JSON text as detail, its category, confidence 0.4.
pub fn archive_data(event: &Event) -> (r: ExtractedData)
    ensures
        r.title@ == content_title(event.content),
        r.summary@ == "Auto-archived event"@,
        r.detail@ == match event.content {
            EventContent::Text(s) => s@,
            EventContent::Object { json, .. } => json@,
            EventContent::Other(j) => j@,
        },
        r.category == category_of_event(event.event_type),
        r.project is None && r.people@.len() == 0 && r.tags@.len() == 0 && r.task_status is None,
        r.confidence_permille == 400,
        r.due_date is None,
{
    ExtractedData {
        title: event.title(),
        summary: String::from_str("Auto-archived event"),
        detail: event.json_text(),
        category: map_event_to_category(event),
        project: None,
        people: Vec::new(),
        tags: Vec::new(),
        task_status: None,
        confidence_permille: 400,
        due_date: None,
    }
}

/// What an event yields when the model fails: its title, its text as both
/// summary and detail, the given category, confidence 0.7.
pub fn fallback_extract_from_event(event: &Event, category: &Category) -> (r: ExtractedData)
    ensures
        r.title@ == content_title(event.content),
        r.summary@ == content_text(event.content),
        r.detail@ == content_text(event.content),
        r.category == *category,
        r.project is None && r.people@.len() == 0 && r.tags@.len() == 0 && r.task_status is None,
        r.confidence_permille == 700,
        r.due_date is None,
{
    let text = event.text();
    ExtractedData {
        title: event.title(),
        summary: text.clone(),
        detail: text,
        category: *category,
        project: None,
        people: Vec::new(),
        tags: Vec::new(),
        task_status: None,
        confidence_permille: 700,
        due_date: None,
    }
}

/// Whether a reviewed record is persisted: unless it must be fixed.
pub fn should_persist(verdict: &ReviewVerdict) -> (r: bool)
    ensures
        r == !(*verdict is NeedsFix),
{
    match verdict {
        ReviewVerdict::NeedsFix(_) => false,
        _ => true,
    }
}

/// The first `max_chars` characters of `text` (all of it when shorter).
pub fn sanitize_text_input(text: &str, max_chars: usize) -> (r: String)
    ensures
        r@ == if text@.len() <= max_chars { text@ } else { text@.subrange(0, max_chars as int) },
{
    let v = crate::text::chars_of(text);
    let end = if v.len() <= max_chars { v.len() } else { max_chars };
    let r = crate::text::string_of(v.as_slice(), 0, end);
    assert(v@.subrange(0, v@.len() as int) =~= text@);
    r
}

/// A priority's name, as `Debug` prints it.
pub open spec fn priority_name(p: TaskPriority) -> Seq<char> {
    match p {
        TaskPriority::P0 => "P0"@,
        TaskPriority::P1 => "P1"@,
        TaskPriority::P2 => "P2"@,
        TaskPriority::P3 => "P3"@,
    }
}

/// The first `n` characters of `s`, all of them when it is shorter.
pub open spec fn clipped(s: Seq<char>, n: nat) -> Seq<char> {
    if s.len() <= n {
        s
    } else {
        s.subrange(0, n as int)
    }
}

/// What is known of the due instant read from a discovered task's due text
/// `text` (the instant itself depends on the clock and the time zone): none
/// where the text names no due date, one where it gives an ISO date, today
/// or the year's end.
pub open spec fn discovered_due(text: Seq<char>, due: Option<i64>) -> bool {
    &&& crate::processor::due_date::due_kind(text) is None ==> due is None
    &&& (crate::processor::due_date::due_kind(text) matches Some(crate::processor::due_date::DueKind::Iso(_, _, _))) ==> due is Some
    &&& (crate::processor::due_date::due_kind(text) matches Some(crate::processor::due_date::DueKind::Today)) ==> due is Some
    &&& (crate::processor::due_date::due_kind(text) matches Some(crate::processor::due_date::DueKind::YearEnd)) ==> due is Some
}

/// Marks `record` as a task discovered with `priority`, due at
/// `due_ms` when a due date was read.
pub fn mark_discovered_task(record: &mut WorkRecord, priority: TaskPriority, due_ms: Option<Option<i64>>)
    ensures
        *final(record) == (WorkRecord {
            category: Category::Task,
            task_priority: final(record).task_priority,
            task_due_ms: match due_ms {
                Some(d) => d,
                None => old(record).task_due_ms,
            },
            ..*old(record)
        }),
        opt_view(final(record).task_priority) == Some(priority_name(priority)),
{
    record.category = Category::Task;
    match due_ms {
        Some(d) => {
            record.task_due_ms = d;
        },
        None => {},
    }
    let name = match priority {
        TaskPriority::P0 => "P0",
        TaskPriority::P1 => "P1",
        TaskPriority::P2 => "P2",
        TaskPriority::P3 => "P3",
    };
    record.task_priority = Some(String::from_str(name));
}

/// What the model returned for an extraction request, as the caller read
/// it: its text, the model's name, the text parsed as an extraction when it
/// parses, and the members of the text read as a JSON object.
#[derive(Debug, Clone)]
pub struct ModelOutput {
    pub content: String,
    pub model_used: String,
    pub parsed: Option<Extraction>,
    pub raw: RawFields,
}

/// What the pipeline asks its caller to do next.
#[derive(Debug, Clone)]
pub enum PipelineAction {
    /// Ask the model to classify the event; answer with `Classified`.
    Classify { initial_confidence_permille: u32 },
    /// Ask the model to extract the event; answer with `Extracted`.
    Extract { initial_confidence_permille: u32 },
    /// Ask the model for a task in `text`, showing it the tasks awaiting
    /// confirmation; answer with `Discovered`.
    Discover { text: String, context: Vec<TaskContext> },
    /// Ask the deduplicator for a similar record; answer with `Similar`.
    FindSimilar,
    /// Look beside `new_path` for the note of record `record_id`; answer
    /// with `ExistingPath`.
    FindExistingPath { record_id: String, new_path: String },
    /// Persist the record; answer with `Persisted`.
    Persist,
    /// Index the persisted record for later deduplication; answer with
    /// `Indexed`.
    Index,
    /// Nothing more: the run is over.
    Finish,
}

/// The caller's answer to the last action.
#[derive(Debug, Clone)]
pub enum PipelineReply {
    /// The model's category, `None` when it failed or its answer did not
    /// parse.
    Classified(Option<String>),
    /// The model's output, `None` when it failed.
    Extracted(Option<ModelOutput>),
    /// The model's extraction, `None` when it failed or did not parse.
    Discovered(Option<Extraction>),
    /// The id of a similar record, when there is one.
    Similar(Option<String>),
    /// The path of the similar record's note, when found.
    ExistingPath(Option<String>),
    Persisted,
    Indexed,
}

/// Where a run stands: which answer it waits for.
#[derive(PartialEq, Eq, Structural, Clone, Copy, Debug)]
pub enum Stage {
    Classifying,
    Extracting,
    Discovering,
    Deduplicating,
    Locating,
    Persisting,
    Indexing,
    Done,
}

/// One event's way through the pipeline.
#[derive(Debug, Clone)]
pub struct PipelineRun {
    pub event: Event,
    pub stage: Stage,
    /// The rules' route.
    pub rule_route: ProcessingRoute,
    /// The route taken.
    pub route: ProcessingRoute,
    /// The work record, once made.
    pub record: Option<WorkRecord>,
    /// The review, once made.
    pub review: Option<ReviewResult>,
}

/// The stage a run is in after asking for `a`.
pub open spec fn stage_of_action(a: PipelineAction) -> Stage {
    match a {
        PipelineAction::Classify { .. } => Stage::Classifying,
        PipelineAction::Extract { .. } => Stage::Extracting,
        PipelineAction::Discover { .. } => Stage::Discovering,
        PipelineAction::FindSimilar => Stage::Deduplicating,
        PipelineAction::FindExistingPath { .. } => Stage::Locating,
        PipelineAction::Persist => Stage::Persisting,
        PipelineAction::Index => Stage::Indexing,
        PipelineAction::Finish => Stage::Done,
    }
}

/// What a run holds at each stage: nothing before extraction, a record
/// without review until the review, and from persistence on a record whose
/// review did not ask for fixes.
pub open spec fn run_consistent(run: PipelineRun) -> bool {
    &&& (run.stage == Stage::Classifying || run.stage == Stage::Extracting) ==> run.record is None && run.review is None
    &&& (run.stage == Stage::Discovering || run.stage == Stage::Deduplicating || run.stage == Stage::Locating)
        ==> run.record is Some && run.review is None
    &&& (run.stage == Stage::Persisting || run.stage == Stage::Indexing) ==> run.record is Some
        && (run.review matches Some(rv) && !(rv.verdict is NeedsFix))
}

/// A run that asks for its record to be persisted holds a record whose
/// review did not ask for fixes: a record that needs fixing is never
/// persisted.
pub proof fn law_persisted_records_passed_review(run: PipelineRun, a: PipelineAction)
    requires
        run_consistent(run),
        run.stage == stage_of_action(a),
        a is Persist,
    ensures
        run.record is Some,
        run.review matches Some(rv) && !(rv.verdict is NeedsFix),
{
}

/// The run holds a record and a review, and the review is `agent`'s review
/// of that record.
pub open spec fn review_of_agent(agent: ReviewAgent, run: PipelineRun) -> bool {
    run.record matches Some(rec) && run.review matches Some(rv) && reviewed_as(agent, rec, rv)
}

/// The stage and action that follow a review: persist unless the record
/// must be fixed.
pub open spec fn after_review(run: PipelineRun, a: PipelineAction) -> bool {
    run.review matches Some(rv) && if rv.verdict is NeedsFix {
        run.stage == Stage::Done && a is Finish
    } else {
        run.stage == Stage::Persisting && a is Persist
    }
}

/// The stage and action that follow task discovery: the deduplicator when
/// there is one, else the review.
pub open spec fn after_discovery(dedup: bool, run: PipelineRun, a: PipelineAction) -> bool {
    if dedup {
        run.stage == Stage::Deduplicating && a is FindSimilar && run.review is None
    } else {
        after_review(run, a)
    }
}

/// The stage and action that follow the making of the record: discovery
/// for messages, mail and manual notes, else what follows discovery.
pub open spec fn after_record(dedup: bool, run: PipelineRun, a: PipelineAction) -> bool {
    if run.event.event_type == EventType::Message || run.event.event_type == EventType::Email
        || run.event.event_type == EventType::ManualNote {
        &&& run.stage == Stage::Discovering
        &&& a matches PipelineAction::Discover { text, .. }
        &&& text@ == content_text(run.event.content)
        &&& run.review is None
    } else {
        after_discovery(dedup, run, a)
    }
}

/// The record made of an archived event: its title, a fixed summary,
/// confidence 0.4, the event's category, by `archive-skip`.
pub open spec fn archived_record(r: WorkRecord, e: Event) -> bool {
    &&& r.title@ == content_title(e.content)
    &&& r.summary@ == "Auto-archived event"@
    &&& r.category == category_of_event(e.event_type)
    &&& r.confidence_permille == 400
    &&& r.needs_review
    &&& r.model_used@ == "archive-skip"@
    &&& crate::scheduler::dependency::string_views(r.source_event_ids@) == seq![e.id@]
}

/// The record made when the model failed to extract: the event's title and
/// text, confidence 0.7, by `extract-fallback`.
pub open spec fn fallback_record(r: WorkRecord, e: Event) -> bool {
    &&& r.title@ == content_title(e.content)
    &&& r.summary@ == content_text(e.content)
    &&& r.category == category_of_event(e.event_type)
    &&& r.confidence_permille == 700
    &&& r.needs_review
    &&& r.model_used@ == "extract-fallback"@
    &&& crate::scheduler::dependency::string_views(r.source_event_ids@) == seq![e.id@]
}

/// The record made of the model's output: its title and confidence, by the
/// model that wrote it.
pub open spec fn extracted_record(r: WorkRecord, e: Event, o: ModelOutput) -> bool {
    &&& (o.parsed matches Some(x) ==> r.title@ == x.title@ && r.confidence_permille == x.confidence_permille)
    &&& (o.parsed is None ==> r.title@ == match o.raw.title { Some(t) => t@, None => "Untitled"@ } && r.confidence_permille
        == match o.raw.confidence_permille { Some(c) => c, None => 500 })
    &&& r.category == category_of_event(e.event_type)
    &&& r.needs_review == (r.confidence_permille < 800)
    &&& r.model_used@ == o.model_used@
    &&& crate::scheduler::dependency::string_views(r.source_event_ids@) == seq![e.id@]
}

/// The event processing pipeline: the rule classifier, the model (through
/// its caller), task discovery, optional deduplication, review and
/// persistence.  Its caller performs each action it asks for and answers
/// with the outcome.
pub struct ProcessingPipeline {
    reviewer: ReviewAgent,
    task_discovery: TaskDiscovery,
    deduplicate: bool,
}

impl ProcessingPipeline {
    /// Whether similar records are looked for.
    pub closed spec fn dedup(self) -> bool {
        self.deduplicate
    }

    pub closed spec fn agent(self) -> ReviewAgent {
        self.reviewer
    }

    pub closed spec fn discovery(self) -> TaskDiscovery {
        self.task_discovery
    }

    /// A pipeline with the standard review agent, no deduplication and no
    /// task awaiting confirmation.
    pub fn new() -> (r: Self)
        ensures
            !r.dedup(),
            r.agent().rule_chain().len() == 0 && r.agent().tiered() is None && r.agent().large() is None,
            r.discovery().pending_map() == Map::<Seq<char>, crate::processor::task::discovery::PendingTask>::empty(),
    {
        ProcessingPipeline { reviewer: ReviewAgent::new(), task_discovery: TaskDiscovery::new(), deduplicate: false }
    }

    /// The pipeline with the given agent judging its records.
    pub fn with_reviewer(self, reviewer: ReviewAgent) -> (r: Self)
        ensures
            r.agent() == reviewer,
            r.dedup() == self.dedup(),
            r.discovery() == self.discovery(),
    {
        let mut s = self;
        s.reviewer = reviewer;
        s
    }

    /// The pipeline with a deduplicator: similar records are looked for
    /// before review, and persisted records are indexed.  The deduplicator
    /// itself is the caller's, which answers `FindSimilar` and `Index`.
    pub fn with_deduplicator(self) -> (r: Self)
        ensures
            r.dedup(),
            r.agent() == self.agent(),
            r.discovery() == self.discovery(),
    {
        let mut s = self;
        s.deduplicate = true;
        s
    }

    /// The task discovery front end, with the tasks awaiting confirmation.
    pub fn task_discovery(&mut self) -> (r: &mut TaskDiscovery)
        ensures
            *r == old(self).discovery(),
            final(self).discovery() == *final(r),
            final(self).dedup() == old(self).dedup(),
            final(self).agent() == old(self).agent(),
    {
        &mut self.task_discovery
    }

    /// Reviews the run's record and asks for persistence unless it must be
    /// fixed.
    fn review_record(&mut self, run: &mut PipelineRun) -> (a: PipelineAction)
        requires
            old(run).record is Some,
        ensures
            final(run).event == old(run).event,
            final(run).record == old(run).record,
            final(run).route == old(run).route,
            final(run).rule_route == old(run).rule_route,
            after_review(*final(run), a),
            review_of_agent(old(self).agent(), *final(run)),
            final(run).stage == stage_of_action(a),
            run_consistent(*final(run)),
            final(self).dedup() == old(self).dedup(),
            final(self).discovery() == old(self).discovery(),
    {
        let review = match &run.record {
            Some(r) => self.reviewer.review(r),
            None => {
                return PipelineAction::Finish;
            },
        };
        let persist = should_persist(&review.verdict);
        run.review = Some(review);
        if persist {
            run.stage = Stage::Persisting;
            PipelineAction::Persist
        } else {
            run.stage = Stage::Done;
            PipelineAction::Finish
        }
    }

    /// What follows discovery: the deduplicator, or the review.
    fn after_discovery_step(&mut self, run: &mut PipelineRun) -> (a: PipelineAction)
        requires
            old(run).record is Some,
            old(run).review is None,
        ensures
            final(run).event == old(run).event,
            final(run).record == old(run).record,
            final(run).route == old(run).route,
            final(run).rule_route == old(run).rule_route,
            after_discovery(old(self).dedup(), *final(run), a),
            final(run).review is Some ==> review_of_agent(old(self).agent(), *final(run)),
            final(run).stage == stage_of_action(a),
            run_consistent(*final(run)),
            final(self).dedup() == old(self).dedup(),
            final(self).discovery() == old(self).discovery(),
    {
        if self.deduplicate {
            run.stage = Stage::Deduplicating;
            PipelineAction::FindSimilar
        } else {
            self.review_record(run)
        }
    }

    /// Makes the run's record of `data` by `model`, with its vault path, and
    /// goes on to discovery.
    fn make_record(&mut self, run: &mut PipelineRun, data: &ExtractedData, model: &str) -> (a: PipelineAction)
        requires
            old(run).review is None,
        ensures
            final(run).event == old(run).event,
            final(run).route == old(run).route,
            final(run).rule_route == old(run).rule_route,
            final(run).record matches Some(r) && EntityExtractor::record_from(r, *data, old(run).event, model@)
                && (crate::processor::report::date::utc_date(r.created_at_ms as int) is Some ==> r.obsidian_path@
                == crate::processor::persist::note_path(r)),
            after_record(old(self).dedup(), *final(run), a),
            final(run).review is Some ==> review_of_agent(old(self).agent(), *final(run)),
            final(run).stage == stage_of_action(a),
            run_consistent(*final(run)),
            final(self).dedup() == old(self).dedup(),
    {
        let mut record = EntityExtractor::to_work_record(data, &run.event, model);
        if record.obsidian_path.as_str().unicode_len() == 0 {
            match PersistStep::generate_path(&record) {
                Some(p) => {
                    record.obsidian_path = p;
                },
                None => {},
            }
        }
        run.record = Some(record);
        match run.event.event_type {
            EventType::Message | EventType::Email | EventType::ManualNote => {
                run.stage = Stage::Discovering;
                PipelineAction::Discover { text: run.event.text(), context: self.task_discovery.existing_task_context() }
            },
            _ => self.after_discovery_step(run),
        }
    }

    /// What follows the route: the archive record without the model, else
    /// an extraction request.
    fn after_route(&mut self, run: &mut PipelineRun) -> (a: PipelineAction)
        requires
            old(run).record is None,
            old(run).review is None,
        ensures
            final(run).event == old(run).event,
            final(run).route == old(run).route,
            final(run).rule_route == old(run).rule_route,
            old(run).route == ProcessingRoute::Archive ==> (final(run).record matches Some(r) && archived_record(r, old(run).event))
                && after_record(old(self).dedup(), *final(run), a),
            old(run).route != ProcessingRoute::Archive ==> final(run).stage == Stage::Extracting && final(run).record is None
                && a == (PipelineAction::Extract {
                    initial_confidence_permille: match old(run).event.source_confidence {
                        Confidence::High => 900u32,
                        Confidence::Medium => 700u32,
                        Confidence::Low => 400u32,
                    },
                }),
            final(run).review is Some ==> review_of_agent(old(self).agent(), *final(run)),
            final(run).stage == stage_of_action(a),
            run_consistent(*final(run)),
            final(self).dedup() == old(self).dedup(),
    {
        if run.route == ProcessingRoute::Archive {
            let data = archive_data(&run.event);
            self.make_record(run, &data, "archive-skip")
        } else {
            run.stage = Stage::Extracting;
            PipelineAction::Extract { initial_confidence_permille: event_initial_confidence(run.event.source_confidence) }
        }
    }

    /// Starts `event`'s run: the rules classify it; an archived event skips
    /// the model, any other is sent to the model for classification.
    pub fn begin(&mut self, event: Event) -> (r: (PipelineRun, PipelineAction))
        ensures
            r.0.event == event,
            r.0.rule_route == route_of(event.source_confidence, event.event_type, contains(mention_text(event.content), seq!['@'])),
            r.0.rule_route == ProcessingRoute::Archive ==> r.0.route == ProcessingRoute::Archive
                && (r.0.record matches Some(rec) && archived_record(rec, event)) && after_record(old(self).dedup(), r.0, r.1),
            r.0.rule_route != ProcessingRoute::Archive ==> r.0.stage == Stage::Classifying && r.0.record is None
                && r.1 == (PipelineAction::Classify {
                    initial_confidence_permille: match event.source_confidence {
                        Confidence::High => 900u32,
                        Confidence::Medium => 700u32,
                        Confidence::Low => 400u32,
                    },
                }),
            r.0.review is Some ==> review_of_agent(old(self).agent(), r.0),
            r.0.stage == stage_of_action(r.1),
            run_consistent(r.0),
            r.0.rule_route == ProcessingRoute::Archive ==> !(r.1 is Classify) && !(r.1 is Extract),
            final(self).dedup() == old(self).dedup(),
    {
        let rule_route = Classifier::classify(&event);
        let confidence = event_initial_confidence(event.source_confidence);
        let mut run = PipelineRun {
            event,
            stage: Stage::Classifying,
            rule_route,
            route: rule_route,
            record: None,
            review: None,
        };
        if rule_route == ProcessingRoute::Archive {
            let a = self.after_route(&mut run);
            (run, a)
        } else {
            (run, PipelineAction::Classify { initial_confidence_permille: confidence })
        }
    }

    /// Takes the caller's answer to the last action and says what to do
    /// next.  An answer that does not fit the stage ends the run.
    pub fn step(&mut self, run: &mut PipelineRun, reply: PipelineReply) -> (a: PipelineAction)
        requires
            old(run).stage == Stage::Classifying ==> old(run).record is None && old(run).review is None,
            old(run).stage == Stage::Extracting ==> old(run).record is None && old(run).review is None,
            old(run).stage == Stage::Discovering || old(run).stage == Stage::Deduplicating || old(run).stage == Stage::Locating
                ==> old(run).record is Some && old(run).review is None,
        ensures
            final(run).event == old(run).event,
            final(run).rule_route == old(run).rule_route,
            old(run).review is None && final(run).review is Some ==> review_of_agent(old(self).agent(), *final(run)),
            old(run).review is Some ==> final(run).record == old(run).record && final(run).review == old(run).review
                && final(run).route == old(run).route,
            final(run).stage == stage_of_action(a),
            run_consistent(*old(run)) ==> run_consistent(*final(run)),
            !(a is Classify),
            a is Extract ==> old(run).stage == Stage::Classifying && final(run).route != ProcessingRoute::Archive,
            final(self).dedup() == old(self).dedup(),
            match (old(run).stage, reply) {
                (Stage::Classifying, PipelineReply::Classified(c)) => {
                    &&& final(run).route == (if old(run).rule_route == ProcessingRoute::Archive {
                        ProcessingRoute::Archive
                    } else {
                        match c {
                            Some(x) => label_route(x@),
                            None => old(run).rule_route,
                        }
                    })
                    &&& (final(run).route == ProcessingRoute::Archive ==> (final(run).record matches Some(r) && archived_record(r, old(run).event))
                        && after_record(old(self).dedup(), *final(run), a))
                    &&& (final(run).route != ProcessingRoute::Archive ==> final(run).stage == Stage::Extracting && a is Extract)
                },
                (Stage::Extracting, PipelineReply::Extracted(o)) => {
                    &&& final(run).route == old(run).route
                    &&& final(run).record matches Some(r) && match o {
                        Some(out) => extracted_record(r, old(run).event, out),
                        None => fallback_record(r, old(run).event),
                    }
                    &&& after_record(old(self).dedup(), *final(run), a)
                },
                (Stage::Discovering, PipelineReply::Discovered(e)) => {
                    &&& final(run).route == old(run).route
                    &&& final(run).record matches Some(r) && (old(run).record matches Some(o) && match e {
                        Some(x) => if !x.is_status_update && crate::processor::task::discovery_ai::valid_task_extraction(x) {
                            r == (WorkRecord {
                                category: Category::Task,
                                task_priority: r.task_priority,
                                task_due_ms: r.task_due_ms,
                                ..o
                            }) && opt_view(r.task_priority) == Some(priority_name(
                                crate::processor::task::discovery_ai::discovered_priority(x),
                            )) && match x.due_date {
                                Some(t) => discovered_due(clipped(t@, 100), r.task_due_ms),
                                None => r.task_due_ms == o.task_due_ms,
                            }
                        } else {
                            r == o
                        },
                        None => r == o,
                    })
                    &&& after_discovery(old(self).dedup(), *final(run), a)
                },
                (Stage::Deduplicating, PipelineReply::Similar(s)) => {
                    &&& final(run).record == old(run).record
                    &&& match s {
                        Some(id) => final(run).stage == Stage::Locating && (old(run).record matches Some(o) && a == (
                        PipelineAction::FindExistingPath { record_id: id, new_path: o.obsidian_path })),
                        None => after_review(*final(run), a),
                    }
                },
                (Stage::Locating, PipelineReply::ExistingPath(p)) => {
                    &&& final(run).record matches Some(r) && (old(run).record matches Some(o) && match p {
                        Some(path) => r == (WorkRecord { obsidian_path: path, ..o }),
                        None => r == o,
                    })
                    &&& after_review(*final(run), a)
                },
                (Stage::Persisting, PipelineReply::Persisted) => if old(self).dedup() {
                    final(run).stage == Stage::Indexing && a is Index
                } else {
                    final(run).stage == Stage::Done && a is Finish
                },
                (Stage::Indexing, PipelineReply::Indexed) => final(run).stage == Stage::Done && a is Finish,
                _ => final(run).stage == Stage::Done && a is Finish,
            },
    {
        match (run.stage, reply) {
            (Stage::Classifying, PipelineReply::Classified(c)) => {
                let category = match &c {
                    Some(x) => Some(x.as_str()),
                    None => None,
                };
                run.route = final_route(run.rule_route, category);
                self.after_route(run)
            },
            (Stage::Extracting, PipelineReply::Extracted(o)) => {
                let category = map_event_to_category(&run.event);
                match &o {
                    Some(out) => {
                        let data = EntityExtractor::extract(out.parsed.as_ref(), &out.raw, out.content.as_str(), &category);
                        self.make_record(run, &data, out.model_used.as_str())
                    },
                    None => {
                        let data = fallback_extract_from_event(&run.event, &category);
                        self.make_record(run, &data, "extract-fallback")
                    },
                }
            },
            (Stage::Discovering, PipelineReply::Discovered(e)) => {
                let text = run.event.text();
                let tasks = tasks_from_extraction(e.as_ref(), text.as_str());
                let first = if tasks.len() > 0 {
                    let t = &tasks[0];
                    let due = match &t.due_date {
                        Some(d) => Some(crate::processor::due_date::parse_due_date_from_text(
                            sanitize_text_input(d.as_str(), 100).as_str(),
                        )),
                        None => None,
                    };
                    Some((t.priority, due))
                } else {
                    None
                };
                self.task_discovery.add_discovered(tasks);
                match (first, &mut run.record) {
                    (Some((priority, due)), Some(record)) => {
                        mark_discovered_task(record, priority, due);
                    },
                    _ => {},
                }
                self.after_discovery_step(run)
            },
            (Stage::Deduplicating, PipelineReply::Similar(s)) => {
                match s {
                    Some(existing_id) => {
                        let new_path = match &run.record {
                            Some(r) => r.obsidian_path.clone(),
                            None => String::new(),
                        };
                        run.stage = Stage::Locating;
                        PipelineAction::FindExistingPath { record_id: existing_id, new_path }
                    },
                    None => self.review_record(run),
                }
            },
            (Stage::Locating, PipelineReply::ExistingPath(p)) => {
                match (p, &mut run.record) {
                    (Some(path), Some(record)) => {
                        record.obsidian_path = path;
                    },
                    _ => {},
                }
                self.review_record(run)
            },
            (Stage::Persisting, PipelineReply::Persisted) => {
                if self.deduplicate {
                    run.stage = Stage::Indexing;
                    PipelineAction::Index
                } else {
                    run.stage = Stage::Done;
                    PipelineAction::Finish
                }
            },
            (Stage::Indexing, PipelineReply::Indexed) => {
                run.stage = Stage::Done;
                PipelineAction::Finish
            },
            _ => {
                run.stage = Stage::Done;
                PipelineAction::Finish
            },
        }
    }
}

/// What processing an event produced: the record, its review, the time
/// taken in all and by step, and the route taken.
#[derive(Debug, Clone)]
pub struct ProcessedResult {
    pub work_record: WorkRecord,
    pub review_result: ReviewResult,
    pub processing_time_ms: u64,
    pub route: ProcessingRoute,
    pub step_timings: StepTimings,
}

impl PipelineRun {
    /// The result of a run that made and reviewed its record, with the
    /// times measured by its caller; `None` before that.
    pub fn into_result(self, processing_time_ms: u64, step_timings: StepTimings) -> (r: Option<ProcessedResult>)
        ensures
            r is Some <==> self.record is Some && self.review is Some,
            r matches Some(p) ==> Some(p.work_record) == self.record && Some(p.review_result) == self.review
                && p.route == self.route && p.processing_time_ms == processing_time_ms && p.step_timings == step_timings,
    {
        match (self.record, self.review) {
            (Some(work_record), Some(review_result)) => Some(ProcessedResult {
                work_record,
                review_result,
                processing_time_ms,
                route: self.route,
                step_timings,
            }),
            _ => None,
        }
    }
}

} // verus!
