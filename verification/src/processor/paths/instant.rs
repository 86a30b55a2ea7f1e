//! The instant path: the model classifies and extracts an event at once,
//! and the two results make a work record.
use vstd::prelude::*;
use crate::processor::event::Event;
use crate::processor::extraction::Extraction;
use crate::processor::record::{Category, WorkRecord};
use crate::processor::task::model::opt_view;
use crate::scheduler::dependency::string_views;
use crate::text::str_eq;

verus! {

/// The category a model's classification label names; anything unknown is
/// communication.
pub open spec fn category_of_label(label: Seq<char>) -> Category {
    if label == "task"@ {
        Category::Task
    } else if label == "meeting"@ {
        Category::Meeting
    } else if label == "communication"@ {
        Category::Communication
    } else if label == "research"@ {
        Category::Research
    } else if label == "review"@ {
        Category::Review
    } else if label == "planning"@ {
        Category::Planning
    } else if label == "document"@ {
        Category::Document
    } else if label == "decision"@ {
        Category::Decision
    } else {
        Category::Communication
    }
}

/// The instant processor.
pub struct InstantProcessor;

impl InstantProcessor {
    /// The category a classification label names (see `category_of_label`).
    pub fn category_of(label: &str) -> (r: Category)
        ensures
            r == category_of_label(label@),
    {
        if str_eq(label, "task") {
            Category::Task
        } else if str_eq(label, "meeting") {
            Category::Meeting
        } else if str_eq(label, "communication") {
            Category::Communication
        } else if str_eq(label, "research") {
            Category::Research
        } else if str_eq(label, "review") {
            Category::Review
        } else if str_eq(label, "planning") {
            Category::Planning
        } else if str_eq(label, "document") {
            Category::Document
        } else if str_eq(label, "decision") {
            Category::Decision
        } else {
            Category::Communication
        }
    }

    /// The work record made of an event's classification label and its
    /// extraction: a fresh id, created now, the extraction's texts, people,
    /// tags, project and confidence, the label's category, the event as its
    /// source, and the model that served it.
    pub fn record_from(event: &Event, label: &str, extraction: Extraction, model_used: &str) -> (r: WorkRecord)
        ensures
            r.id@.len() == 36,
            string_views(r.source_event_ids@) == seq![event.id@],
            r.title@ == extraction.title@,
            r.summary@ == extraction.summary@,
            r.detail@ == extraction.detail@,
            r.category == category_of_label(label@),
            string_views(r.people@) == string_views(extraction.people@),
            string_views(r.tags@) == string_views(extraction.tags@),
            opt_view(r.project) == opt_view(extraction.project),
            r.model_used@ == model_used@,
            r.confidence_permille == extraction.confidence_permille,
            r.task_status is None && r.task_due_ms is None && r.task_priority is None && r.task_progress is None,
            !r.needs_review,
            r.obsidian_path@.len() == 0,
    {
        let category = Self::category_of(label);
        let mut ids: Vec<String> = Vec::new();
        ids.push(event.id.clone());
        assert(string_views(ids@) =~= seq![event.id@]);
        let Extraction { title, summary, detail, people, tags, project, confidence_permille, .. } = extraction;
        WorkRecord {
            id: crate::clock::new_uuid(),
            created_at_ms: crate::clock::now_millis(),
            source_event_ids: ids,
            title,
            summary,
            detail,
            category,
            project,
            people,
            tags,
            task_status: None,
            task_due_ms: None,
            task_priority: None,
            task_progress: None,
            model_used: String::from_str(model_used),
            confidence_permille,
            needs_review: false,
            obsidian_path: String::new(),
        }
    }
}

} // verus!
