//! Task discovery by a model: the decisions taken on what the model
//! extracted from a message.  A status update of a known task creates
//! nothing; an extraction with a title and a confidence of at least one half
//! becomes a pending task; anything else, or no extraction, creates nothing.
use vstd::prelude::*;
use crate::processor::extraction::Extraction;
use crate::processor::task::discovery::{PendingTask, TaskDiscovery};
use crate::processor::task::model::{opt_view, TaskPriority, TaskSource};

verus! {

/// A known task shown to the model, so that it can tell a new task from a
/// status update.
#[derive(Debug, Clone)]
pub struct TaskContext {
    pub id: String,
    pub title: String,
    pub status: String,
}

/// The least confidence, in thousandths, of an extraction taken as a task.
pub const AI_CONFIDENCE_THRESHOLD_PERMILLE: u32 = 500;

/// The tags that make a discovered task urgent.
pub open spec fn urgent_tags() -> Seq<Seq<char>> {
    seq!["紧急"@, "urgent"@, "ASAP"@, "尽快"@, "马上"@, "立即"@]
}

/// The extraction names a task: a non-empty title and a confidence of at
/// least one half.
pub open spec fn valid_task_extraction(e: Extraction) -> bool {
    e.title@.len() > 0 && e.confidence_permille >= AI_CONFIDENCE_THRESHOLD_PERMILLE
}

/// The priority of a discovered task: P1 when a tag is urgent, else P2.
pub open spec fn discovered_priority(e: Extraction) -> TaskPriority {
    if exists|i: int| 0 <= i < e.tags@.len() && urgent_tags().contains(#[trigger] e.tags@[i]@) {
        TaskPriority::P1
    } else {
        TaskPriority::P2
    }
}

/// `t` is the pending task made of `e` found in `origin`: its title, its
/// summary as description when not empty, from a message, of the priority
/// its tags call for, with its due date.
pub open spec fn pending_from(t: PendingTask, e: Extraction, origin: Seq<char>) -> bool {
    &&& t.id@.len() == 36
    &&& t.title@ == e.title@
    &&& opt_view(t.description) == (if e.summary@.len() == 0 { None } else { Some(e.summary@) })
    &&& t.source == TaskSource::Message
    &&& t.priority == discovered_priority(e)
    &&& opt_view(t.due_date) == opt_view(e.due_date)
    &&& t.origin_text@ == origin
}

/// Whether the extraction names a task (see `valid_task_extraction`).
pub fn is_valid_task_extraction(extraction: &Extraction) -> (r: bool)
    ensures
        r == valid_task_extraction(*extraction),
{
    extraction.title.as_str().unicode_len() > 0 && extraction.confidence_permille >= AI_CONFIDENCE_THRESHOLD_PERMILLE
}

/// Whether any tag is urgent.
fn has_urgent_tag(tags: &Vec<String>) -> (r: bool)
    ensures
        r == exists|i: int| 0 <= i < tags@.len() && urgent_tags().contains(#[trigger] tags@[i]@),
{
    let urgent: [&str; 6] = ["紧急", "urgent", "ASAP", "尽快", "马上", "立即"];
    assert(urgent@.map_values(|x: &str| x@) =~= urgent_tags());
    let mut i: usize = 0;
    while i < tags.len()
        invariant
            i <= tags@.len(),
            urgent@.map_values(|x: &str| x@) == urgent_tags(),
            forall|j: int| 0 <= j < i ==> !urgent_tags().contains(#[trigger] tags@[j]@),
        decreases tags.len() - i,
    {
        let mut k: usize = 0;
        while k < 6
            invariant
                k <= 6,
                i < tags@.len(),
                urgent@.map_values(|x: &str| x@) == urgent_tags(),
                forall|j: int| 0 <= j < k ==> urgent_tags()[j] != tags@[i as int]@,
            decreases 6 - k,
        {
            assert(urgent@[k as int]@ == urgent_tags()[k as int]);
            if crate::text::str_eq(tags[i].as_str(), urgent[k]) {
                assert(urgent_tags()[k as int] == tags@[i as int]@);
                return true;
            }
            k = k + 1;
        }
        assert(!urgent_tags().contains(tags@[i as int]@));
        i = i + 1;
    }
    false
}

/// The pending task made of an extraction (see `pending_from`).
pub fn extraction_to_pending_task(extraction: &Extraction, origin_text: &str) -> (r: PendingTask)
    ensures
        pending_from(r, *extraction, origin_text@),
{
    let priority = if has_urgent_tag(&extraction.tags) {
        TaskPriority::P1
    } else {
        TaskPriority::P2
    };
    let description = if extraction.summary.as_str().unicode_len() == 0 {
        None
    } else {
        Some(extraction.summary.as_str())
    };
    let due = match &extraction.due_date {
        Some(d) => Some(d.clone()),
        None => None,
    };
    PendingTask::new(extraction.title.as_str(), description, TaskSource::Message, priority, due, origin_text)
}

/// The tasks found in `text` from the model's extraction: none when there is
/// no extraction (the model failed or its output did not parse), none for a
/// status update, one when the extraction names a task, else none.
pub fn tasks_from_extraction(extraction: Option<&Extraction>, text: &str) -> (r: Vec<PendingTask>)
    ensures
        match extraction {
            Some(e) => if !e.is_status_update && valid_task_extraction(*e) {
                r@.len() == 1 && pending_from(r@[0], *e, text@)
            } else {
                r@.len() == 0
            },
            None => r@.len() == 0,
        },
{
    let mut out: Vec<PendingTask> = Vec::new();
    match extraction {
        Some(e) => {
            if !e.is_status_update && is_valid_task_extraction(e) {
                out.push(extraction_to_pending_task(e, text));
            }
        },
        None => {},
    }
    out
}

impl TaskDiscovery {
    /// The tasks awaiting confirmation as the model is shown them, each
    /// once, with the status `Pending`.
    pub fn existing_task_context(&self) -> (r: Vec<TaskContext>)
        ensures
            r@.len() == self.pending_map().dom().len(),
            forall|i: int| #![trigger r@[i]]
                0 <= i < r@.len() ==> self.pending_map().contains_key(r@[i].id@) && r@[i].title@
                    == self.pending_map()[r@[i].id@].title@ && r@[i].status@ == "Pending"@,
            forall|k: Seq<char>| #[trigger] self.pending_map().contains_key(k) ==> exists|i: int|
                0 <= i < r@.len() && r@[i].id@ == k,
    {
        let pending = self.pending();
        let mut out: Vec<TaskContext> = Vec::new();
        let mut i: usize = 0;
        while i < pending.len()
            invariant
                i <= pending@.len(),
                out@.len() == i,
                forall|j: int| #![trigger out@[j]]
                    0 <= j < i ==> out@[j].id@ == pending@[j].id@ && out@[j].title@ == pending@[j].title@
                        && out@[j].status@ == "Pending"@,
            decreases pending.len() - i,
        {
            let p = pending[i];
            out.push(TaskContext { id: p.id.clone(), title: p.title.clone(), status: String::from_str("Pending") });
            i = i + 1;
        }
        proof {
            assert forall|k: Seq<char>| #[trigger] self.pending_map().contains_key(k) implies exists|j: int|
                0 <= j < out@.len() && out@[j].id@ == k by {
                let j = choose|j: int| 0 <= j < pending@.len() && pending@[j].id@ == k;
                assert(out@[j].id@ == k);
            }
        }
        out
    }
}

} // verus!
