//! Discovered tasks awaiting confirmation, and the discovery front end that
//! holds them.
use vstd::prelude::*;
use crate::processor::error::WbError;
use crate::processor::task::discovery_confirm::ConfirmationFlow;
use crate::processor::task::model::{opt_view, TaskPriority, TaskSource};
use crate::store::Keyed;

verus! {

/// A task found in some text, awaiting confirmation.
#[derive(Debug, Clone)]
pub struct PendingTask {
    pub id: String,
    pub title: String,
    pub description: Option<String>,
    pub source: TaskSource,
    pub priority: TaskPriority,
    pub due_date: Option<String>,
    /// The text the task was found in.
    pub origin_text: String,
    pub created_at: String,
}

/// The view of an optional string slice.
pub open spec fn opt_str_view(o: Option<&str>) -> Option<Seq<char>> {
    match o {
        Some(s) => Some(s@),
        None => None,
    }
}

impl Keyed for PendingTask {
    open spec fn key(&self) -> Seq<char> {
        self.id@
    }

    fn key_str(&self) -> (r: &str) {
        self.id.as_str()
    }
}

impl PendingTask {
    /// A pending task with a fresh identifier, created now.
    pub fn new(
        title: &str,
        description: Option<&str>,
        source: TaskSource,
        priority: TaskPriority,
        due_date: Option<String>,
        origin_text: &str,
    ) -> (r: Self)
        ensures
            r.id@.len() == 36,
            r.title@ == title@,
            opt_view(r.description) == opt_str_view(description),
            r.source == source,
            r.priority == priority,
            r.due_date == due_date,
            r.origin_text@ == origin_text@,
    {
        let description = match description {
            Some(d) => Some(String::from_str(d)),
            None => None,
        };
        PendingTask {
            id: crate::clock::new_uuid(),
            title: String::from_str(title),
            description,
            source,
            priority,
            due_date,
            origin_text: String::from_str(origin_text),
            created_at: crate::clock::now_rfc3339(),
        }
    }
}

/// The discovery front end: what the model found, held until a person
/// confirms or rejects it.
pub struct TaskDiscovery {
    confirm_flow: ConfirmationFlow,
}

impl TaskDiscovery {
    /// The tasks awaiting confirmation, by id.
    pub closed spec fn pending_map(self) -> Map<Seq<char>, PendingTask> {
        self.confirm_flow.pending_map()
    }

    /// The ids rejected so far, in order.
    pub closed spec fn rejected(self) -> Seq<Seq<char>> {
        self.confirm_flow.rejected()
    }

    /// Finitely many tasks await confirmation.
    pub proof fn lemma_pending_finite(self)
        ensures
            self.pending_map().dom().finite(),
    {
        self.confirm_flow.lemma_pending_finite();
    }

    pub fn new() -> (r: Self)
        ensures
            r.pending_map() == Map::<Seq<char>, PendingTask>::empty(),
            r.rejected() == Seq::<Seq<char>>::empty(),
    {
        TaskDiscovery { confirm_flow: ConfirmationFlow::new() }
    }

    /// Confirms task `pending_id`: it leaves the pending set and is returned.
    pub fn confirm(&mut self, pending_id: &str) -> (r: Result<PendingTask, WbError>)
        ensures
            old(self).pending_map().dom().finite(),
            final(self).pending_map().dom().finite(),
            r is Ok == old(self).pending_map().contains_key(pending_id@),
            r matches Ok(t) ==> t == old(self).pending_map()[pending_id@],
            r matches Err(e) ==> e is NotFound && e.message() == "待确认任务不存在: "@ + pending_id@,
            final(self).pending_map() == old(self).pending_map().remove(pending_id@),
            final(self).rejected() == old(self).rejected(),
    {
        self.confirm_flow.confirm(pending_id)
    }

    /// Rejects task `pending_id`: it leaves the pending set and its id is
    /// recorded as rejected.
    pub fn reject(&mut self, pending_id: &str) -> (r: Result<(), WbError>)
        ensures
            old(self).pending_map().dom().finite(),
            final(self).pending_map().dom().finite(),
            r is Ok == old(self).pending_map().contains_key(pending_id@),
            r matches Err(e) ==> e is NotFound && e.message() == "待确认任务不存在: "@ + pending_id@,
            final(self).pending_map() == old(self).pending_map().remove(pending_id@),
            r is Ok ==> final(self).rejected() == old(self).rejected().push(pending_id@),
            r is Err ==> final(self).rejected() == old(self).rejected(),
    {
        self.confirm_flow.reject(pending_id)
    }

    /// Every task awaiting confirmation, each once.
    pub fn pending(&self) -> (r: Vec<&PendingTask>)
        ensures
            self.pending_map().dom().finite(),
            r@.len() == self.pending_map().dom().len(),
            forall|i: int| 0 <= i < r@.len() ==> self.pending_map().contains_key(r@[i].id@)
                && self.pending_map()[r@[i].id@] == *r@[i],
            forall|k: Seq<char>| #[trigger] self.pending_map().contains_key(k) ==> exists|i: int|
                0 <= i < r@.len() && r@[i].id@ == k,
    {
        self.confirm_flow.pending()
    }

    /// The number of tasks awaiting confirmation.
    pub fn pending_count(&self) -> (r: usize)
        ensures
            self.pending_map().dom().finite(),
            r == self.pending_map().dom().len(),
    {
        self.confirm_flow.pending_count()
    }

    /// Adds a task to those awaiting confirmation.
    pub fn add_pending(&mut self, task: PendingTask)
        ensures
            old(self).pending_map().dom().finite(),
            final(self).pending_map().dom().finite(),
            final(self).pending_map() == old(self).pending_map().insert(task.id@, task),
            final(self).rejected() == old(self).rejected(),
    {
        self.confirm_flow.add(task);
    }

    /// Adds what the model discovered in one text, and returns it.
    pub fn add_discovered(&mut self, tasks: Vec<PendingTask>) -> (r: Vec<String>)
        ensures
            old(self).pending_map().dom().finite(),
            final(self).pending_map().dom().finite(),
            r@.len() == tasks@.len(),
            forall|i: int| 0 <= i < tasks@.len() ==> r@[i]@ == tasks@[i].id@,
            final(self).pending_map() == crate::processor::task::discovery_confirm::insert_all(
                old(self).pending_map(),
                tasks@,
            ),
            final(self).rejected() == old(self).rejected(),
    {
        self.confirm_flow.add_batch(tasks)
    }
}

impl Default for TaskDiscovery {
    fn default() -> (r: Self)
        ensures
            r.pending_map() == Map::<Seq<char>, PendingTask>::empty(),
            r.rejected() == Seq::<Seq<char>>::empty(),
    {
        TaskDiscovery::new()
    }
}

} // verus!
