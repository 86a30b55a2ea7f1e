//! The confirmation flow: discovered tasks wait here until they are
//! confirmed (taken out) or rejected (taken out, their id recorded).
use vstd::prelude::*;
use crate::processor::error::WbError;
use crate::processor::task::discovery::PendingTask;
use crate::store::KeyedStore;

verus! {

/// `m` with each task of `s` inserted under its id, in order.
pub open spec fn insert_all(m: Map<Seq<char>, PendingTask>, s: Seq<PendingTask>) -> Map<Seq<char>, PendingTask>
    decreases s.len(),
{
    if s.len() == 0 {
        m
    } else {
        insert_all(m, s.drop_last()).insert(s.last().id@, s.last())
    }
}

/// Adding a batch of tasks with distinct ids, none of them already pending,
/// to a finite pending map raises the count by the batch's length.
pub proof fn law_add_batch_count(m: Map<Seq<char>, PendingTask>, tasks: Seq<PendingTask>)
    requires
        m.dom().finite(),
        forall|i: int, j: int| 0 <= i < j < tasks.len() ==> tasks[i].id@ != tasks[j].id@,
        forall|i: int| 0 <= i < tasks.len() ==> !m.contains_key(#[trigger] tasks[i].id@),
    ensures
        insert_all(m, tasks).dom().finite(),
        insert_all(m, tasks).dom().len() == m.dom().len() + tasks.len(),
    decreases tasks.len(),
{
    if tasks.len() > 0 {
        let init = tasks.drop_last();
        assert forall|i: int| 0 <= i < init.len() implies !m.contains_key(#[trigger] init[i].id@) by {
            assert(init[i] == tasks[i]);
        }
        law_add_batch_count(m, init);
        lemma_insert_all_keys(m, init, tasks.last().id@);
        let k = tasks.last().id@;
        if insert_all(m, init).contains_key(k) {
            let i = choose|i: int| 0 <= i < init.len() && init[i].id@ == k;
            assert(tasks[i].id@ != tasks[tasks.len() - 1].id@);
        }
    }
}

proof fn lemma_insert_all_keys(m: Map<Seq<char>, PendingTask>, tasks: Seq<PendingTask>, k: Seq<char>)
    ensures
        insert_all(m, tasks).contains_key(k) ==> m.contains_key(k) || exists|i: int| 0 <= i < tasks.len() && tasks[i].id@ == k,
    decreases tasks.len(),
{
    if tasks.len() > 0 {
        let init = tasks.drop_last();
        lemma_insert_all_keys(m, init, k);
        if insert_all(m, init).contains_key(k) && !m.contains_key(k) {
            let i = choose|i: int| 0 <= i < init.len() && init[i].id@ == k;
            assert(tasks[i] == init[i]);
        }
    }
}

/// The pending → confirmed / rejected state machine.
pub struct ConfirmationFlow {
    pending: KeyedStore<PendingTask>,
    rejected_ids: Vec<String>,
}

impl ConfirmationFlow {
    /// The tasks awaiting confirmation, by id.
    pub closed spec fn pending_map(self) -> Map<Seq<char>, PendingTask> {
        self.pending.view()
    }

    /// A flow holds finitely many tasks awaiting confirmation.
    pub proof fn lemma_pending_finite(self)
        ensures
            self.pending_map().dom().finite(),
    {
        self.pending.lemma_view_finite();
    }

    /// The ids rejected so far, in order.
    pub closed spec fn rejected(self) -> Seq<Seq<char>> {
        self.rejected_ids@.map_values(|s: String| s@)
    }

    pub fn new() -> (r: Self)
        ensures
            r.pending_map() == Map::<Seq<char>, PendingTask>::empty(),
            r.rejected() == Seq::<Seq<char>>::empty(),
    {
        let r = ConfirmationFlow { pending: KeyedStore::new(), rejected_ids: Vec::new() };
        assert(r.rejected() =~= Seq::<Seq<char>>::empty());
        r
    }

    /// Adds a task awaiting confirmation (replacing one with the same id) and
    /// returns its id.
    pub fn add(&mut self, task: PendingTask) -> (r: String)
        ensures
            old(self).pending_map().dom().finite(),
            final(self).pending_map().dom().finite(),
            r@ == task.id@,
            final(self).pending_map() == old(self).pending_map().insert(task.id@, task),
            final(self).pending_map().dom().len() == old(self).pending_map().dom().len() + if old(self).pending_map().contains_key(
                task.id@,
            ) {
                0int
            } else {
                1int
            },
            final(self).rejected() == old(self).rejected(),
    {
        proof { self.pending.lemma_view_finite(); }
        let id = task.id.clone();
        self.pending.insert(task);
        id
    }

    /// Adds each task in turn and returns their ids in the same order.
    pub fn add_batch(&mut self, tasks: Vec<PendingTask>) -> (r: Vec<String>)
        ensures
            old(self).pending_map().dom().finite(),
            final(self).pending_map().dom().finite(),
            r@.len() == tasks@.len(),
            forall|i: int| 0 <= i < tasks@.len() ==> r@[i]@ == tasks@[i].id@,
            final(self).pending_map() == insert_all(old(self).pending_map(), tasks@),
            final(self).rejected() == old(self).rejected(),
    {
        proof { self.pending.lemma_view_finite(); }
        let ghost start = self.pending_map();
        let ghost all = tasks@;
        let ghost rej = self.rejected();
        let mut ids: Vec<String> = Vec::new();
        let mut tasks = tasks;
        assert(all.subrange(0, all.len() as int) =~= all);
        while tasks.len() > 0
            invariant
                ids@.len() + tasks@.len() == all.len(),
                tasks@ == all.subrange(ids@.len() as int, all.len() as int),
                forall|i: int| 0 <= i < ids@.len() ==> ids@[i]@ == all[i].id@,
                self.pending_map() == insert_all(start, all.subrange(0, ids@.len() as int)),
                self.rejected() == rej,
            decreases tasks@.len(),
        {
            let ghost n = ids@.len() as int;
            let t = tasks.remove(0);
            assert(t == all[n]);
            let id = self.add(t);
            ids.push(id);
            assert(all.subrange(0, n + 1).drop_last() =~= all.subrange(0, n));
            assert(tasks@ =~= all.subrange(n + 1, all.len() as int));
        }
        proof { self.pending.lemma_view_finite(); }
        ids
    }

    /// Confirms task `pending_id`: it leaves the pending set and is returned.
    pub fn confirm(&mut self, pending_id: &str) -> (r: Result<PendingTask, WbError>)
        ensures
            r is Ok ==> final(self).pending_map().dom().len() == old(self).pending_map().dom().len() - 1,
            old(self).pending_map().dom().finite(),
            final(self).pending_map().dom().finite(),
            r is Ok == old(self).pending_map().contains_key(pending_id@),
            r matches Ok(t) ==> t == old(self).pending_map()[pending_id@],
            r matches Err(e) ==> e is NotFound && e.message() == "待确认任务不存在: "@ + pending_id@,
            final(self).pending_map() == old(self).pending_map().remove(pending_id@),
            final(self).rejected() == old(self).rejected(),
    {
        proof { self.pending.lemma_view_finite(); }
        match self.pending.remove(pending_id) {
            Some(t) => Ok(t),
            None => Err(WbError::not_found("待确认任务不存在: ", pending_id)),
        }
    }

    /// Rejects task `pending_id`: it leaves the pending set and its id is
    /// recorded as rejected.
    pub fn reject(&mut self, pending_id: &str) -> (r: Result<(), WbError>)
        ensures
            r is Ok ==> final(self).pending_map().dom().len() == old(self).pending_map().dom().len() - 1,
            old(self).pending_map().dom().finite(),
            final(self).pending_map().dom().finite(),
            r is Ok == old(self).pending_map().contains_key(pending_id@),
            r matches Err(e) ==> e is NotFound && e.message() == "待确认任务不存在: "@ + pending_id@,
            final(self).pending_map() == old(self).pending_map().remove(pending_id@),
            r is Ok ==> final(self).rejected() == old(self).rejected().push(pending_id@),
            r is Err ==> final(self).rejected() == old(self).rejected(),
    {
        proof { self.pending.lemma_view_finite(); }
        match self.pending.remove(pending_id) {
            Some(_) => {
                let ghost before = self.rejected_ids@;
                self.rejected_ids.push(String::from_str(pending_id));
                assert(self.rejected() =~= old(self).rejected().push(pending_id@));
                Ok(())
            },
            None => Err(WbError::not_found("待确认任务不存在: ", pending_id)),
        }
    }

    /// Every task awaiting confirmation, each once.
    pub fn pending(&self) -> (r: Vec<&PendingTask>)
        ensures
            self.pending_map().dom().finite(),
            r@.len() == self.pending_map().dom().len(),
            forall|i: int| 0 <= i < r@.len() ==> self.pending_map().contains_key(r@[i].id@)
                && self.pending_map()[r@[i].id@] == *r@[i],
            forall|k: Seq<char>| #[trigger] self.pending_map().contains_key(k) ==> exists|i: int|
                0 <= i < r@.len() && r@[i].id@ == k,
    {
        proof { self.pending.lemma_view_finite(); }
        self.pending.values()
    }

    /// The number of tasks awaiting confirmation.
    pub fn pending_count(&self) -> (r: usize)
        ensures
            self.pending_map().dom().finite(),
            r == self.pending_map().dom().len(),
    {
        proof { self.pending.lemma_view_finite(); }
        self.pending.len()
    }

    /// The number of rejections recorded.
    pub fn rejected_count(&self) -> (r: usize)
        ensures
            r == self.rejected().len(),
    {
        self.rejected_ids.len()
    }

    /// The task awaiting confirmation under `pending_id`.
    pub fn get(&self, pending_id: &str) -> (r: Option<&PendingTask>)
        ensures
            self.pending_map().dom().finite(),
            r is Some == self.pending_map().contains_key(pending_id@),
            r matches Some(t) ==> *t == self.pending_map()[pending_id@],
    {
        proof { self.pending.lemma_view_finite(); }
        self.pending.get(pending_id)
    }
}

impl Default for ConfirmationFlow {
    fn default() -> (r: Self)
        ensures
            r.pending_map() == Map::<Seq<char>, PendingTask>::empty(),
            r.rejected() == Seq::<Seq<char>>::empty(),
    {
        ConfirmationFlow::new()
    }
}

} // verus!
