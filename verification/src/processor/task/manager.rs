//! The task store: CRUD, lifecycle transitions and subtasks.
use vstd::prelude::*;
use crate::processor::error::WbError;
use crate::processor::task::create::{create_task, initial_status};
use crate::processor::task::hierarchy::add_subtask;
use crate::processor::task::lifecycle::{transition as lifecycle_transition, transition_error, transitioned, valid_transition};
use crate::processor::task::model::{Task, TaskFilter, TaskPriority, TaskSource, TaskStatus, TaskUpdate, copy_opt, copy_strings, copy_task, matches_filter, opt_view, same_task};

verus! {

/// Some task of `s` has id `id`.
pub open spec fn has_task(s: Seq<Task>, id: Seq<char>) -> bool {
    exists|i: int| 0 <= i < s.len() && s[i].id@ == id
}

/// The task stored under `id` in `s` is `t`: there is one, and every task of
/// `s` with that id is `t`.
pub open spec fn task_at(s: Seq<Task>, id: Seq<char>, t: Task) -> bool {
    &&& has_task(s, id)
    &&& forall|i: int| 0 <= i < s.len() && #[trigger] s[i].id@ == id ==> same_task(s[i], t)
}

/// The task stored under `parent`'s id in `s` is `parent` with `child`'s id
/// appended to its children.
pub open spec fn parent_gained_child(s: Seq<Task>, parent: Task, child: Task) -> bool {
    exists|p: Task|
        #[trigger] task_at(s, parent.id@, p) && p.children_ids@ == parent.children_ids@.push(child.id) && p.title == parent.title
            && p.status == parent.status && p.priority == parent.priority
}

/// What a read of a task store gives back is what the last write of that id
/// stored: two tasks that are both the one stored under `id` are the same.
pub proof fn law_get_returns_stored(s: Seq<Task>, id: Seq<char>, stored: Task, read: Task)
    requires
        task_at(s, id, stored),
        task_at(s, id, read),
    ensures
        same_task(read, stored),
{
    let i = choose|i: int| 0 <= i < s.len() && s[i].id@ == id;
    assert(same_task(s[i], stored));
    assert(same_task(s[i], read));
}

/// The tasks of `s` that match `f`, in order.
pub open spec fn filter_tasks(s: Seq<Task>, f: TaskFilter) -> Seq<Task>
    decreases s.len(),
{
    if s.len() == 0 {
        Seq::empty()
    } else {
        filter_tasks(s.drop_last(), f) + if matches_filter(s.last(), f) {
            seq![s.last()]
        } else {
            Seq::empty()
        }
    }
}

/// `n` is `t` with the fields of `u` applied and the update time `now`.
pub open spec fn updated_with(t: Task, u: TaskUpdate, n: Task, now: Seq<char>) -> bool {
    &&& n.id == t.id
    &&& n.title@ == (match u.title { Some(x) => x@, None => t.title@ })
    &&& n.description == (match u.description { Some(x) => x, None => t.description })
    &&& n.status == t.status
    &&& n.priority == (match u.priority { Some(x) => x, None => t.priority })
    &&& n.source == t.source
    &&& n.parent_id == t.parent_id
    &&& n.children_ids@ == t.children_ids@
    &&& n.due_date == (match u.due_date { Some(x) => x, None => t.due_date })
    &&& n.tags@ == (match u.tags { Some(x) => x@, None => t.tags@ })
    &&& n.created_at == t.created_at
    &&& n.updated_at@ == now
    &&& n.completed_at == t.completed_at
    &&& n.feishu_task_id == (match u.feishu_task_id { Some(x) => x, None => t.feishu_task_id })
    &&& n.obsidian_path == (match u.obsidian_path { Some(x) => x, None => t.obsidian_path })
}

/// The store of tasks, keyed by id.
pub struct TaskManager {
    tasks: Vec<Task>,
}

impl TaskManager {
    #[verifier::type_invariant]
    spec fn ids_distinct(self) -> bool {
        forall|i: int, j: int| 0 <= i < j < self.tasks@.len() ==> self.tasks@[i].id@ != self.tasks@[j].id@
    }

    /// The stored tasks.
    pub closed spec fn view(self) -> Seq<Task> {
        self.tasks@
    }

    pub fn new() -> (m: Self)
        ensures
            m@ == Seq::<Task>::empty(),
    {
        TaskManager { tasks: Vec::new() }
    }

    fn position(&self, id: &str) -> (r: Option<usize>)
        ensures
            r matches Some(i) ==> i < self@.len() && self@[i as int].id@ == id@,
            r is None ==> !has_task(self@, id@),
    {
        let mut i: usize = 0;
        while i < self.tasks.len()
            invariant
                i <= self.tasks@.len(),
                forall|k: int| 0 <= k < i ==> self.tasks@[k].id@ != id@,
            decreases self.tasks.len() - i,
        {
            if crate::text::str_eq(self.tasks[i].id.as_str(), id) {
                return Some(i);
            }
            i = i + 1;
        }
        None
    }

    /// Stores `t`, replacing the task with the same id if there is one.
    fn put(&mut self, t: Task)
        ensures
            has_task(old(self)@, t.id@) ==> exists|i: int| 0 <= i < old(self)@.len() && old(self)@[i].id@ == t.id@ && final(self)@ == old(self)@.update(i, t),
            !has_task(old(self)@, t.id@) ==> final(self)@ == old(self)@.push(t),
            task_at(final(self)@, t.id@, t),
    {
        proof { use_type_invariant(&*self); }
        let ghost old_tasks = self.tasks@;
        let ghost tv = t;
        match self.position(t.id.as_str()) {
            Some(i) => {
                let mut tasks: Vec<Task> = Vec::new();
                std::mem::swap(&mut tasks, &mut self.tasks);
                tasks.set(i, t);
                assert forall|a: int, b: int| 0 <= a < b < tasks@.len() implies tasks@[a].id@ != tasks@[b].id@ by {
                    if a == i {
                        assert(old_tasks[a].id@ == tv.id@);
                    }
                    if b == i {
                        assert(old_tasks[b].id@ == tv.id@);
                    }
                }
                self.tasks = tasks;
            },
            None => {
                let mut tasks: Vec<Task> = Vec::new();
                std::mem::swap(&mut tasks, &mut self.tasks);
                tasks.push(t);
                self.tasks = tasks;
            },
        }
        proof {
            let f = self.tasks@;
            if f.len() > old_tasks.len() {
                assert(f[old_tasks.len() as int].id@ == tv.id@);
            } else {
                let i = choose|i: int| 0 <= i < old_tasks.len() && old_tasks[i].id@ == tv.id@ && f == old_tasks.update(i, tv);
                assert(f[i].id@ == tv.id@);
                assert forall|k: int| 0 <= k < f.len() && #[trigger] f[k].id@ == tv.id@ implies same_task(f[k], tv) by {
                    if k != i {
                        assert(old_tasks[k].id@ == old_tasks[i].id@);
                    }
                }
            }
        }
    }

    /// Creates a task (see `create_task`) and stores it.
    pub fn create(&mut self, title: &str, priority: TaskPriority, source: TaskSource) -> (r: Result<Task, WbError>)
        ensures
            r matches Ok(t) && t.title@ == title@ && t.priority == priority && t.source == source
                && t.status == initial_status(source) && t.parent_id is None && t.children_ids@.len() == 0
                && has_task(final(self)@, t.id@),
            r is Ok,
            r matches Ok(t) ==> task_at(final(self)@, t.id@, t),
            forall|k: int| 0 <= k < old(self)@.len() && (r matches Ok(t) && old(self)@[k].id@ != t.id@) ==> final(self)@[k] == old(self)@[k],
            forall|x: Seq<char>| #[trigger] has_task(old(self)@, x) ==> has_task(final(self)@, x),
    {
        let t = create_task(title, priority, source);
        let c = copy_task(&t);
        let ghost old_tasks = self@;
        let ghost tv = t;
        self.put(t);
        proof {
            assert forall|x: Seq<char>| #[trigger] has_task(old_tasks, x) implies has_task(self@, x) by {
                let k = choose|k: int| 0 <= k < old_tasks.len() && old_tasks[k].id@ == x;
                if self@.len() > old_tasks.len() {
                    assert(self@[k].id@ == x);
                } else {
                    let i = choose|i: int| 0 <= i < old_tasks.len() && old_tasks[i].id@ == tv.id@ && self@ == old_tasks.update(i, tv);
                    if k == i {
                        assert(self@[i].id@ == x);
                    } else {
                        assert(self@[k].id@ == x);
                    }
                }
            }
            if self@.len() > old_tasks.len() {
                assert(self@[old_tasks.len() as int].id@ == c.id@);
            } else {
                let i = choose|i: int| 0 <= i < old_tasks.len() && old_tasks[i].id@ == tv.id@ && self@ == old_tasks.update(i, tv);
                assert(self@[i].id@ == c.id@);
            }
        }
        Ok(c)
    }

    fn not_found(prefix: &str, id: &str) -> (e: WbError)
        ensures
            e is NotFound && e.message() == prefix@ + id@,
    {
        let mut m = String::from_str(prefix);
        crate::text::append_str(&mut m, id);
        WbError::NotFound(m)
    }

    /// Applies `update` to task `id`; fails when there is no such task.
    pub fn update(&mut self, id: &str, update: TaskUpdate) -> (r: Result<Task, WbError>)
        ensures
            r is Ok == has_task(old(self)@, id@),
            r matches Err(e) ==> e is NotFound && e.message() == "任务不存在: "@ + id@ && final(self)@ == old(self)@,
            r matches Ok(n) ==> exists|i: int| 0 <= i < old(self)@.len() && old(self)@[i].id@ == id@
                && updated_with(old(self)@[i], update, n, n.updated_at@) && final(self)@.len() == old(self)@.len()
                && same_task(final(self)@[i], n) && forall|k: int| 0 <= k < old(self)@.len() && k != i ==> final(self)@[k] == old(self)@[k],
            r matches Ok(n) ==> task_at(final(self)@, id@, n),
    {
        proof { use_type_invariant(&*self); }
        let ghost old_tasks = self@;
        let i = match self.position(id) {
            Some(i) => i,
            None => {
                return Err(Self::not_found("任务不存在: ", id));
            },
        };
        let t = &self.tasks[i];
        let title = match &update.title {
            Some(x) => x.clone(),
            None => t.title.clone(),
        };
        let description = match &update.description {
            Some(x) => copy_opt(x),
            None => copy_opt(&t.description),
        };
        let priority = match update.priority {
            Some(x) => x,
            None => t.priority,
        };
        let due_date = match &update.due_date {
            Some(x) => copy_opt(x),
            None => copy_opt(&t.due_date),
        };
        let tags = match &update.tags {
            Some(x) => copy_strings(x),
            None => copy_strings(&t.tags),
        };
        let feishu_task_id = match &update.feishu_task_id {
            Some(x) => copy_opt(x),
            None => copy_opt(&t.feishu_task_id),
        };
        let obsidian_path = match &update.obsidian_path {
            Some(x) => copy_opt(x),
            None => copy_opt(&t.obsidian_path),
        };
        let n = Task {
            id: t.id.clone(),
            title,
            description,
            status: t.status,
            priority,
            source: t.source,
            parent_id: copy_opt(&t.parent_id),
            children_ids: copy_strings(&t.children_ids),
            due_date,
            tags,
            created_at: t.created_at.clone(),
            updated_at: crate::clock::now_rfc3339(),
            completed_at: copy_opt(&t.completed_at),
            feishu_task_id,
            obsidian_path,
        };
        let c = copy_task(&n);
        self.put(n);
        proof {
            assert(has_task(old_tasks, id@));
        }
        Ok(c)
    }

    /// Moves task `id` to `new_status` (see `lifecycle::transition`).
    pub fn transition(&mut self, id: &str, new_status: TaskStatus) -> (r: Result<Task, WbError>)
        ensures
            !has_task(old(self)@, id@) ==> (r matches Err(e) && e is NotFound && e.message() == "任务不存在: "@ + id@),
            r is Err ==> final(self)@ == old(self)@,
            has_task(old(self)@, id@) ==> exists|i: int| 0 <= i < old(self)@.len() && old(self)@[i].id@ == id@ && {
                &&& r is Ok == valid_transition(old(self)@[i].status, new_status)
                &&& r matches Err(e) ==> e is Ai && e.message() == transition_error(old(self)@[i].status, new_status)
                &&& r matches Ok(n) ==> transitioned(old(self)@[i], n, new_status, n.updated_at@)
                    && final(self)@.len() == old(self)@.len() && same_task(final(self)@[i], n)
                    && forall|k: int| 0 <= k < old(self)@.len() && k != i ==> final(self)@[k] == old(self)@[k]
            },
            r matches Ok(n) ==> task_at(final(self)@, id@, n),
    {
        proof { use_type_invariant(&*self); }
        let i = match self.position(id) {
            Some(i) => i,
            None => {
                return Err(Self::not_found("任务不存在: ", id));
            },
        };
        let n = lifecycle_transition(&self.tasks[i], new_status)?;
        let c = copy_task(&n);
        self.put(n);
        Ok(c)
    }

    /// Archives task `id` (legal only from `Done`; see `transition`).
    pub fn archive(&mut self, id: &str) -> (r: Result<Task, WbError>)
        ensures
            !has_task(old(self)@, id@) ==> (r matches Err(e) && e is NotFound && e.message() == "任务不存在: "@ + id@),
            r is Err ==> final(self)@ == old(self)@,
            has_task(old(self)@, id@) ==> exists|i: int| 0 <= i < old(self)@.len() && old(self)@[i].id@ == id@ && {
                &&& r is Ok == (old(self)@[i].status == TaskStatus::Done)
                &&& r matches Err(e) ==> e is Ai && e.message() == transition_error(old(self)@[i].status, TaskStatus::Archived)
                &&& r matches Ok(n) ==> transitioned(old(self)@[i], n, TaskStatus::Archived, n.updated_at@)
                    && final(self)@.len() == old(self)@.len() && same_task(final(self)@[i], n)
                    && forall|k: int| 0 <= k < old(self)@.len() && k != i ==> final(self)@[k] == old(self)@[k]
            },
            r matches Ok(n) ==> task_at(final(self)@, id@, n),
    {
        self.transition(id, TaskStatus::Archived)
    }

    /// Adds a subtask `title` under task `parent_id` (see `hierarchy::add_subtask`)
    /// and stores both the updated parent and the child.
    pub fn add_subtask(&mut self, parent_id: &str, title: &str) -> (r: Result<Task, WbError>)
        ensures
            !has_task(old(self)@, parent_id@) ==> (r matches Err(e) && e is NotFound && e.message() == "父任务不存在: "@ + parent_id@),
            r is Err ==> final(self)@ == old(self)@,
            has_task(old(self)@, parent_id@) ==> exists|i: int| 0 <= i < old(self)@.len() && old(self)@[i].id@ == parent_id@ && {
                &&& r is Ok == (old(self)@[i].status != TaskStatus::Archived)
                &&& r matches Ok(c) ==> c.title@ == title@ && c.status == TaskStatus::Open
                    && c.priority == old(self)@[i].priority && c.source == old(self)@[i].source
                    && (c.parent_id matches Some(p) && p@ == parent_id@)
                    && has_task(final(self)@, c.id@)
                    && (c.id@ != parent_id@ ==> parent_gained_child(final(self)@, old(self)@[i], c))
            },
            r matches Ok(c) ==> task_at(final(self)@, c.id@, c),
    {
        proof { use_type_invariant(&*self); }
        let i = match self.position(parent_id) {
            Some(i) => i,
            None => {
                return Err(Self::not_found("父任务不存在: ", parent_id));
            },
        };
        let (parent, child) = add_subtask(&self.tasks[i], title)?;
        let c = copy_task(&child);
        let ghost pv = parent;
        let ghost old_tasks = self@;
        self.put(parent);
        let ghost mid = self@;
        let ghost cv = child;
        self.put(child);
        proof {
            if self@.len() > mid.len() {
                assert(self@[mid.len() as int].id@ == c.id@);
            } else {
                let k = choose|k: int| 0 <= k < mid.len() && mid[k].id@ == cv.id@ && self@ == mid.update(k, cv);
                assert(self@[k].id@ == c.id@);
            }
            if c.id@ != parent_id@ {
                let q = choose|q: int| 0 <= q < mid.len() && mid[q].id@ == pv.id@;
                assert(self@[q] == mid[q]);
                assert forall|j: int| 0 <= j < self@.len() && #[trigger] self@[j].id@ == parent_id@ implies same_task(self@[j], pv) by {
                    if j < mid.len() {
                        assert(self@[j] == mid[j]);
                    }
                }
                assert(task_at(self@, parent_id@, pv));
                assert(parent_gained_child(self@, old_tasks[i as int], c));
            }
        }
        Ok(c)
    }

    /// The task with id `id`, if stored.
    pub fn get(&self, id: &str) -> (r: Result<Option<Task>, WbError>)
        ensures
            r matches Ok(o) && (o is Some == has_task(self@, id@)),
            r matches Ok(Some(t)) ==> exists|i: int| 0 <= i < self@.len() && self@[i].id@ == id@ && same_task(t, self@[i]),
            r matches Ok(Some(t)) ==> task_at(self@, id@, t),
    {
        proof { use_type_invariant(self); }
        match self.position(id) {
            Some(i) => Ok(Some(copy_task(&self.tasks[i]))),
            None => Ok(None),
        }
    }

    /// The stored tasks matching `filter`.
    pub fn list(&self, filter: TaskFilter) -> (r: Result<Vec<Task>, WbError>)
        ensures
            r matches Ok(v) && v@.len() == filter_tasks(self@, filter).len() && forall|i: int|
                0 <= i < v@.len() ==> #[trigger] same_task(v@[i], filter_tasks(self@, filter)[i]),
    {
        let mut out: Vec<Task> = Vec::new();
        let mut i: usize = 0;
        while i < self.tasks.len()
            invariant
                i <= self.tasks@.len(),
                out@.len() == filter_tasks(self.tasks@.take(i as int), filter).len(),
                forall|k: int| 0 <= k < out@.len() ==> #[trigger] same_task(out@[k], filter_tasks(self.tasks@.take(i as int), filter)[k]),
            decreases self.tasks.len() - i,
        {
            proof {
                assert(self.tasks@.take(i + 1).drop_last() =~= self.tasks@.take(i as int));
            }
            if Self::matches(&self.tasks[i], &filter) {
                out.push(copy_task(&self.tasks[i]));
            }
            i = i + 1;
        }
        assert(self.tasks@.take(self.tasks@.len() as int) =~= self.tasks@);
        Ok(out)
    }

    fn matches(t: &Task, f: &TaskFilter) -> (r: bool)
        ensures
            r == matches_filter(*t, *f),
    {
        let s_ok = match f.status {
            Some(s) => t.status == s,
            None => true,
        };
        let p_ok = match f.priority {
            Some(p) => t.priority == p,
            None => true,
        };
        let src_ok = match f.source {
            Some(s) => t.source == s,
            None => true,
        };
        let parent_ok = match &f.parent_id {
            Some(p) => match (&t.parent_id, p) {
                (Some(a), Some(b)) => crate::text::str_eq(a.as_str(), b.as_str()),
                (None, None) => true,
                _ => false,
            },
            None => true,
        };
        s_ok && p_ok && src_ok && parent_ok
    }

    /// The stored tasks with status `status`.
    pub fn list_by_status(&self, status: TaskStatus) -> (r: Result<Vec<Task>, WbError>)
        ensures
            r matches Ok(v) && v@.len() == filter_tasks(self@, TaskFilter { status: Some(status), priority: None, source: None, parent_id: None }).len()
                && forall|i: int| 0 <= i < v@.len() ==> #[trigger] same_task(v@[i], filter_tasks(self@, TaskFilter { status: Some(status), priority: None, source: None, parent_id: None })[i]),
    {
        self.list(TaskFilter { status: Some(status), priority: None, source: None, parent_id: None })
    }
}

impl Default for TaskManager {
    fn default() -> (m: Self)
        ensures
            m@ == Seq::<Task>::empty(),
    {
        Self::new()
    }
}

} // verus!
