//! The scheduler's decisions: the task registry, which tasks a tick runs,
//! how a run is recorded, and the retry policy.  The asynchronous loop that
//! sleeps, executes tasks and calls back lives outside the library and
//! drives these functions.
use vstd::prelude::*;
use crate::scheduler::dependency::{DependencyGraph, str_set};
use crate::scheduler::resource::{Priority, defers, should_defer};
use crate::scheduler::task::{TaskLayer, TaskResult, TaskStatus, layer_name};

verus! {

/// A registered task and its runtime state.
pub struct TaskEntry {
    pub id: String,
    pub name: String,
    pub layer: TaskLayer,
    pub cron: String,
    pub sla_ms: u64,
    pub retry_limit: u32,
    pub interval_secs: u64,
    pub priority: Priority,
    pub last_run_ms: Option<i64>,
    pub last_status: Option<TaskStatus>,
    pub last_result: Option<TaskResult>,
}

/// Information about a registered task.
pub struct TaskInfo {
    pub id: String,
    pub name: String,
    pub layer: String,
    pub cron: String,
    pub sla_ms: u64,
    pub interval_secs: u64,
    pub last_run_ms: Option<i64>,
    pub last_status: Option<TaskStatus>,
}

/// What the retry loop does after an attempt.
#[derive(PartialEq, Eq, Structural, Clone, Copy, Debug)]
pub enum RetryDecision {
    /// The attempt succeeded: its result is final.
    Finish,
    /// The attempt failed and retries remain: sleep this many milliseconds.
    RetryAfterMs(u64),
    /// The attempt failed and no retry remains: its result is final.
    GiveUp,
}

/// The retry policy: success ends the loop; a failed attempt `attempt` (0-based)
/// is retried after `100 * (attempt + 1)` ms while `attempt < retry_limit`.
pub open spec fn retry_decision_spec(attempt: u32, retry_limit: u32, status: TaskStatus) -> RetryDecision {
    if status == TaskStatus::Success {
        RetryDecision::Finish
    } else if attempt < retry_limit {
        RetryDecision::RetryAfterMs((100 * (attempt + 1)) as u64)
    } else {
        RetryDecision::GiveUp
    }
}

pub fn retry_decision(attempt: u32, retry_limit: u32, status: TaskStatus) -> (r: RetryDecision)
    ensures
        r == retry_decision_spec(attempt, retry_limit, status),
{
    if status == TaskStatus::Success {
        RetryDecision::Finish
    } else if attempt < retry_limit {
        RetryDecision::RetryAfterMs(100 * (attempt as u64 + 1))
    } else {
        RetryDecision::GiveUp
    }
}

/// The retry loop ends within `retry_limit + 1` attempts, and each wait is
/// longer than the one before.
pub proof fn lemma_retry_bounded(attempt: u32, retry_limit: u32, status: TaskStatus)
    ensures
        attempt >= retry_limit ==> !(retry_decision_spec(attempt, retry_limit, status) is RetryAfterMs),
        (attempt + 1 < retry_limit && status != TaskStatus::Success) ==> (
        retry_decision_spec(attempt, retry_limit, status) matches RetryDecision::RetryAfterMs(a)
            && retry_decision_spec((attempt + 1) as u32, retry_limit, status) matches RetryDecision::RetryAfterMs(b)
            && a < b),
{
}

/// Seconds elapsed from `last_ms` to `now_ms`, never negative.
pub open spec fn elapsed_secs(last_ms: i64, now_ms: i64) -> int {
    if now_ms >= last_ms {
        (now_ms - last_ms) / 1000
    } else {
        0
    }
}

/// A task is due when it never ran, when its interval has elapsed since its last
/// run, or (otherwise) when its cron schedule says so.
pub open spec fn task_due(last_run_ms: Option<i64>, now_ms: i64, interval_secs: u64, cron_due: bool) -> bool {
    match last_run_ms {
        None => true,
        Some(last) => elapsed_secs(last, now_ms) >= interval_secs || cron_due,
    }
}

pub fn is_task_due(last_run_ms: Option<i64>, now_ms: i64, interval_secs: u64, cron_due: bool) -> (r: bool)
    ensures
        r == task_due(last_run_ms, now_ms, interval_secs, cron_due),
{
    match last_run_ms {
        None => true,
        Some(last) => {
            let diff: i128 = now_ms as i128 - last as i128;
            let elapsed: i128 = if diff >= 0 { diff / 1000 } else { 0 };
            elapsed >= interval_secs as i128 || cron_due
        },
    }
}

/// The result recorded for an attempt that exceeded the SLA.
pub open spec fn timeout_summary(sla_ms: u64) -> Seq<char> {
    "Task timed out after "@ + crate::text::decimal(sla_ms as nat) + "ms"@
}

/// Builds the result of an attempt that exceeded its SLA.
pub fn timeout_result(task_id: &str, task_name: &str, sla_ms: u64, started_at_ms: i64, finished_at_ms: i64, retry_count: u32) -> (r: TaskResult)
    ensures
        r.task_id@ == task_id@,
        r.task_name@ == task_name@,
        r.status == TaskStatus::Timeout,
        r.started_at_ms == started_at_ms,
        r.finished_at_ms == finished_at_ms,
        r.duration_ms == if finished_at_ms >= started_at_ms { finished_at_ms - started_at_ms } else { 0 },
        r.summary@ == timeout_summary(sla_ms),
        r.error matches Some(e) && e@ == "execution exceeded SLA timeout"@,
        r.retry_count == retry_count,
{
    let duration: u64 = if finished_at_ms >= started_at_ms {
        (finished_at_ms as i128 - started_at_ms as i128) as u64
    } else {
        0
    };
    let mut summary = String::from_str("Task timed out after ");
    crate::text::push_decimal(&mut summary, sla_ms);
    crate::text::append_str(&mut summary, "ms");
    TaskResult {
        task_id: String::from_str(task_id),
        task_name: String::from_str(task_name),
        status: TaskStatus::Timeout,
        started_at_ms,
        finished_at_ms,
        duration_ms: duration,
        summary,
        error: Some(String::from_str("execution exceeded SLA timeout")),
        retry_count,
    }
}

/// An exact copy of an optional string.
pub fn copy_opt_string(s: &Option<String>) -> (r: Option<String>)
    ensures
        r == *s,
{
    match s {
        Some(x) => Some(x.clone()),
        None => None,
    }
}

/// An exact copy of a task result.
pub fn copy_result(t: &TaskResult) -> (r: TaskResult)
    ensures
        r == *t,
{
    TaskResult {
        task_id: t.task_id.clone(),
        task_name: t.task_name.clone(),
        status: t.status,
        started_at_ms: t.started_at_ms,
        finished_at_ms: t.finished_at_ms,
        duration_ms: t.duration_ms,
        summary: t.summary.clone(),
        error: copy_opt_string(&t.error),
        retry_count: t.retry_count,
    }
}

/// The result an attempt produced, stamped with its attempt number.
pub fn with_retry_count(t: TaskResult, attempt: u32) -> (r: TaskResult)
    ensures
        r == (TaskResult { retry_count: attempt, ..t }),
{
    let mut r = t;
    r.retry_count = attempt;
    r
}

/// The registry and gates of the scheduler.
pub struct SchedulerCore {
    tasks: Vec<TaskEntry>,
    paused: bool,
    graph: DependencyGraph,
    budget: u32,
}

/// Some entry of `t` has id `k`.
pub open spec fn has_id(t: Seq<TaskEntry>, k: Seq<char>) -> bool {
    exists|i: int| 0 <= i < t.len() && t[i].id@ == k
}

/// No two entries of `t` share an id.
pub open spec fn ids_unique(t: Seq<TaskEntry>) -> bool {
    forall|i: int, j: int| 0 <= i < j < t.len() ==> t[i].id@ != t[j].id@
}

/// The entries of `t` keyed by id.
pub open spec fn registry_of(t: Seq<TaskEntry>) -> Map<Seq<char>, TaskEntry> {
    Map::new(|k: Seq<char>| has_id(t, k), |k: Seq<char>| t[choose|i: int| 0 <= i < t.len() && t[i].id@ == k])
}

pub proof fn lemma_registry_at(t: Seq<TaskEntry>, i: int)
    requires
        ids_unique(t),
        0 <= i < t.len(),
    ensures
        registry_of(t).contains_key(t[i].id@),
        registry_of(t)[t[i].id@] == t[i],
{
    let k = t[i].id@;
    assert(has_id(t, k));
    let j = choose|j: int| 0 <= j < t.len() && t[j].id@ == k;
    if j < i {
        assert(t[j].id@ != t[i].id@);
    } else if i < j {
        assert(t[i].id@ != t[j].id@);
    }
}

/// `new` is `old` with a fresh entry registered under `id` (replacing any entry
/// of that id) and everything else unchanged.
pub open spec fn registers(
    old: SchedulerCore,
    new: SchedulerCore,
    id: Seq<char>,
    name: Seq<char>,
    layer: TaskLayer,
    cron: Seq<char>,
    sla_ms: u64,
    retry_limit: u32,
    interval_secs: u64,
    priority: Priority,
) -> bool {
    &&& new.registry().contains_key(id)
    &&& new.registry()[id].id@ == id
    &&& new.registry()[id].name@ == name
    &&& new.registry()[id].layer == layer
    &&& new.registry()[id].cron@ == cron
    &&& new.registry()[id].sla_ms == sla_ms
    &&& new.registry()[id].retry_limit == retry_limit
    &&& new.registry()[id].interval_secs == interval_secs
    &&& new.registry()[id].priority == priority
    &&& new.registry()[id].last_run_ms is None
    &&& new.registry()[id].last_status is None
    &&& new.registry()[id].last_result is None
    &&& forall|k: Seq<char>| k != id ==> (#[trigger] new.registry().contains_key(k) == old.registry().contains_key(k))
    &&& forall|k: Seq<char>| k != id && old.registry().contains_key(k) ==> #[trigger] new.registry()[k] == old.registry()[k]
    &&& new.is_paused_spec() == old.is_paused_spec()
    &&& new.budget_spec() == old.budget_spec()
}

/// Ids of the tasks whose last run succeeded.
pub open spec fn completed_ids(tasks: Seq<TaskEntry>) -> Set<Seq<char>> {
    Set::new(|x: Seq<char>| exists|i: int| 0 <= i < tasks.len() && tasks[i].id@ == x && tasks[i].last_status == Some(TaskStatus::Success))
}

/// `g` lets `id` run once the tasks in `done` have completed.
pub open spec fn deps_met(g: Map<Seq<char>, Set<Seq<char>>>, id: Seq<char>, done: Set<Seq<char>>) -> bool {
    !g.contains_key(id) || g[id].subset_of(done)
}

impl SchedulerCore {
    #[verifier::type_invariant]
    spec fn ids_distinct(self) -> bool {
        forall|i: int, j: int| 0 <= i < j < self.tasks@.len() ==> self.tasks@[i].id@ != self.tasks@[j].id@
    }

    /// The registered tasks, in registration order.
    pub closed spec fn entries(self) -> Seq<TaskEntry> {
        self.tasks@
    }

    pub closed spec fn is_paused_spec(self) -> bool {
        self.paused
    }

    pub closed spec fn budget_spec(self) -> u32 {
        self.budget
    }

    pub closed spec fn deps(self) -> Map<Seq<char>, Set<Seq<char>>> {
        self.graph.view()
    }

    /// The registry as a map from id to entry.
    pub open spec fn registry(self) -> Map<Seq<char>, TaskEntry> {
        registry_of(self.entries())
    }

    /// Whether entry `i` runs on a tick at `now_ms`, given its cron flag.
    pub open spec fn runs_on_tick(self, i: int, now_ms: i64, cron_due: bool) -> bool {
        let e = self.entries()[i];
        &&& task_due(e.last_run_ms, now_ms, e.interval_secs, cron_due)
        &&& deps_met(self.deps(), e.id@, completed_ids(self.entries()))
        &&& !defers(e.priority, self.budget_spec())
    }

    /// The ids a tick runs among the first `n` entries, in order.
    pub open spec fn tick_plan(self, n: int, now_ms: i64, cron_due: Seq<bool>) -> Seq<Seq<char>>
        decreases n,
    {
        if n <= 0 {
            Seq::empty()
        } else {
            self.tick_plan(n - 1, now_ms, cron_due) + if self.runs_on_tick(n - 1, now_ms, cron_due[n - 1]) {
                seq![self.entries()[n - 1].id@]
            } else {
                Seq::empty()
            }
        }
    }

    /// The ids a tick at `now_ms` runs: none while paused, else the tick's
    /// plan over every entry.
    pub open spec fn tick_result(self, now_ms: i64, cron_due: Seq<bool>) -> Seq<Seq<char>> {
        if self.is_paused_spec() {
            Seq::empty()
        } else {
            self.tick_plan(self.entries().len() as int, now_ms, cron_due)
        }
    }

    proof fn lemma_tick_plan_member(self, n: int, now_ms: i64, cron_due: Seq<bool>, id: Seq<char>)
        requires
            n <= self.entries().len(),
        ensures
            self.tick_plan(n, now_ms, cron_due).contains(id) ==> exists|i: int|
                0 <= i < n && self.entries()[i].id@ == id && #[trigger] self.runs_on_tick(i, now_ms, cron_due[i]),
        decreases n,
    {
        if n > 0 {
            self.lemma_tick_plan_member(n - 1, now_ms, cron_due, id);
            let a = self.tick_plan(n - 1, now_ms, cron_due);
            let b = if self.runs_on_tick(n - 1, now_ms, cron_due[n - 1]) {
                seq![self.entries()[n - 1].id@]
            } else {
                Seq::empty()
            };
            if (a + b).contains(id) {
                let q = choose|q: int| 0 <= q < (a + b).len() && (a + b)[q] == id;
                if q < a.len() {
                    assert(a.contains(id));
                } else {
                    assert(b[q - a.len()] == id);
                    assert(self.runs_on_tick(n - 1, now_ms, cron_due[n - 1]));
                }
            }
        }
    }

    /// The gates of every tick: while paused a tick runs nothing (and only
    /// `resume_all` ends a pause: every other operation keeps it), and a
    /// task a tick runs is registered, due, not deferred by the budget, and
    /// every task it depends on last succeeded.
    pub proof fn law_tick_gates(self, now_ms: i64, cron_due: Seq<bool>, id: Seq<char>)
        ensures
            self.is_paused_spec() ==> self.tick_result(now_ms, cron_due).len() == 0,
            self.tick_result(now_ms, cron_due).contains(id) ==> !self.is_paused_spec() && exists|i: int|
                0 <= i < self.entries().len() && self.entries()[i].id@ == id && #[trigger] self.runs_on_tick(i, now_ms, cron_due[i])
                    && deps_met(self.deps(), id, completed_ids(self.entries())),
    {
        self.lemma_tick_plan_member(self.entries().len() as int, now_ms, cron_due, id);
    }

    /// An empty, running scheduler with a budget of 100.
    pub fn new() -> (s: Self)
        ensures
            s.entries() == Seq::<TaskEntry>::empty(),
            !s.is_paused_spec(),
            s.budget_spec() == 100,
            s.deps() == Map::<Seq<char>, Set<Seq<char>>>::empty(),
    {
        SchedulerCore { tasks: Vec::new(), paused: false, graph: DependencyGraph::new(), budget: 100 }
    }

    fn position(&self, id: &str) -> (r: Option<usize>)
        ensures
            r matches Some(i) ==> i < self.entries().len() && self.entries()[i as int].id@ == id@,
            r is None ==> forall|k: int| 0 <= k < self.entries().len() ==> self.entries()[k].id@ != id@,
    {
        let mut i: usize = 0;
        while i < self.tasks.len()
            invariant
                i <= self.tasks@.len(),
                forall|k: int| 0 <= k < i ==> self.tasks@[k].id@ != id@,
            decreases self.tasks.len() - i,
        {
            if crate::text::str_eq(self.tasks[i].id.as_str(), id) {
                return Some(i);
            }
            i = i + 1;
        }
        None
    }

    /// Registers a task (replacing one registered under the same id) with no
    /// run history.
    pub fn register_with_priority(
        &mut self,
        id: &str,
        name: &str,
        layer: TaskLayer,
        cron: &str,
        sla_ms: u64,
        retry_limit: u32,
        interval_secs: u64,
        priority: Priority,
    )
        ensures
            registers(*old(self), *final(self), id@, name@, layer, cron@, sla_ms, retry_limit, interval_secs, priority),
            final(self).deps() == old(self).deps(),
    {
        proof { use_type_invariant(&*self); }
        let e = TaskEntry {
            id: String::from_str(id),
            name: String::from_str(name),
            layer,
            cron: String::from_str(cron),
            sla_ms,
            retry_limit,
            interval_secs,
            priority,
            last_run_ms: None,
            last_status: None,
            last_result: None,
        };
        let ghost old_tasks = self.tasks@;
        let ghost ev = e;
        let ghost mut pidx: int = 0;
        match self.position(id) {
            Some(i) => {
                let mut tasks: Vec<TaskEntry> = Vec::new();
                std::mem::swap(&mut tasks, &mut self.tasks);
                tasks.set(i, e);
                proof { pidx = i as int; }
                assert forall|a: int, b: int| 0 <= a < b < tasks@.len() implies tasks@[a].id@ != tasks@[b].id@ by {
                    if a == i {
                        assert(old_tasks[a].id@ == id@);
                    }
                    if b == i {
                        assert(old_tasks[b].id@ == id@);
                    }
                }
                self.tasks = tasks;
            },
            None => {
                let mut tasks: Vec<TaskEntry> = Vec::new();
                std::mem::swap(&mut tasks, &mut self.tasks);
                tasks.push(e);
                proof { pidx = old_tasks.len() as int; }
                self.tasks = tasks;
            },
        }
        proof {
            let t = self.tasks@;
            assert(ids_unique(t));
            assert(ids_unique(old_tasks));
            assert forall|k: Seq<char>| #[trigger] has_id(t, k) <==> (k == id@ || has_id(old_tasks, k)) by {
                if has_id(old_tasks, k) {
                    let i = choose|i: int| 0 <= i < old_tasks.len() && old_tasks[i].id@ == k;
                    if t[i].id@ != k {
                        assert(k == id@);
                    }
                }
                if k == id@ {
                    if t.len() > old_tasks.len() {
                        assert(t[old_tasks.len() as int].id@ == k);
                    } else {
                        let i = choose|i: int| 0 <= i < old_tasks.len() && old_tasks[i].id@ == id@;
                        assert(t[i].id@ == k);
                    }
                }
                if has_id(t, k) && k != id@ {
                    let i = choose|i: int| 0 <= i < t.len() && t[i].id@ == k;
                    assert(old_tasks[i].id@ == k);
                }
            }
            lemma_registry_at(t, pidx);
            assert forall|k: Seq<char>| k != id@ && has_id(old_tasks, k) implies #[trigger] registry_of(t)[k] == registry_of(old_tasks)[k] by {
                let i = choose|i: int| 0 <= i < old_tasks.len() && old_tasks[i].id@ == k;
                lemma_registry_at(old_tasks, i);
                assert(t[i] == old_tasks[i]);
                lemma_registry_at(t, i);
            }
        }
    }

    /// Registers a task with the default 60-second interval and priority `P2`.
    pub fn register(&mut self, id: &str, name: &str, layer: TaskLayer, cron: &str, sla_ms: u64, retry_limit: u32)
        ensures
            registers(*old(self), *final(self), id@, name@, layer, cron@, sla_ms, retry_limit, 60, Priority::P2),
            final(self).deps() == old(self).deps(),
    {
        self.register_with_interval(id, name, layer, cron, sla_ms, retry_limit, 60);
    }

    /// Registers a task with a custom interval and priority `P2`.
    pub fn register_with_interval(&mut self, id: &str, name: &str, layer: TaskLayer, cron: &str, sla_ms: u64, retry_limit: u32, interval_secs: u64)
        ensures
            registers(*old(self), *final(self), id@, name@, layer, cron@, sla_ms, retry_limit, interval_secs, Priority::P2),
            final(self).deps() == old(self).deps(),
    {
        self.register_with_priority(id, name, layer, cron, sla_ms, retry_limit, interval_secs, Priority::P2);
    }

    /// Registers a task together with its dependencies.
    pub fn register_with_deps(
        &mut self,
        id: &str,
        name: &str,
        layer: TaskLayer,
        cron: &str,
        sla_ms: u64,
        retry_limit: u32,
        interval_secs: u64,
        depends_on: Vec<&str>,
        priority: Priority,
    )
        ensures
            registers(*old(self), *final(self), id@, name@, layer, cron@, sla_ms, retry_limit, interval_secs, priority),
            final(self).deps() == old(self).deps().insert(
                id@,
                if old(self).deps().contains_key(id@) {
                    old(self).deps()[id@]
                } else {
                    Set::empty()
                }.union(str_set(depends_on@)),
            ),
    {
        proof { use_type_invariant(&*self); }
        let mut g = DependencyGraph::new();
        std::mem::swap(&mut g, &mut self.graph);
        g.add_task(id, depends_on);
        self.graph = g;
        self.register_with_priority(id, name, layer, cron, sla_ms, retry_limit, interval_secs, priority);
    }

    /// Sets the resource budget.
    pub fn set_budget(&mut self, budget: u32)
        ensures
            final(self).budget_spec() == budget,
            final(self).entries() == old(self).entries(),
            final(self).is_paused_spec() == old(self).is_paused_spec(),
            final(self).deps() == old(self).deps(),
    {
        proof { use_type_invariant(&*self); }
        self.budget = budget;
    }

    /// The resource budget.
    pub fn budget(&self) -> (r: u32)
        ensures
            r == self.budget_spec(),
    {
        self.budget
    }

    /// Unregisters a task; `true` when it was registered.
    pub fn unregister(&mut self, id: &str) -> (r: bool)
        ensures
            r == old(self).registry().contains_key(id@),
            final(self).registry() == old(self).registry().remove(id@),
            final(self).is_paused_spec() == old(self).is_paused_spec(),
            final(self).budget_spec() == old(self).budget_spec(),
            final(self).deps() == old(self).deps(),
    {
        proof { use_type_invariant(&*self); }
        let ghost old_tasks = self.tasks@;
        match self.position(id) {
            Some(i) => {
                let mut tasks: Vec<TaskEntry> = Vec::new();
                std::mem::swap(&mut tasks, &mut self.tasks);
                let _removed = tasks.remove(i);
                proof {
                    let t = tasks@;
                    assert forall|a: int, b: int| 0 <= a < b < t.len() implies t[a].id@ != t[b].id@ by {
                        if a < i && b >= i {
                            assert(t[b] == old_tasks[b + 1]);
                        } else if a >= i {
                            assert(t[a] == old_tasks[a + 1] && t[b] == old_tasks[b + 1]);
                        }
                    }
                }
                self.tasks = tasks;
                proof {
                    let t = self.tasks@;
                    let m = registry_of(old_tasks).remove(id@);
                    lemma_registry_at(old_tasks, i as int);
                    assert forall|k: Seq<char>| #[trigger] has_id(t, k) <==> m.contains_key(k) by {
                        if has_id(t, k) {
                            let a = choose|a: int| 0 <= a < t.len() && t[a].id@ == k;
                            if a < i {
                                assert(old_tasks[a].id@ == k);
                                assert(a != i);
                            } else {
                                assert(old_tasks[a + 1].id@ == k);
                            }
                        }
                        if m.contains_key(k) {
                            let a = choose|a: int| 0 <= a < old_tasks.len() && old_tasks[a].id@ == k;
                            if a < i {
                                assert(t[a].id@ == k);
                            } else {
                                assert(t[a - 1].id@ == k);
                            }
                        }
                    }
                    assert forall|k: Seq<char>| m.contains_key(k) implies #[trigger] registry_of(t)[k] == m[k] by {
                        let a = choose|a: int| 0 <= a < old_tasks.len() && old_tasks[a].id@ == k;
                        lemma_registry_at(old_tasks, a);
                        if a < i {
                            lemma_registry_at(t, a);
                        } else {
                            lemma_registry_at(t, a - 1);
                        }
                    }
                    assert(registry_of(t) =~= m);
                }
                true
            },
            None => {
                proof {
                    assert(registry_of(old_tasks).remove(id@) =~= registry_of(old_tasks));
                }
                false
            },
        }
    }

    /// Pauses all task execution.
    pub fn pause_all(&mut self)
        ensures
            final(self).is_paused_spec(),
            final(self).entries() == old(self).entries(),
            final(self).budget_spec() == old(self).budget_spec(),
            final(self).deps() == old(self).deps(),
    {
        proof { use_type_invariant(&*self); }
        self.paused = true;
    }

    /// Resumes task execution.
    pub fn resume_all(&mut self)
        ensures
            !final(self).is_paused_spec(),
            final(self).entries() == old(self).entries(),
            final(self).budget_spec() == old(self).budget_spec(),
            final(self).deps() == old(self).deps(),
    {
        proof { use_type_invariant(&*self); }
        self.paused = false;
    }

    pub fn is_paused(&self) -> (r: bool)
        ensures
            r == self.is_paused_spec(),
    {
        self.paused
    }

    /// The ids of all registered tasks, each once.
    pub fn list_tasks(&self) -> (r: Vec<String>)
        ensures
            r@.len() == self.entries().len(),
            forall|i: int| 0 <= i < r@.len() ==> #[trigger] r@[i]@ == self.entries()[i].id@,
    {
        let mut r: Vec<String> = Vec::new();
        let mut i: usize = 0;
        while i < self.tasks.len()
            invariant
                i <= self.tasks@.len(),
                r@.len() == i,
                forall|k: int| 0 <= k < i ==> #[trigger] r@[k]@ == self.tasks@[k].id@,
            decreases self.tasks.len() - i,
        {
            r.push(self.tasks[i].id.clone());
            i = i + 1;
        }
        r
    }

    /// Information about task `id`, if registered.
    pub fn get_task_info(&self, id: &str) -> (r: Option<TaskInfo>)
        ensures
            r is Some == self.registry().contains_key(id@),
            r matches Some(info) ==> {
                let e = self.registry()[id@];
                &&& info.id@ == e.id@
                &&& info.name@ == e.name@
                &&& info.layer@ == layer_name(e.layer)
                &&& info.cron@ == e.cron@
                &&& info.sla_ms == e.sla_ms
                &&& info.interval_secs == e.interval_secs
                &&& info.last_run_ms == e.last_run_ms
                &&& info.last_status == e.last_status
            },
    {
        proof { use_type_invariant(&*self); }
        match self.position(id) {
            Some(i) => {
                proof { lemma_registry_at(self.tasks@, i as int); }
                let e = &self.tasks[i];
                Some(TaskInfo {
                    id: e.id.clone(),
                    name: e.name.clone(),
                    layer: e.layer.to_string(),
                    cron: e.cron.clone(),
                    sla_ms: e.sla_ms,
                    interval_secs: e.interval_secs,
                    last_run_ms: e.last_run_ms,
                    last_status: e.last_status,
                })
            },
            None => None,
        }
    }

    /// The last result of task `id`, if registered and run.
    pub fn get_last_result(&self, id: &str) -> (r: Option<TaskResult>)
        ensures
            r == if self.registry().contains_key(id@) {
                self.registry()[id@].last_result
            } else {
                None
            },
    {
        proof { use_type_invariant(&*self); }
        match self.position(id) {
            Some(i) => {
                proof { lemma_registry_at(self.tasks@, i as int); }
                match &self.tasks[i].last_result {
                    Some(t) => Some(copy_result(t)),
                    None => None,
                }
            },
            None => None,
        }
    }

    fn completed_list(&self) -> (r: Vec<&str>)
        ensures
            str_set(r@) == completed_ids(self.entries()),
    {
        let mut r: Vec<&str> = Vec::new();
        let mut i: usize = 0;
        while i < self.tasks.len()
            invariant
                i <= self.tasks@.len(),
                forall|x: Seq<char>| #[trigger] str_set(r@).contains(x) <==> exists|k: int|
                    0 <= k < i && self.tasks@[k].id@ == x && self.tasks@[k].last_status == Some(TaskStatus::Success),
            decreases self.tasks.len() - i,
        {
            let ok = match self.tasks[i].last_status {
                Some(TaskStatus::Success) => true,
                _ => false,
            };
            if ok {
                let ghost before = r@;
                r.push(self.tasks[i].id.as_str());
                proof {
                    assert forall|x: Seq<char>| #[trigger] str_set(r@).contains(x) <==> exists|k: int|
                        0 <= k < i + 1 && self.tasks@[k].id@ == x && self.tasks@[k].last_status == Some(TaskStatus::Success) by {
                        if str_set(r@).contains(x) {
                            let q = choose|q: int| 0 <= q < r@.len() && r@[q]@ == x;
                            if q < before.len() {
                                assert(str_set(before).contains(x));
                            }
                        }
                        if exists|k: int| 0 <= k < i + 1 && self.tasks@[k].id@ == x && self.tasks@[k].last_status == Some(TaskStatus::Success) {
                            let k = choose|k: int| 0 <= k < i + 1 && self.tasks@[k].id@ == x && self.tasks@[k].last_status == Some(TaskStatus::Success);
                            if k < i {
                                assert(str_set(before).contains(x));
                                let q = choose|q: int| 0 <= q < before.len() && before[q]@ == x;
                                assert(r@[q]@ == x);
                            } else {
                                assert(r@[before.len() as int]@ == x);
                            }
                        }
                    }
                }
            } else {
                proof {
                    assert forall|x: Seq<char>| #[trigger] str_set(r@).contains(x) <==> exists|k: int|
                        0 <= k < i + 1 && self.tasks@[k].id@ == x && self.tasks@[k].last_status == Some(TaskStatus::Success) by {
                        if exists|k: int| 0 <= k < i + 1 && self.tasks@[k].id@ == x && self.tasks@[k].last_status == Some(TaskStatus::Success) {
                            let k = choose|k: int| 0 <= k < i + 1 && self.tasks@[k].id@ == x && self.tasks@[k].last_status == Some(TaskStatus::Success);
                            assert(k < i);
                        }
                    }
                }
            }
            i = i + 1;
        }
        proof {
            assert(str_set(r@) =~= completed_ids(self.entries()));
        }
        r
    }

    /// The ids of the tasks a tick at `now_ms` runs, in registration order:
    /// nothing while paused; otherwise each due task whose dependencies have
    /// all succeeded and whose priority the budget does not defer.
    /// `cron_due[i]` tells whether the cron schedule of the `i`-th task is due.
    pub fn plan_tick(&self, now_ms: i64, cron_due: &Vec<bool>) -> (r: Vec<String>)
        requires
            cron_due@.len() == self.entries().len(),
        ensures
            self.is_paused_spec() ==> r@.len() == 0,
            crate::scheduler::dependency::string_views(r@) == self.tick_result(now_ms, cron_due@),
            !self.is_paused_spec() ==> crate::scheduler::dependency::string_views(r@) == self.tick_plan(self.entries().len() as int, now_ms, cron_due@),
    {
        let mut r: Vec<String> = Vec::new();
        if self.paused {
            return r;
        }
        let completed = self.completed_list();
        let mut i: usize = 0;
        while i < self.tasks.len()
            invariant
                i <= self.tasks@.len(),
                cron_due@.len() == self.tasks@.len(),
                str_set(completed@) == completed_ids(self.entries()),
                crate::scheduler::dependency::string_views(r@) == self.tick_plan(i as int, now_ms, cron_due@),
            decreases self.tasks.len() - i,
        {
            let e = &self.tasks[i];
            let due = is_task_due(e.last_run_ms, now_ms, e.interval_secs, cron_due[i]);
            let runs = due && self.graph.can_run(e.id.as_str(), completed.as_slice()) && !should_defer(e.priority, self.budget);
            let ghost before = r@;
            if runs {
                r.push(e.id.clone());
            }
            proof {
                assert(crate::scheduler::dependency::string_views(r@) =~= self.tick_plan(i + 1, now_ms, cron_due@));
            }
            i = i + 1;
        }
        r
    }

    /// Records that task `id` ran at `now_ms` with `result`.
    pub fn record_run(&mut self, id: &str, result: TaskResult, now_ms: i64)
        ensures
            forall|k: Seq<char>| #[trigger] final(self).registry().contains_key(k) == old(self).registry().contains_key(k),
            forall|k: Seq<char>| k != id@ && old(self).registry().contains_key(k) ==> #[trigger] final(self).registry()[k] == old(self).registry()[k],
            old(self).registry().contains_key(id@) ==> final(self).registry()[id@] == (TaskEntry {
                last_run_ms: Some(now_ms),
                last_status: Some(result.status),
                last_result: Some(result),
                ..old(self).registry()[id@]
            }),
            final(self).is_paused_spec() == old(self).is_paused_spec(),
            final(self).budget_spec() == old(self).budget_spec(),
            final(self).deps() == old(self).deps(),
    {
        proof { use_type_invariant(&*self); }
        let ghost old_tasks = self.tasks@;
        match self.position(id) {
            Some(i) => {
                let mut tasks: Vec<TaskEntry> = Vec::new();
                std::mem::swap(&mut tasks, &mut self.tasks);
                let mut e = tasks.remove(i);
                let ghost e0 = e;
                e.last_run_ms = Some(now_ms);
                e.last_status = Some(result.status);
                e.last_result = Some(result);
                tasks.insert(i, e);
                proof {
                    let t = tasks@;
                    assert(t =~= old_tasks.update(i as int, t[i as int]));
                    assert forall|a: int, b: int| 0 <= a < b < t.len() implies t[a].id@ != t[b].id@ by {
                        assert(t[a].id@ == old_tasks[a].id@);
                        assert(t[b].id@ == old_tasks[b].id@);
                    }
                }
                self.tasks = tasks;
                proof {
                    let t = self.tasks@;
                    lemma_registry_at(old_tasks, i as int);
                    lemma_registry_at(t, i as int);
                    assert forall|k: Seq<char>| #[trigger] has_id(t, k) == has_id(old_tasks, k) by {
                        if has_id(t, k) {
                            let a = choose|a: int| 0 <= a < t.len() && t[a].id@ == k;
                            assert(old_tasks[a].id@ == k);
                        }
                        if has_id(old_tasks, k) {
                            let a = choose|a: int| 0 <= a < old_tasks.len() && old_tasks[a].id@ == k;
                            assert(t[a].id@ == k);
                        }
                    }
                    assert forall|k: Seq<char>| k != id@ && has_id(old_tasks, k) implies #[trigger] registry_of(t)[k] == registry_of(old_tasks)[k] by {
                        let a = choose|a: int| 0 <= a < old_tasks.len() && old_tasks[a].id@ == k;
                        lemma_registry_at(old_tasks, a);
                        lemma_registry_at(t, a);
                    }
                }
            },
            None => {},
        }
    }

    /// For each registered task, whether its cron schedule is due at
    /// `now_ms` (see `cron_due`): only asked of tasks that ran before and
    /// whose interval has not elapsed at `now_ms`; false for the others, when
    /// the expression is invalid or has no fire time after the last run, and
    /// when the last run lies past `CRON_SEARCH_LIMIT_MS`, where the cron
    /// crate cannot search.
    pub fn cron_flags(&self, now_ms: i64) -> (r: Vec<bool>)
        ensures
            r@.len() == self.entries().len(),
            forall|i: int| 0 <= i < r@.len() ==> #[trigger] r@[i] == cron_due(self.entries()[i], now_ms),
    {
        let mut r: Vec<bool> = Vec::new();
        let mut i: usize = 0;
        while i < self.tasks.len()
            invariant
                i <= self.tasks@.len(),
                r@.len() == i,
                forall|k: int| 0 <= k < i ==> #[trigger] r@[k] == cron_due(self.tasks@[k], now_ms),
            decreases self.tasks.len() - i,
        {
            let e = &self.tasks[i];
            let flag = match e.last_run_ms {
                None => false,
                Some(last) => {
                    if is_task_due(Some(last), now_ms, e.interval_secs, false) || last > crate::scheduler::cron::CRON_SEARCH_LIMIT_MS {
                        false
                    } else {
                        match crate::scheduler::cron::next_fire_time_from(e.cron.as_str(), last) {
                            Ok(next) => crate::scheduler::cron::is_due_at(next, now_ms),
                            Err(_) => false,
                        }
                    }
                },
            };
            r.push(flag);
            i = i + 1;
        }
        r
    }
}

/// Whether the cron schedule of `e` makes it due at `now_ms`: it ran before,
/// its interval has not elapsed, its last run lies within the cron crate's
/// search range, its expression is valid, and the next fire time after the
/// last run is not later than `now_ms`.
pub open spec fn cron_due(e: TaskEntry, now_ms: i64) -> bool {
    &&& e.last_run_ms matches Some(last)
    &&& !task_due(Some(last), now_ms, e.interval_secs, false)
    &&& last <= crate::scheduler::cron::CRON_SEARCH_LIMIT_MS
    &&& crate::scheduler::cron::cron_expression_valid(e.cron@)
    &&& crate::scheduler::cron::due_after(e.cron@, last as int, now_ms as int)
}

} // verus!
