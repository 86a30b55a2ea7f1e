//! Execution log of scheduled tasks.
use vstd::prelude::*;

verus! {

/// Outcome of one execution.
#[derive(PartialEq, Eq, Structural, Clone, Copy, Debug)]
pub enum ExecutionStatus {
    Success,
    Failed,
    Skipped,
    Timeout,
}

/// One execution of a task.
#[derive(Clone, Debug)]
pub struct ExecutionRecord {
    pub task_id: String,
    pub task_name: String,
    pub status: ExecutionStatus,
    pub started_at: String,
    pub finished_at: String,
    pub duration_ms: u64,
    pub output: Option<String>,
    pub error: Option<String>,
}

/// The records of `s` that belong to task `t`, in order.
pub open spec fn records_of_task(s: Seq<ExecutionRecord>, t: Seq<char>) -> Seq<ExecutionRecord>
    decreases s.len(),
{
    if s.len() == 0 {
        Seq::empty()
    } else {
        records_of_task(s.drop_last(), t) + if s.last().task_id@ == t {
            seq![s.last()]
        } else {
            Seq::empty()
        }
    }
}

/// The records of `s` whose status is `Failed`, in order.
pub open spec fn failed_records(s: Seq<ExecutionRecord>) -> Seq<ExecutionRecord>
    decreases s.len(),
{
    if s.len() == 0 {
        Seq::empty()
    } else {
        failed_records(s.drop_last()) + if s.last().status == ExecutionStatus::Failed {
            seq![s.last()]
        } else {
            Seq::empty()
        }
    }
}

/// `v` holds references to exactly the records of `s`, in order.
pub open spec fn refs_of(v: Seq<&ExecutionRecord>, s: Seq<ExecutionRecord>) -> bool {
    v.len() == s.len() && forall|i: int| 0 <= i < v.len() ==> *v[i] == s[i]
}

/// The execution log: every recorded execution, oldest first.
pub struct ExecutionLog {
    records: Vec<ExecutionRecord>,
}

impl ExecutionLog {
    pub closed spec fn view(&self) -> Seq<ExecutionRecord> {
        self.records@
    }

    pub fn new() -> (l: Self)
        ensures
            l@ == Seq::<ExecutionRecord>::empty(),
    {
        ExecutionLog { records: Vec::new() }
    }

    /// Appends one execution.
    pub fn record(&mut self, record: ExecutionRecord)
        ensures
            final(self)@ == old(self)@.push(record),
    {
        self.records.push(record);
    }

    /// The executions of task `task_id`, oldest first.
    pub fn by_task(&self, task_id: &str) -> (r: Vec<&ExecutionRecord>)
        ensures
            refs_of(r@, records_of_task(self@, task_id@)),
    {
        let mut r: Vec<&ExecutionRecord> = Vec::new();
        let mut i: usize = 0;
        while i < self.records.len()
            invariant
                i <= self.records@.len(),
                refs_of(r@, records_of_task(self.records@.take(i as int), task_id@)),
            decreases self.records.len() - i,
        {
            proof {
                assert(self.records@.take(i + 1).drop_last() =~= self.records@.take(i as int));
            }
            if crate::text::str_eq(self.records[i].task_id.as_str(), task_id) {
                r.push(&self.records[i]);
            }
            i = i + 1;
        }
        assert(self.records@.take(self.records@.len() as int) =~= self.records@);
        r
    }

    /// The last `n` executions (all of them when there are fewer), oldest first.
    pub fn recent(&self, n: usize) -> (r: Vec<&ExecutionRecord>)
        ensures
            refs_of(
                r@,
                self@.subrange(
                    if n <= self@.len() {
                        self@.len() - n
                    } else {
                        0
                    },
                    self@.len() as int,
                ),
            ),
    {
        let start = self.records.len().saturating_sub(n);
        let mut r: Vec<&ExecutionRecord> = Vec::new();
        let mut i: usize = start;
        while i < self.records.len()
            invariant
                start <= i <= self.records@.len(),
                start == if n <= self.records@.len() {
                    self.records@.len() - n
                } else {
                    0
                },
                refs_of(r@, self.records@.subrange(start as int, i as int)),
            decreases self.records.len() - i,
        {
            r.push(&self.records[i]);
            i = i + 1;
        }
        r
    }

    /// The executions that failed, oldest first.
    pub fn failures(&self) -> (r: Vec<&ExecutionRecord>)
        ensures
            refs_of(r@, failed_records(self@)),
    {
        let mut r: Vec<&ExecutionRecord> = Vec::new();
        let mut i: usize = 0;
        while i < self.records.len()
            invariant
                i <= self.records@.len(),
                refs_of(r@, failed_records(self.records@.take(i as int))),
            decreases self.records.len() - i,
        {
            proof {
                assert(self.records@.take(i + 1).drop_last() =~= self.records@.take(i as int));
            }
            if self.records[i].status == ExecutionStatus::Failed {
                r.push(&self.records[i]);
            }
            i = i + 1;
        }
        assert(self.records@.take(self.records@.len() as int) =~= self.records@);
        r
    }

    /// Number of recorded executions.
    pub fn len(&self) -> (r: usize)
        ensures
            r == self@.len(),
    {
        self.records.len()
    }

    pub fn is_empty(&self) -> (r: bool)
        ensures
            r == (self@.len() == 0),
    {
        self.records.len() == 0
    }

    /// Forgets every execution.
    pub fn clear(&mut self)
        ensures
            final(self)@ == Seq::<ExecutionRecord>::empty(),
    {
        self.records.clear();
    }
}

impl Default for ExecutionLog {
    fn default() -> (l: Self)
        ensures
            l@ == Seq::<ExecutionRecord>::empty(),
    {
        Self::new()
    }
}

} // verus!
