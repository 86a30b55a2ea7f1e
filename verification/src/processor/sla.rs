//! Service levels: a timeout per priority, escalation one level at a time,
//! and a daily report of what broke its deadline.
use vstd::prelude::*;
use crate::processor::record::WorkRecord;

verus! {

/// SLA priority, from least (`P3`) to most urgent (`P0`).
#[derive(PartialEq, Eq, Structural, Clone, Copy, Debug, Hash)]
pub enum Priority {
    P3,
    P2,
    P1,
    P0,
}

/// Urgency rank of a priority: `P3` is 0, `P0` is 3.
pub open spec fn rank(p: Priority) -> int {
    match p {
        Priority::P3 => 0,
        Priority::P2 => 1,
        Priority::P1 => 2,
        Priority::P0 => 3,
    }
}

/// Timeout thresholds per priority, in milliseconds.
#[derive(Debug, Clone)]
pub struct SlaConfig {
    pub p0_timeout_ms: u64,
    pub p1_timeout_ms: u64,
    pub p2_timeout_ms: u64,
    pub p3_timeout_ms: u64,
}

impl Default for SlaConfig {
    /// 5 minutes for `P0`, 30 for `P1`, 4 hours for `P2`, 24 for `P3`.
    fn default() -> (r: Self)
        ensures
            r.p0_timeout_ms == 300_000,
            r.p1_timeout_ms == 1_800_000,
            r.p2_timeout_ms == 14_400_000,
            r.p3_timeout_ms == 86_400_000,
    {
        SlaConfig {
            p0_timeout_ms: 300_000,
            p1_timeout_ms: 1_800_000,
            p2_timeout_ms: 14_400_000,
            p3_timeout_ms: 86_400_000,
        }
    }
}

/// The timeout `config` gives priority `p`.
pub open spec fn timeout_of(config: SlaConfig, p: Priority) -> u64 {
    match p {
        Priority::P0 => config.p0_timeout_ms,
        Priority::P1 => config.p1_timeout_ms,
        Priority::P2 => config.p2_timeout_ms,
        Priority::P3 => config.p3_timeout_ms,
    }
}

/// The next priority up; `P0` stays `P0`.
pub open spec fn escalated(p: Priority) -> Priority {
    match p {
        Priority::P3 => Priority::P2,
        Priority::P2 => Priority::P1,
        Priority::P1 => Priority::P0,
        Priority::P0 => Priority::P0,
    }
}

/// The priority a record gets: `P1` when it needs review; else `P3` at a
/// confidence of 0.9 or more; else `P2`.
pub open spec fn estimated(needs_review: bool, confidence_permille: u32) -> Priority {
    if needs_review {
        Priority::P1
    } else if confidence_permille >= 900 {
        Priority::P3
    } else {
        Priority::P2
    }
}

/// How one record stands against its deadline.
#[derive(Debug, Clone)]
pub struct RecordTimeliness {
    pub record_id: String,
    pub priority: Priority,
    pub elapsed_ms: u64,
    pub is_breached: bool,
}

/// The daily timeliness report.
#[derive(Debug, Clone)]
pub struct TimelinessReport {
    /// When the report was made, in milliseconds since the Unix epoch.
    pub generated_at_ms: i64,
    pub total_records: usize,
    pub breached_count: usize,
    pub on_time_count: usize,
    /// Breached records per thousand, rounded down; 0 when there are none.
    pub breach_rate_permille: u64,
    pub records: Vec<RecordTimeliness>,
}

/// The SLA manager.
pub struct SlaManager {
    config: SlaConfig,
}

/// The number of entries of `s` that are breached.
pub open spec fn breached_in(s: Seq<RecordTimeliness>) -> nat
    decreases s.len(),
{
    if s.len() == 0 {
        0
    } else {
        breached_in(s.drop_last()) + if s.last().is_breached {
            1nat
        } else {
            0nat
        }
    }
}

/// `t` is the timeliness entry of `input` (a record and the milliseconds
/// elapsed since it arrived) under `config`.
pub open spec fn entry_for(config: SlaConfig, input: (WorkRecord, u64), t: RecordTimeliness) -> bool {
    let p = estimated(input.0.needs_review, input.0.confidence_permille);
    &&& t.record_id@ == input.0.id@
    &&& t.priority == p
    &&& t.elapsed_ms == input.1
    &&& t.is_breached == (input.1 > timeout_of(config, p))
}

impl SlaManager {
    /// The configuration in force.
    pub closed spec fn config(self) -> SlaConfig {
        self.config
    }

    pub fn new(config: SlaConfig) -> (r: Self)
        ensures
            r.config() == config,
    {
        SlaManager { config }
    }

    /// The timeout for `priority`, in milliseconds.
    pub fn timeout_for(&self, priority: &Priority) -> (r: u64)
        ensures
            r == timeout_of(self.config(), *priority),
    {
        match priority {
            Priority::P0 => self.config.p0_timeout_ms,
            Priority::P1 => self.config.p1_timeout_ms,
            Priority::P2 => self.config.p2_timeout_ms,
            Priority::P3 => self.config.p3_timeout_ms,
        }
    }

    /// Whether `elapsed_ms` is past the timeout for `priority`.
    pub fn check_timeout(&self, priority: &Priority, elapsed_ms: u64) -> (r: bool)
        ensures
            r == (elapsed_ms > timeout_of(self.config(), *priority)),
    {
        elapsed_ms > self.timeout_for(priority)
    }

    /// Raises a priority one level: P3→P2→P1→P0; `P0` stays.
    pub fn escalate_priority(&self, priority: &Priority) -> (r: Priority)
        ensures
            r == escalated(*priority),
    {
        match priority {
            Priority::P3 => Priority::P2,
            Priority::P2 => Priority::P1,
            Priority::P1 => Priority::P0,
            Priority::P0 => Priority::P0,
        }
    }

    /// The priority a record gets (see `estimated`).
    pub fn estimate_priority(record: &WorkRecord) -> (r: Priority)
        ensures
            r == estimated(record.needs_review, record.confidence_permille),
            record.needs_review ==> r == Priority::P1,
            !record.needs_review ==> (r == Priority::P3 <==> record.confidence_permille >= 900),
            !record.needs_review ==> (r == Priority::P3 || r == Priority::P2),
    {
        if record.needs_review {
            Priority::P1
        } else if record.confidence_permille >= 900 {
            Priority::P3
        } else {
            Priority::P2
        }
    }

    /// The timeliness of each record, given with the milliseconds elapsed
    /// since it arrived, and the counts over them.
    pub fn daily_report(&self, records: &[(WorkRecord, u64)]) -> (r: TimelinessReport)
        ensures
            r.total_records == records@.len(),
            r.records@.len() == records@.len(),
            forall|i: int| 0 <= i < records@.len() ==> entry_for(self.config(), records@[i], #[trigger] r.records@[i]),
            r.breached_count == breached_in(r.records@),
            r.on_time_count == r.total_records - r.breached_count,
            r.breach_rate_permille == if r.total_records > 0 {
                ((r.breached_count * 1000) as int / r.total_records as int) as u64
            } else {
                0
            },
    {
        let mut out: Vec<RecordTimeliness> = Vec::new();
        let mut breached: usize = 0;
        let mut i: usize = 0;
        while i < records.len()
            invariant
                i <= records@.len(),
                out@.len() == i,
                breached == breached_in(out@),
                breached <= i,
                forall|k: int| 0 <= k < i ==> entry_for(self.config(), records@[k], #[trigger] out@[k]),
            decreases records.len() - i,
        {
            let (record, elapsed_ms) = &records[i];
            let priority = Self::estimate_priority(record);
            let is_breached = self.check_timeout(&priority, *elapsed_ms);
            let ghost before = out@;
            out.push(RecordTimeliness {
                record_id: record.id.clone(),
                priority,
                elapsed_ms: *elapsed_ms,
                is_breached,
            });
            assert(out@.drop_last() =~= before);
            assert(entry_for(self.config(), records@[i as int], out@[i as int]));
            assert(forall|k: int| 0 <= k < i ==> out@[k] == before[k]);
            if is_breached {
                breached = breached + 1;
            }
            i = i + 1;
        }
        let total = records.len();
        let rate: u64 = if total > 0 {
            assert((breached * 1000) as int / total as int <= 1000) by (nonlinear_arith)
                requires
                    breached <= total,
                    total > 0,
            ;
            ((breached as u128 * 1000) / total as u128) as u64
        } else {
            0
        };
        TimelinessReport {
            generated_at_ms: crate::clock::now_millis(),
            total_records: total,
            breached_count: breached,
            on_time_count: total - breached,
            breach_rate_permille: rate,
            records: out,
        }
    }
}

/// Escalation never lowers urgency, and raises it by exactly one level
/// below `P0`.
pub proof fn law_escalation_monotone(p: Priority)
    ensures
        rank(escalated(p)) >= rank(p),
        p != Priority::P0 ==> rank(escalated(p)) == rank(p) + 1,
        escalated(Priority::P0) == Priority::P0,
{
}

/// Three escalations take any priority to `P0`, and `P0` is never left.
pub proof fn law_escalation_reaches_p0(p: Priority)
    ensures
        escalated(escalated(escalated(p))) == Priority::P0,
{
}

/// A record breached at some elapsed time is breached at any later one.
pub proof fn law_breach_persists(config: SlaConfig, p: Priority, a: u64, b: u64)
    requires
        a <= b,
        a > timeout_of(config, p),
    ensures
        b > timeout_of(config, p),
{
}

/// A record that needs review is `P1` whatever its confidence; one that
/// does not is `P3` exactly at a confidence of 0.9 or more, else `P2`, so
/// confidence never makes it more urgent.
pub proof fn law_estimate_review_first(needs_review: bool, c: u32, c2: u32)
    ensures
        needs_review ==> estimated(needs_review, c) == Priority::P1,
        estimated(true, c) == estimated(true, c2),
        !needs_review ==> (estimated(needs_review, c) == Priority::P3 <==> c >= 900),
        !needs_review ==> estimated(needs_review, c) != Priority::P1 && estimated(needs_review, c) != Priority::P0,
        c <= c2 ==> rank(estimated(needs_review, c2)) <= rank(estimated(needs_review, c)),
        rank(estimated(false, c)) < rank(estimated(true, c)),
{
}

} // verus!
