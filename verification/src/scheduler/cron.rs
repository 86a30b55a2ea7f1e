//! Cron expressions: next fire time and whether a task is due.
use vstd::prelude::*;

verus! {

#[verifier::external_type_specification]
#[verifier::external_body]
pub struct ExSchedule(cron::Schedule);

/// Whether `cron::Schedule::from_str` accepts an expression.
pub uninterp spec fn cron_expression_valid(expr: Seq<char>) -> bool;

/// The first fire time strictly after `after_ms` (milliseconds since the
/// epoch) of the schedule that `cron` parses from `expr`, as `cron` computes
/// it; `None` when there is none, or when `after_ms` is an instant outside
/// chrono's range.
pub uninterp spec fn next_fire(expr: Seq<char>, after_ms: int) -> Option<int>;

/// The last instant, in milliseconds since the epoch, from which the cron
/// crate can search: it starts one second later, and a start past the last
/// instant `chrono` holds (+262142-12-31 23:59:59.999) panics.
pub const CRON_SEARCH_LIMIT_MS: i64 = 8_210_266_876_798_999;

/// A parsed cron schedule, kept with the expression it was parsed from.
pub struct CronSchedule {
    expr: String,
    schedule: cron::Schedule,
}

impl CronSchedule {
    /// The expression the schedule was parsed from.
    pub closed spec fn source(self) -> Seq<char> {
        self.expr@
    }
}

/// `cron::Schedule::from_str`: parses an expression; `Ok` exactly when the
/// expression is valid (named `cron_expression_valid`), holding the schedule
/// with its expression.  On error it returns the parser's message, of which
/// nothing is stated.
#[verifier::external_body]
fn parse_schedule(expr: &str) -> (r: Result<CronSchedule, String>)
    ensures
        r is Ok == cron_expression_valid(expr@),
        r matches Ok(s) ==> s.source() == expr@,
{
    match <cron::Schedule as std::str::FromStr>::from_str(expr) {
        Ok(schedule) => Ok(CronSchedule { expr: expr.to_string(), schedule }),
        Err(e) => Err(e.to_string()),
    }
}

/// `cron::Schedule::after(..).next()` on the instant `after_ms` (milliseconds
/// since the epoch): the first fire time strictly after it, in milliseconds,
/// named `next_fire` of the schedule's expression.  The cron crate starts its
/// search one second after the given instant, so a fire time it returns is
/// later than `after_ms`.  `None` when the schedule has no later fire time,
/// or when the instant is outside chrono's range.  The search starts with
/// `after + 1s`, which panics in chrono's last second: `after_ms` is at most
/// `CRON_SEARCH_LIMIT_MS`.
#[verifier::external_body]
fn schedule_next_after(schedule: &CronSchedule, after_ms: i64) -> (r: Option<i64>)
    requires
        after_ms <= CRON_SEARCH_LIMIT_MS,
    ensures
        match r {
            Some(t) => t > after_ms && next_fire(schedule.source(), after_ms as int) == Some(t as int),
            None => next_fire(schedule.source(), after_ms as int) is None,
        },
{
    let after = chrono::DateTime::from_timestamp_millis(after_ms)?;
    match schedule.schedule.after(&after).next() {
        Some(t) => Some(t.timestamp_millis()),
        None => None,
    }
}

/// The error of cron evaluation.
#[derive(Debug)]
pub enum CronError {
    InvalidExpression(String),
}

impl CronError {
    /// The error's message.
    pub fn to_string(&self) -> (r: String)
        ensures
            r@ == "invalid cron expression: "@ + match self {
                CronError::InvalidExpression(m) => m@,
            },
    {
        match self {
            CronError::InvalidExpression(m) => {
                let mut r = String::from_str("invalid cron expression: ");
                crate::text::append_str(&mut r, m.as_str());
                r
            },
        }
    }
}

/// The next fire time of `cron_expr` strictly after `after_ms`.
pub fn next_fire_time_from(cron_expr: &str, after_ms: i64) -> (r: Result<i64, CronError>)
    requires
        after_ms <= CRON_SEARCH_LIMIT_MS,
    ensures
        !cron_expression_valid(cron_expr@) ==> r is Err,
        r is Ok <==> cron_expression_valid(cron_expr@) && next_fire(cron_expr@, after_ms as int) is Some,
        r matches Ok(t) ==> t > after_ms && next_fire(cron_expr@, after_ms as int) == Some(t as int),
        cron_expression_valid(cron_expr@) && r is Err ==> (r matches Err(CronError::InvalidExpression(m))
            && m@ == "no upcoming fire time"@),
{
    let schedule = match parse_schedule(cron_expr) {
        Ok(s) => s,
        Err(e) => {
            return Err(CronError::InvalidExpression(e));
        },
    };
    match schedule_next_after(&schedule, after_ms) {
        Some(t) => Ok(t),
        None => Err(CronError::InvalidExpression(String::from_str("no upcoming fire time"))),
    }
}

/// The next fire time of `cron_expr` after now: `next_fire_time_from` at
/// the instant the clock gives, which is not stated; when the clock reads
/// past `CRON_SEARCH_LIMIT_MS` there is no upcoming fire time to find.
pub fn next_fire_time(cron_expr: &str) -> (r: Result<i64, CronError>)
    ensures
        !cron_expression_valid(cron_expr@) ==> r is Err,
        exists|now: int|
            #![trigger next_fire(cron_expr@, now)]
            i64::MIN <= now <= i64::MAX && (r is Ok <==> cron_expression_valid(cron_expr@) && now <= CRON_SEARCH_LIMIT_MS
                && next_fire(cron_expr@, now) is Some) && (r matches Ok(t) ==> t > now && next_fire(cron_expr@, now) == Some(t as int)),
{
    let now = crate::clock::now_millis();
    if now > CRON_SEARCH_LIMIT_MS {
        assert(next_fire(cron_expr@, now as int) == next_fire(cron_expr@, now as int));
        return Err(CronError::InvalidExpression(String::from_str("no upcoming fire time")));
    }
    let r = next_fire_time_from(cron_expr, now);
    assert(next_fire(cron_expr@, now as int) == next_fire(cron_expr@, now as int));
    r
}

/// The task last run at `last_ms` is due at `now`: the next fire time after
/// the last run is not later than `now`.
pub open spec fn due_after(expr: Seq<char>, last_ms: int, now: int) -> bool {
    next_fire(expr, last_ms) matches Some(t) && t <= now
}

/// A task is due when its next fire time after the last run has been reached.
pub open spec fn fire_time_reached(next_ms: i64, now_ms: i64) -> bool {
    next_ms <= now_ms
}

/// Whether a cron-scheduled task last run at `last_run_ms` is due now: its next
/// fire time after the last run is not in the future.
pub fn is_due(cron_expr: &str, last_run_ms: i64) -> (r: Result<bool, CronError>)
    requires
        last_run_ms <= CRON_SEARCH_LIMIT_MS,
    ensures
        !cron_expression_valid(cron_expr@) ==> r is Err,
        r is Ok <==> cron_expression_valid(cron_expr@) && next_fire(cron_expr@, last_run_ms as int) is Some,
        r matches Ok(b) ==> exists|now: int|
            #![trigger due_after(cron_expr@, last_run_ms as int, now)]
            i64::MIN <= now <= i64::MAX && b == due_after(cron_expr@, last_run_ms as int, now),
{
    let next = next_fire_time_from(cron_expr, last_run_ms)?;
    let now = crate::clock::now_millis();
    let b = is_due_at(next, now);
    assert(b == due_after(cron_expr@, last_run_ms as int, now as int));
    Ok(b)
}

/// The decision of `is_due` once the next fire time and the current time are known.
pub fn is_due_at(next_ms: i64, now_ms: i64) -> (r: bool)
    ensures
        r == fire_time_reached(next_ms, now_ms),
{
    next_ms <= now_ms
}

} // verus!
