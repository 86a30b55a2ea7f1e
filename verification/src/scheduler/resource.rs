//! Resource awareness: defers low-priority tasks when the budget runs low.
use vstd::prelude::*;

verus! {

/// Task priority, from most (`P0`) to least (`P3`) urgent.
#[derive(PartialEq, Eq, Structural, Clone, Copy, Debug)]
pub enum Priority {
    P0,
    P1,
    P2,
    P3,
}

/// Below this budget only `P0` and `P1` tasks run.
pub const LOW_BUDGET_THRESHOLD: u32 = 10;

/// Whether a task of `priority` is deferred with `budget_remaining` left.
pub open spec fn defers(priority: Priority, budget_remaining: u32) -> bool {
    match priority {
        Priority::P0 => false,
        Priority::P1 => budget_remaining == 0,
        Priority::P2 | Priority::P3 => budget_remaining < LOW_BUDGET_THRESHOLD,
    }
}

/// Decides whether a task is deferred: `P0` never, `P1` only at budget 0,
/// `P2`/`P3` whenever the budget is below the threshold.
pub fn should_defer(priority: Priority, budget_remaining: u32) -> (r: bool)
    ensures
        r == defers(priority, budget_remaining),
{
    match priority {
        Priority::P0 => false,
        Priority::P1 => budget_remaining == 0,
        Priority::P2 | Priority::P3 => budget_remaining < LOW_BUDGET_THRESHOLD,
    }
}

/// A lower budget never lets a deferred task through: deferral is monotone in
/// the budget.
pub proof fn lemma_defer_monotone(priority: Priority, low: u32, high: u32)
    requires
        low <= high,
        defers(priority, high),
    ensures
        defers(priority, low),
{
}

/// Urgent work is never starved: `P0` is never deferred, and `P1` runs at any
/// positive budget.
pub proof fn lemma_urgent_not_starved(budget: u32)
    ensures
        !defers(Priority::P0, budget),
        budget > 0 ==> !defers(Priority::P1, budget),
{
}

} // verus!
