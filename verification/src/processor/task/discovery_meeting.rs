//! Action items in meeting notes: a line holding one of the meeting
//! keywords yields the text that follows it.
use vstd::prelude::*;
use crate::processor::task::discovery::PendingTask;
use crate::processor::task::discovery_text::{
    discover_in, first_hit, first_hit_bounds, found_in, pending_of_found, text_lines, Channel,
    KeywordList, LineTask,
};
use crate::processor::task::model::TaskPriority;

verus! {

/// The task a trimmed meeting line yields: the text after its first keyword
/// that is followed by some text, at priority `P2`, with no due date.
pub open spec fn meeting_line_task(t: Seq<char>) -> Option<LineTask> {
    match first_hit(t, KeywordList::Meeting) {
        Some(x) => Some(LineTask { title: x, priority: TaskPriority::P2, due: None }),
        None => None,
    }
}

pub(crate) fn meeting_line(t: &[char]) -> (r: Option<(String, TaskPriority, Option<String>)>)
    ensures
        crate::processor::task::discovery_text::line_result_view(r) == meeting_line_task(t@),
{
    match first_hit_bounds(t, KeywordList::Meeting) {
        Some((a, b)) => Some((crate::text::string_of(t, a, b), TaskPriority::P2, None)),
        None => None,
    }
}

/// The candidate tasks in meeting notes, one per line that yields one, in
/// line order; each keeps its trimmed line as origin text.
pub fn discover_from_meeting(text: &str) -> (r: Vec<PendingTask>)
    ensures
        pending_of_found(r@, found_in(Channel::Meeting, text_lines(text@)), Channel::Meeting),
{
    discover_in(text, Channel::Meeting)
}

} // verus!
