//! Requests and commitments in mail: a line holding one of the mail keywords
//! yields the text that follows it; deadline words raise its priority.
use vstd::prelude::*;
use crate::processor::task::discovery::PendingTask;
use crate::processor::task::discovery_text::{
    any_contained, any_contained_in, discover_in, first_hit, first_hit_bounds, first_ymd,
    first_ymd_from, found_in, is_date_sep, is_date_sep_char, is_digit_char, pending_of_found, text_lines, Channel, KeywordList,
    LineTask,
};
use crate::processor::task::model::TaskPriority;
use crate::text::is_digit;

verus! {

/// An `MM-DD` (or `/`) pattern starts at `i` in `s`, not right after a digit.
pub open spec fn md_at(s: Seq<char>, i: int) -> bool {
    &&& 0 <= i && i + 5 <= s.len()
    &&& is_digit(s[i]) && is_digit(s[i + 1])
    &&& is_date_sep(s[i + 2])
    &&& is_digit(s[i + 3]) && is_digit(s[i + 4])
    &&& (i == 0 || !is_digit(s[i - 1]))
}

/// The first index `>= i` at which an `MM-DD` pattern starts.
pub open spec fn first_md_from(s: Seq<char>, i: int) -> Option<int>
    decreases s.len() - i,
{
    if i < 0 || i + 5 > s.len() {
        None
    } else if md_at(s, i) {
        Some(i)
    } else {
        first_md_from(s, i + 1)
    }
}

/// The due date written in a mail line: the first `YYYY-MM-DD` in it, else
/// the first `MM-DD` not preceded by a digit, else none.
pub open spec fn email_due_date(s: Seq<char>) -> Option<Seq<char>> {
    match first_ymd_from(s, 0) {
        Some(i) => Some(s.subrange(i, i + 10)),
        None => match first_md_from(s, 0) {
            Some(i) => Some(s.subrange(i, i + 5)),
            None => None,
        },
    }
}

/// The task a trimmed mail line yields: the text after its first keyword
/// that is followed by some text; `P1` when the line holds a deadline word,
/// else `P2`; due on the date the line gives.
pub open spec fn email_line_task(t: Seq<char>) -> Option<LineTask> {
    match first_hit(t, KeywordList::Email) {
        Some(x) => Some(
            LineTask {
                title: x,
                priority: if any_contained(t, KeywordList::EmailDeadline) {
                    TaskPriority::P1
                } else {
                    TaskPriority::P2
                },
                due: email_due_date(t),
            },
        ),
        None => None,
    }
}

fn first_md(v: &[char]) -> (r: Option<usize>)
    ensures
        r matches Some(i) ==> first_md_from(v@, 0) == Some(i as int) && i + 5 <= v@.len(),
        r is None ==> first_md_from(v@, 0) is None,
{
    let n = v.len();
    let mut i: usize = 0;
    while n >= 5 && i <= n - 5
        invariant
            n == v@.len(),
            first_md_from(v@, 0) == first_md_from(v@, i as int),
        decreases n - i,
    {
        if is_digit_char(v[i]) && is_digit_char(v[i + 1]) && is_date_sep_char(v[i + 2])
            && is_digit_char(v[i + 3]) && is_digit_char(v[i + 4]) && (i == 0 || !is_digit_char(v[i - 1])) {
            return Some(i);
        }
        i = i + 1;
    }
    None
}

fn due_date_of(v: &[char]) -> (r: Option<String>)
    ensures
        crate::processor::task::model::opt_view(r) == email_due_date(v@),
{
    let _n = v.len();
    match first_ymd(v) {
        Some(i) => Some(crate::text::string_of(v, i, i + 10)),
        None => match first_md(v) {
            Some(i) => Some(crate::text::string_of(v, i, i + 5)),
            None => None,
        },
    }
}

/// The due date written in `text` (see `email_due_date`).
pub fn extract_due_date(text: &str) -> (r: Option<String>)
    ensures
        crate::processor::task::model::opt_view(r) == email_due_date(text@),
{
    let v = crate::text::chars_of(text);
    due_date_of(v.as_slice())
}

pub(crate) fn email_line(t: &[char]) -> (r: Option<(String, TaskPriority, Option<String>)>)
    ensures
        crate::processor::task::discovery_text::line_result_view(r) == email_line_task(t@),
{
    match first_hit_bounds(t, KeywordList::Email) {
        Some((a, b)) => {
            let priority = if any_contained_in(t, KeywordList::EmailDeadline) {
                TaskPriority::P1
            } else {
                TaskPriority::P2
            };
            Some((crate::text::string_of(t, a, b), priority, due_date_of(t)))
        },
        None => None,
    }
}

/// The candidate tasks in a mail, one per line that yields one, in line
/// order; each keeps its trimmed line as origin text.
pub fn discover_from_email(text: &str) -> (r: Vec<PendingTask>)
    ensures
        pending_of_found(r@, found_in(Channel::Email, text_lines(text@)), Channel::Email),
{
    discover_in(text, Channel::Email)
}

} // verus!
