//! Requests in chat messages.  A line yields a task by the first rule that
//! applies: a request or intention keyword; else a deadline or commitment
//! keyword; else a time expression together with a delivery verb (the whole
//! line is then the task).
use vstd::prelude::*;
use crate::processor::task::discovery::PendingTask;
use crate::processor::task::discovery_text::{
    any_contained, any_contained_in, discover_in, first_hit, first_hit_bounds, first_ymd,
    first_ymd_from, found_in, is_digit_char, keyword, keyword_count, keywords, pending_of_found,
    text_lines, Channel, KeywordList, LineTask,
};
use crate::processor::task::model::{opt_view, TaskPriority};
use crate::text::{find, is_digit, is_ws, trim, trim_start};

verus! {

/// A character that may belong to a clock time after a date.
pub open spec fn is_time_char(c: char) -> bool {
    is_digit(c) || c == ':' || c == ' '
}

/// The longest prefix of `s` made of clock-time characters.
pub open spec fn time_prefix(s: Seq<char>) -> Seq<char>
    decreases s.len(),
{
    if s.len() > 0 && is_time_char(s[0]) {
        seq![s[0]] + time_prefix(s.drop_first())
    } else {
        Seq::<char>::empty()
    }
}

/// Punctuation dropped from the end of a time phrase.
pub open spec fn is_end_punct(c: char) -> bool {
    c == '，' || c == '。' || c == ',' || c == '.' || c == ' ' || c == '！' || c == '!' || c == '？'
        || c == '?'
}

/// `s` with its trailing punctuation removed.
pub open spec fn trim_end_puncts(s: Seq<char>) -> Seq<char>
    decreases s.len(),
{
    if s.len() > 0 && is_end_punct(s.last()) {
        trim_end_puncts(s.drop_last())
    } else {
        s
    }
}

/// At most 20 characters of `s` from index `p` on.
pub open spec fn window20(s: Seq<char>, p: int) -> Seq<char> {
    s.subrange(p, if p + 20 <= s.len() { p + 20 } else { s.len() as int })
}

/// The phrase that starts at the first time word, from index `k` of the
/// time-word list on, found in `s`: up to 20 characters, trailing
/// punctuation removed, when that leaves something.
pub open spec fn time_word_due_from(s: Seq<char>, k: int) -> Option<Seq<char>>
    decreases keywords(KeywordList::TimeWords).len() - k,
{
    if k < 0 || k >= keywords(KeywordList::TimeWords).len() {
        None
    } else {
        match find(s, keywords(KeywordList::TimeWords)[k]) {
            Some(p) => {
                let t = trim_end_puncts(window20(s, p));
                if t.len() > 0 {
                    Some(t)
                } else {
                    time_word_due_from(s, k + 1)
                }
            },
            None => time_word_due_from(s, k + 1),
        }
    }
}

/// The due date written in a chat line: the first `YYYY-MM-DD` in it,
/// followed by a space and the clock time after it when one follows; else
/// the phrase at the first time word; else none.
pub open spec fn message_due_date(s: Seq<char>) -> Option<Seq<char>> {
    match first_ymd_from(s, 0) {
        Some(i) => {
            let date = s.subrange(i, i + 10);
            let rest = trim_start(s.subrange(i + 10, s.len() as int));
            if rest.len() > 0 && is_digit(rest[0]) {
                let tt = trim(time_prefix(rest));
                if tt.len() > 0 {
                    Some(date + seq![' '] + tt)
                } else {
                    Some(date)
                }
            } else {
                Some(date)
            }
        },
        None => time_word_due_from(s, 0),
    }
}

/// A unit that makes a preceding digit a point in time.
pub open spec fn is_time_unit(c: char) -> bool {
    c == '点' || c == '号' || c == '日' || c == '月' || c == '时'
}

/// `s` holds a time word, or a digit followed by a time unit.
pub open spec fn has_time(s: Seq<char>) -> bool {
    ||| any_contained(s, KeywordList::TimeWords)
    ||| exists|i: int| 0 <= i && i + 1 < s.len() && is_digit(#[trigger] s[i]) && is_time_unit(s[i + 1])
}

/// The task a trimmed chat line yields (see the module's rules).  A request
/// keyword gives `P1` when the line is urgent, else `P2`; a deadline keyword
/// gives `P1` when the line is urgent or holds a time, else `P2`; a time with
/// a delivery verb gives `P1`.
pub open spec fn message_line_task(t: Seq<char>) -> Option<LineTask> {
    let urgent = any_contained(t, KeywordList::Urgent);
    match first_hit(t, KeywordList::Message) {
        Some(x) => Some(
            LineTask {
                title: x,
                priority: if urgent {
                    TaskPriority::P1
                } else {
                    TaskPriority::P2
                },
                due: message_due_date(t),
            },
        ),
        None => match first_hit(t, KeywordList::MessageDeadline) {
            Some(x) => Some(
                LineTask {
                    title: x,
                    priority: if urgent || has_time(t) {
                        TaskPriority::P1
                    } else {
                        TaskPriority::P2
                    },
                    due: message_due_date(t),
                },
            ),
            None => if has_time(t) && any_contained(t, KeywordList::ActionVerbs) {
                Some(LineTask { title: t, priority: TaskPriority::P1, due: message_due_date(t) })
            } else {
                None
            },
        },
    }
}

fn is_time_char_exec(c: char) -> (r: bool)
    ensures
        r == is_time_char(c),
{
    is_digit_char(c) || c == ':' || c == ' '
}

/// End of `time_prefix(v[lo..n])` inside `v`.
fn time_prefix_end(v: &[char], lo: usize) -> (r: usize)
    requires
        lo <= v@.len(),
    ensures
        lo <= r <= v@.len(),
        v@.subrange(lo as int, r as int) == time_prefix(v@.subrange(lo as int, v@.len() as int)),
{
    let n = v.len();
    let mut e = lo;
    assert(v@.subrange(lo as int, lo as int) =~= Seq::<char>::empty());
    while e < n && is_time_char_exec(v[e])
        invariant
            n == v@.len(),
            lo <= e <= n,
            time_prefix(v@.subrange(lo as int, n as int)) == v@.subrange(lo as int, e as int)
                + time_prefix(v@.subrange(e as int, n as int)),
        decreases n - e,
    {
        let ghost tail = v@.subrange(e as int, n as int);
        assert(tail.drop_first() =~= v@.subrange(e + 1, n as int));
        assert(v@.subrange(lo as int, e as int) + seq![v@[e as int]] =~= v@.subrange(lo as int, e + 1));
        assert(v@.subrange(lo as int, e as int) + (seq![v@[e as int]] + time_prefix(tail.drop_first()))
            =~= v@.subrange(lo as int, e + 1) + time_prefix(v@.subrange(e + 1, n as int)));
        e = e + 1;
    }
    assert(v@.subrange(lo as int, e as int) + Seq::<char>::empty() =~= v@.subrange(lo as int, e as int));
    e
}

fn is_end_punct_exec(c: char) -> (r: bool)
    ensures
        r == is_end_punct(c),
{
    c == '，' || c == '。' || c == ',' || c == '.' || c == ' ' || c == '！' || c == '!' || c == '？'
        || c == '?'
}

/// End of `trim_end_puncts(v[lo..hi])` inside `v`.
fn trim_end_puncts_end(v: &[char], lo: usize, hi: usize) -> (r: usize)
    requires
        lo <= hi <= v@.len(),
    ensures
        lo <= r <= hi,
        v@.subrange(lo as int, r as int) == trim_end_puncts(v@.subrange(lo as int, hi as int)),
{
    let mut b = hi;
    while b > lo && is_end_punct_exec(v[b - 1])
        invariant
            lo <= b <= hi <= v@.len(),
            trim_end_puncts(v@.subrange(lo as int, hi as int)) == trim_end_puncts(
                v@.subrange(lo as int, b as int),
            ),
        decreases b - lo,
    {
        assert(v@.subrange(lo as int, b as int).drop_last() =~= v@.subrange(lo as int, b - 1));
        b = b - 1;
    }
    b
}

fn time_word_due(v: &[char]) -> (r: Option<String>)
    ensures
        opt_view(r) == time_word_due_from(v@, 0),
{
    let n = v.len();
    let count = keyword_count(KeywordList::TimeWords);
    let mut k: usize = 0;
    while k < count
        invariant
            n == v@.len(),
            count == keywords(KeywordList::TimeWords).len(),
            k <= count,
            time_word_due_from(v@, 0) == time_word_due_from(v@, k as int),
        decreases count - k,
    {
        let w = crate::text::chars_of(keyword(KeywordList::TimeWords, k));
        match crate::text::find_chars(v, w.as_slice()) {
            Some(p) => {
                proof {
                    crate::text::lemma_find_from(v@, w@, 0);
                    assert(crate::text::match_at(v@, w@, p as int));
                }
                let end = if n - p >= 20 { p + 20 } else { n };
                let b = trim_end_puncts_end(v, p, end);
                if b > p {
                    return Some(crate::text::string_of(v, p, b));
                }
            },
            None => {},
        }
        k = k + 1;
    }
    None
}

fn due_date_of(v: &[char]) -> (r: Option<String>)
    ensures
        opt_view(r) == message_due_date(v@),
{
    let n = v.len();
    match first_ymd(v) {
        Some(i) => {
            let mut date = crate::text::string_of(v, i, i + 10);
            let a = crate::text::trim_start_bound(v, i + 10, n);
            if a < n && is_digit_char(v[a]) {
                let e = time_prefix_end(v, a);
                let (c, d) = crate::text::trim_bounds(v, a, e);
                if c < d {
                    crate::text::push_char(&mut date, ' ');
                    crate::text::append_chars(&mut date, v, c, d);
                    assert(date@ =~= v@.subrange(i as int, i + 10) + seq![' '] + v@.subrange(c as int, d as int));
                }
            }
            Some(date)
        },
        None => time_word_due(v),
    }
}

/// Whether `v` holds a time word, or a digit followed by a time unit.
fn has_time_in(v: &[char]) -> (r: bool)
    ensures
        r == has_time(v@),
{
    if any_contained_in(v, KeywordList::TimeWords) {
        return true;
    }
    let n = v.len();
    let mut i: usize = 0;
    while n > 0 && i < n - 1
        invariant
            n == v@.len(),
            forall|j: int| 0 <= j < i && j + 1 < n ==> !(is_digit(#[trigger] v@[j]) && is_time_unit(v@[j + 1])),
        decreases n - i,
    {
        let c = v[i + 1];
        if is_digit_char(v[i]) && (c == '点' || c == '号' || c == '日' || c == '月' || c == '时') {
            return true;
        }
        i = i + 1;
    }
    false
}

/// Whether `text` holds a time word, or a digit followed by one of
/// 点, 号, 日, 月, 时.
pub fn has_time_expression(text: &str) -> (r: bool)
    ensures
        r == has_time(text@),
{
    let v = crate::text::chars_of(text);
    has_time_in(v.as_slice())
}

/// The due date written in `text` (see `message_due_date`).
pub fn extract_due_date(text: &str) -> (r: Option<String>)
    ensures
        opt_view(r) == message_due_date(text@),
{
    let v = crate::text::chars_of(text);
    due_date_of(v.as_slice())
}

pub(crate) fn message_line(t: &[char]) -> (r: Option<(String, TaskPriority, Option<String>)>)
    ensures
        crate::processor::task::discovery_text::line_result_view(r) == message_line_task(t@),
{
    let urgent = any_contained_in(t, KeywordList::Urgent);
    match first_hit_bounds(t, KeywordList::Message) {
        Some((a, b)) => {
            let priority = if urgent {
                TaskPriority::P1
            } else {
                TaskPriority::P2
            };
            return Some((crate::text::string_of(t, a, b), priority, due_date_of(t)));
        },
        None => {},
    }
    match first_hit_bounds(t, KeywordList::MessageDeadline) {
        Some((a, b)) => {
            let priority = if urgent || has_time_in(t) {
                TaskPriority::P1
            } else {
                TaskPriority::P2
            };
            return Some((crate::text::string_of(t, a, b), priority, due_date_of(t)));
        },
        None => {},
    }
    if has_time_in(t) && any_contained_in(t, KeywordList::ActionVerbs) {
        Some((crate::text::string_of_all(t), TaskPriority::P1, due_date_of(t)))
    } else {
        None
    }
}

/// The candidate tasks in chat text, one per line that yields one, in line
/// order; each keeps its trimmed line as origin text.
pub fn discover_from_message(text: &str) -> (r: Vec<PendingTask>)
    ensures
        pending_of_found(r@, found_in(Channel::Message, text_lines(text@)), Channel::Message),
{
    discover_in(text, Channel::Message)
}

} // verus!
