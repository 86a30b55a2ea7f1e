//! The text rules shared by the keyword-driven discoverers: keyword lists,
//! line splitting, and the task text that follows a keyword.
use vstd::prelude::*;
use crate::processor::task::discovery::PendingTask;
use crate::processor::task::model::{opt_view, TaskPriority, TaskSource};
use crate::text::{contains, find, is_digit, trim, trim_start};

verus! {

/// The keyword lists the discoverers match against.
#[derive(PartialEq, Eq, Structural, Clone, Copy, Debug)]
pub enum KeywordList {
    /// Meeting action-item markers.
    Meeting,
    /// Requests and commitments in mail.
    Email,
    /// Mail words that mark a deadline (priority `P1`).
    EmailDeadline,
    /// Requests and intentions in chat.
    Message,
    /// Chat words of deadline and commitment.
    MessageDeadline,
    /// Chat words of urgency.
    Urgent,
    /// Chinese words that refer to a time.
    TimeWords,
    /// Verbs of delivery.
    ActionVerbs,
}

/// The keywords of each list, in matching order.
pub open spec fn keywords(l: KeywordList) -> Seq<Seq<char>> {
    match l {
        KeywordList::Meeting => seq![
            "待办"@, "TODO"@, "行动项"@, "Action Item"@, "需要"@, "负责"@, "跟进"@, "落实"@, "安排"@,
        ],
        KeywordList::Email => seq![
            "请确认"@, "请回复"@, "请审批"@, "请审核"@, "请查阅"@, "请查阅并回复"@, "截止"@, "deadline"@,
            "Deadline"@, "DDL"@, "ddl"@, "需要你"@, "期望"@, "务必"@, "拜托"@,
        ],
        KeywordList::EmailDeadline => seq!["截止"@, "deadline"@, "Deadline"@, "DDL"@, "ddl"@, "务必"@],
        KeywordList::Message => seq![
            "尽快处理"@, "尽快完成"@, "尽快确认"@, "尽快回复"@, "尽快反馈"@, "可以帮忙"@, "请帮忙"@,
            "请你帮忙"@, "麻烦你"@, "请你"@, "帮忙"@, "能不能"@, "麻烦"@, "尽快"@, "我需要"@, "我要"@,
            "我打算"@, "我计划"@, "我准备"@, "我得"@, "我必须"@,
        ],
        KeywordList::MessageDeadline => seq![
            "完成"@, "发布"@, "上线"@, "交付"@, "截止"@, "deadline"@, "Deadline"@, "DDL"@, "ddl"@, "务必"@,
            "承诺"@, "答应"@, "提交"@, "搞定"@,
        ],
        KeywordList::Urgent => seq![
            "尽快"@, "紧急"@, "马上"@, "立即"@, "ASAP"@, "urgent"@, "今天内"@, "今天之内"@,
        ],
        KeywordList::TimeWords => seq![
            "今天"@, "明天"@, "后天"@, "下周"@, "本周"@, "这周"@, "月底"@, "年底"@, "周日"@, "周一"@,
            "周二"@, "周三"@, "周四"@, "周五"@, "周六"@,
        ],
        KeywordList::ActionVerbs => seq![
            "完成"@, "发布"@, "上线"@, "提交"@, "交付"@, "搞定"@, "处理"@, "修复"@, "部署"@, "发版"@,
            "review"@, "Review"@, "合并"@, "merge"@,
        ],
    }
}

/// The number of keywords in list `l`.
pub fn keyword_count(l: KeywordList) -> (r: usize)
    ensures
        r == keywords(l).len(),
{
    match l {
        KeywordList::Meeting => 9,
        KeywordList::Email => 15,
        KeywordList::EmailDeadline => 6,
        KeywordList::Message => 21,
        KeywordList::MessageDeadline => 14,
        KeywordList::Urgent => 8,
        KeywordList::TimeWords => 15,
        KeywordList::ActionVerbs => 14,
    }
}

fn meeting_keyword(k: usize) -> (r: &'static str)
    requires
        k < keywords(KeywordList::Meeting).len(),
    ensures
        r@ == keywords(KeywordList::Meeting)[k as int],
{
    match k {
        0 => "待办",
        1 => "TODO",
        2 => "行动项",
        3 => "Action Item",
        4 => "需要",
        5 => "负责",
        6 => "跟进",
        7 => "落实",
        _ => "安排",
    }
}

fn email_keyword(k: usize) -> (r: &'static str)
    requires
        k < keywords(KeywordList::Email).len(),
    ensures
        r@ == keywords(KeywordList::Email)[k as int],
{
    match k {
        0 => "请确认",
        1 => "请回复",
        2 => "请审批",
        3 => "请审核",
        4 => "请查阅",
        5 => "请查阅并回复",
        6 => "截止",
        7 => "deadline",
        8 => "Deadline",
        9 => "DDL",
        10 => "ddl",
        11 => "需要你",
        12 => "期望",
        13 => "务必",
        _ => "拜托",
    }
}

fn email_deadline_keyword(k: usize) -> (r: &'static str)
    requires
        k < keywords(KeywordList::EmailDeadline).len(),
    ensures
        r@ == keywords(KeywordList::EmailDeadline)[k as int],
{
    match k {
        0 => "截止",
        1 => "deadline",
        2 => "Deadline",
        3 => "DDL",
        4 => "ddl",
        _ => "务必",
    }
}

fn message_keyword(k: usize) -> (r: &'static str)
    requires
        k < keywords(KeywordList::Message).len(),
    ensures
        r@ == keywords(KeywordList::Message)[k as int],
{
    match k {
        0 => "尽快处理",
        1 => "尽快完成",
        2 => "尽快确认",
        3 => "尽快回复",
        4 => "尽快反馈",
        5 => "可以帮忙",
        6 => "请帮忙",
        7 => "请你帮忙",
        8 => "麻烦你",
        9 => "请你",
        10 => "帮忙",
        11 => "能不能",
        12 => "麻烦",
        13 => "尽快",
        14 => "我需要",
        15 => "我要",
        16 => "我打算",
        17 => "我计划",
        18 => "我准备",
        19 => "我得",
        _ => "我必须",
    }
}

fn message_deadline_keyword(k: usize) -> (r: &'static str)
    requires
        k < keywords(KeywordList::MessageDeadline).len(),
    ensures
        r@ == keywords(KeywordList::MessageDeadline)[k as int],
{
    match k {
        0 => "完成",
        1 => "发布",
        2 => "上线",
        3 => "交付",
        4 => "截止",
        5 => "deadline",
        6 => "Deadline",
        7 => "DDL",
        8 => "ddl",
        9 => "务必",
        10 => "承诺",
        11 => "答应",
        12 => "提交",
        _ => "搞定",
    }
}

fn urgent_keyword(k: usize) -> (r: &'static str)
    requires
        k < keywords(KeywordList::Urgent).len(),
    ensures
        r@ == keywords(KeywordList::Urgent)[k as int],
{
    match k {
        0 => "尽快",
        1 => "紧急",
        2 => "马上",
        3 => "立即",
        4 => "ASAP",
        5 => "urgent",
        6 => "今天内",
        _ => "今天之内",
    }
}

fn time_word(k: usize) -> (r: &'static str)
    requires
        k < keywords(KeywordList::TimeWords).len(),
    ensures
        r@ == keywords(KeywordList::TimeWords)[k as int],
{
    match k {
        0 => "今天",
        1 => "明天",
        2 => "后天",
        3 => "下周",
        4 => "本周",
        5 => "这周",
        6 => "月底",
        7 => "年底",
        8 => "周日",
        9 => "周一",
        10 => "周二",
        11 => "周三",
        12 => "周四",
        13 => "周五",
        _ => "周六",
    }
}

fn action_verb(k: usize) -> (r: &'static str)
    requires
        k < keywords(KeywordList::ActionVerbs).len(),
    ensures
        r@ == keywords(KeywordList::ActionVerbs)[k as int],
{
    match k {
        0 => "完成",
        1 => "发布",
        2 => "上线",
        3 => "提交",
        4 => "交付",
        5 => "搞定",
        6 => "处理",
        7 => "修复",
        8 => "部署",
        9 => "发版",
        10 => "review",
        11 => "Review",
        12 => "合并",
        _ => "merge",
    }
}

/// Keyword `k` of list `l`.
pub fn keyword(l: KeywordList, k: usize) -> (r: &'static str)
    requires
        k < keywords(l).len(),
    ensures
        r@ == keywords(l)[k as int],
{
    match l {
        KeywordList::Meeting => meeting_keyword(k),
        KeywordList::Email => email_keyword(k),
        KeywordList::EmailDeadline => email_deadline_keyword(k),
        KeywordList::Message => message_keyword(k),
        KeywordList::MessageDeadline => message_deadline_keyword(k),
        KeywordList::Urgent => urgent_keyword(k),
        KeywordList::TimeWords => time_word(k),
        KeywordList::ActionVerbs => action_verb(k),
    }
}

/// `s` cut at each `'\n'`: the pieces between line breaks, in order
/// (a text with `n` breaks has `n + 1` pieces).
pub open spec fn split_lines(s: Seq<char>) -> Seq<Seq<char>>
    decreases s.len(),
{
    if s.len() == 0 {
        seq![Seq::<char>::empty()]
    } else {
        let r = split_lines(s.drop_last());
        if s.last() == '\n' {
            r.push(Seq::<char>::empty())
        } else {
            r.update(r.len() - 1, r.last().push(s.last()))
        }
    }
}

pub proof fn lemma_split_lines_nonempty(s: Seq<char>)
    ensures
        split_lines(s).len() >= 1,
    decreases s.len(),
{
    if s.len() > 0 {
        lemma_split_lines_nonempty(s.drop_last());
    }
}

/// The lines of a text, each trimmed, the blank ones left out.
pub open spec fn trimmed_lines(ls: Seq<Seq<char>>) -> Seq<Seq<char>>
    decreases ls.len(),
{
    if ls.len() == 0 {
        Seq::<Seq<char>>::empty()
    } else {
        let r = trimmed_lines(ls.drop_last());
        let t = trim(ls.last());
        if t.len() > 0 {
            r.push(t)
        } else {
            r
        }
    }
}

/// The non-blank lines of `text`, trimmed (what `str::lines` followed by
/// `str::trim` gives, blank lines skipped).
pub open spec fn text_lines(text: Seq<char>) -> Seq<Seq<char>> {
    trimmed_lines(split_lines(text))
}

/// A separator that may stand between a keyword and the task text.
pub open spec fn is_sep(c: char) -> bool {
    c == ':' || c == '：' || c == ',' || c == '，' || c == '。' || c == ' '
}

/// `s` with its leading separators removed.
pub open spec fn trim_start_seps(s: Seq<char>) -> Seq<char>
    decreases s.len(),
{
    if s.len() > 0 && is_sep(s[0]) {
        trim_start_seps(s.drop_first())
    } else {
        s
    }
}

/// The task text after the first occurrence of `kw` in `line`: the rest of
/// the line, trimmed, its leading separators removed, trimmed again.
pub open spec fn text_after(line: Seq<char>, kw: Seq<char>) -> Option<Seq<char>> {
    match find(line, kw) {
        Some(p) => Some(trim(trim_start_seps(trim(line.subrange(p + kw.len(), line.len() as int))))),
        None => None,
    }
}

/// The task text of the first keyword, from index `k` of `kws` on, that
/// occurs in `line` and is followed by some text.
pub open spec fn first_hit_from(line: Seq<char>, kws: Seq<Seq<char>>, k: int) -> Option<Seq<char>>
    decreases kws.len() - k,
{
    if k < 0 || k >= kws.len() {
        None
    } else {
        match text_after(line, kws[k]) {
            Some(t) => if t.len() > 0 {
                Some(t)
            } else {
                first_hit_from(line, kws, k + 1)
            },
            None => first_hit_from(line, kws, k + 1),
        }
    }
}

/// The task text of the first keyword of `l` that occurs in `line` and is
/// followed by some text.
pub open spec fn first_hit(line: Seq<char>, l: KeywordList) -> Option<Seq<char>> {
    first_hit_from(line, keywords(l), 0)
}

/// Some keyword of `l` occurs in `s`.
pub open spec fn any_contained(s: Seq<char>, l: KeywordList) -> bool {
    exists|k: int| 0 <= k < keywords(l).len() && contains(s, #[trigger] keywords(l)[k])
}

/// A copy of `v[lo..hi]`.
pub fn sub_vec(v: &[char], lo: usize, hi: usize) -> (r: Vec<char>)
    requires
        lo <= hi <= v@.len(),
    ensures
        r@ == v@.subrange(lo as int, hi as int),
{
    let mut r: Vec<char> = Vec::new();
    let mut i = lo;
    while i < hi
        invariant
            lo <= i <= hi <= v@.len(),
            r@ == v@.subrange(lo as int, i as int),
        decreases hi - i,
    {
        r.push(v[i]);
        i = i + 1;
        assert(r@ =~= v@.subrange(lo as int, i as int));
    }
    r
}

/// The views of a vector of character vectors.
pub open spec fn views(ls: Seq<Vec<char>>) -> Seq<Seq<char>> {
    ls.map_values(|l: Vec<char>| l@)
}

/// The pieces of `v` between line breaks.
pub fn split_lines_of(v: &[char]) -> (r: Vec<Vec<char>>)
    ensures
        views(r@) == split_lines(v@),
{
    let mut lines: Vec<Vec<char>> = Vec::new();
    let mut cur: Vec<char> = Vec::new();
    let mut i: usize = 0;
    assert(v@.subrange(0, 0) =~= Seq::<char>::empty());
    assert(views(lines@).push(cur@) =~= split_lines(v@.subrange(0, 0)));
    while i < v.len()
        invariant
            i <= v@.len(),
            views(lines@).push(cur@) == split_lines(v@.subrange(0, i as int)),
        decreases v.len() - i,
    {
        let c = v[i];
        let ghost pre = v@.subrange(0, i as int);
        let ghost old_lines = views(lines@);
        let ghost old_cur = cur@;
        assert(v@.subrange(0, i + 1).drop_last() =~= pre);
        if c == '\n' {
            let mut done: Vec<char> = Vec::new();
            std::mem::swap(&mut done, &mut cur);
            lines.push(done);
            assert(views(lines@) =~= old_lines.push(old_cur));
            assert(views(lines@).push(cur@) =~= split_lines(pre).push(Seq::<char>::empty()));
        } else {
            cur.push(c);
            assert(views(lines@).push(cur@) =~= split_lines(pre).update(
                split_lines(pre).len() - 1,
                split_lines(pre).last().push(c),
            ));
        }
        i = i + 1;
    }
    assert(v@.subrange(0, v@.len() as int) =~= v@);
    lines.push(cur);
    lines
}

/// The non-blank lines of `v`, each trimmed.
pub fn lines_of(v: &[char]) -> (r: Vec<Vec<char>>)
    ensures
        views(r@) == text_lines(v@),
{
    let pieces = split_lines_of(v);
    let ghost ps = views(pieces@);
    let mut out: Vec<Vec<char>> = Vec::new();
    let mut i: usize = 0;
    assert(ps.subrange(0, 0) =~= Seq::<Seq<char>>::empty());
    while i < pieces.len()
        invariant
            i <= pieces@.len(),
            ps == views(pieces@),
            views(out@) == trimmed_lines(ps.subrange(0, i as int)),
        decreases pieces.len() - i,
    {
        let line = &pieces[i];
        let (a, b) = crate::text::trim_bounds(line.as_slice(), 0, line.len());
        assert(ps.subrange(0, i + 1).drop_last() =~= ps.subrange(0, i as int));
        assert(ps.subrange(0, i + 1).last() == ps[i as int]);
        assert(line@.subrange(0, line@.len() as int) =~= line@);
        if a < b {
            let t = sub_vec(line.as_slice(), a, b);
            let ghost before = views(out@);
            out.push(t);
            assert(views(out@) =~= before.push(t@));
        }
        i = i + 1;
    }
    assert(ps.subrange(0, ps.len() as int) =~= ps);
    out
}

/// Bounds, inside `v`, of `trim_start_seps(v[lo..hi])`.
fn skip_seps(v: &[char], lo: usize, hi: usize) -> (r: usize)
    requires
        lo <= hi <= v@.len(),
    ensures
        lo <= r <= hi,
        v@.subrange(r as int, hi as int) == trim_start_seps(v@.subrange(lo as int, hi as int)),
{
    let mut a = lo;
    while a < hi && (v[a] == ':' || v[a] == '：' || v[a] == ',' || v[a] == '，' || v[a] == '。' || v[a] == ' ')
        invariant
            lo <= a <= hi <= v@.len(),
            trim_start_seps(v@.subrange(lo as int, hi as int)) == trim_start_seps(
                v@.subrange(a as int, hi as int),
            ),
        decreases hi - a,
    {
        assert(v@.subrange(a as int, hi as int).drop_first() =~= v@.subrange(a + 1, hi as int));
        a = a + 1;
    }
    a
}

/// Bounds, inside `line`, of `text_after(line, kw)`.
pub fn text_after_bounds(line: &[char], kw: &[char]) -> (r: Option<(usize, usize)>)
    ensures
        r is Some == text_after(line@, kw@) is Some,
        r matches Some((a, b)) ==> a <= b <= line@.len() && line@.subrange(a as int, b as int)
            == text_after(line@, kw@)->0,
{
    let n = line.len();
    match crate::text::find_chars(line, kw) {
        Some(p) => {
            proof {
                crate::text::lemma_find_from(line@, kw@, 0);
                assert(crate::text::match_at(line@, kw@, p as int));
                assert(p + kw@.len() <= line@.len());
            }
            let start = p + kw.len();
            let (a, b) = crate::text::trim_bounds(line, start, n);
            let c = skip_seps(line, a, b);
            let (d, e) = crate::text::trim_bounds(line, c, b);
            Some((d, e))
        },
        None => None,
    }
}

/// Bounds, inside `line`, of `first_hit(line, l)`.
pub fn first_hit_bounds(line: &[char], l: KeywordList) -> (r: Option<(usize, usize)>)
    ensures
        r is Some == first_hit(line@, l) is Some,
        r matches Some((a, b)) ==> a <= b <= line@.len() && line@.subrange(a as int, b as int)
            == first_hit(line@, l)->0,
{
    let n = keyword_count(l);
    let mut k: usize = 0;
    while k < n
        invariant
            n == keywords(l).len(),
            k <= n,
            first_hit(line@, l) == first_hit_from(line@, keywords(l), k as int),
        decreases n - k,
    {
        let kw = crate::text::chars_of(keyword(l, k));
        match text_after_bounds(line, kw.as_slice()) {
            Some((a, b)) => {
                if a < b {
                    return Some((a, b));
                }
            },
            None => {},
        }
        k = k + 1;
    }
    None
}

/// Whether some keyword of `l` occurs in `s`.
pub fn any_contained_in(s: &[char], l: KeywordList) -> (r: bool)
    ensures
        r == any_contained(s@, l),
{
    let n = keyword_count(l);
    let mut k: usize = 0;
    while k < n
        invariant
            n == keywords(l).len(),
            k <= n,
            forall|j: int| 0 <= j < k ==> !contains(s@, #[trigger] keywords(l)[j]),
        decreases n - k,
    {
        if crate::text::contains_str(s, keyword(l, k)) {
            return true;
        }
        k = k + 1;
    }
    false
}

/// A date separator: `-` or `/`.
pub open spec fn is_date_sep(c: char) -> bool {
    c == '-' || c == '/'
}

/// A `YYYY-MM-DD` (or `/`) pattern starts at `i` in `s`.
pub open spec fn ymd_at(s: Seq<char>, i: int) -> bool {
    &&& 0 <= i && i + 10 <= s.len()
    &&& is_digit(s[i]) && is_digit(s[i + 1]) && is_digit(s[i + 2]) && is_digit(s[i + 3])
    &&& is_date_sep(s[i + 4])
    &&& is_digit(s[i + 5]) && is_digit(s[i + 6])
    &&& is_date_sep(s[i + 7])
    &&& is_digit(s[i + 8]) && is_digit(s[i + 9])
}

/// The first index `>= i` at which a `YYYY-MM-DD` pattern starts.
pub open spec fn first_ymd_from(s: Seq<char>, i: int) -> Option<int>
    decreases s.len() - i,
{
    if i < 0 || i + 10 > s.len() {
        None
    } else if ymd_at(s, i) {
        Some(i)
    } else {
        first_ymd_from(s, i + 1)
    }
}

pub(crate) fn is_digit_char(c: char) -> (r: bool)
    ensures
        r == is_digit(c),
{
    '0' <= c && c <= '9'
}

pub(crate) fn is_date_sep_char(c: char) -> (r: bool)
    ensures
        r == is_date_sep(c),
{
    c == '-' || c == '/'
}

/// The first index at which a `YYYY-MM-DD` pattern starts in `v`.
pub fn first_ymd(v: &[char]) -> (r: Option<usize>)
    ensures
        r matches Some(i) ==> first_ymd_from(v@, 0) == Some(i as int) && i + 10 <= v@.len(),
        r is None ==> first_ymd_from(v@, 0) is None,
{
    let n = v.len();
    let mut i: usize = 0;
    while n >= 10 && i <= n - 10
        invariant
            n == v@.len(),
            first_ymd_from(v@, 0) == first_ymd_from(v@, i as int),
        decreases n - i,
    {
        if is_digit_char(v[i]) && is_digit_char(v[i + 1]) && is_digit_char(v[i + 2]) && is_digit_char(v[i + 3])
            && is_date_sep_char(v[i + 4]) && is_digit_char(v[i + 5]) && is_digit_char(v[i + 6])
            && is_date_sep_char(v[i + 7]) && is_digit_char(v[i + 8]) && is_digit_char(v[i + 9]) {
            return Some(i);
        }
        i = i + 1;
    }
    None
}

/// What a line yields when it holds a task: its title, priority and due date.
pub struct LineTask {
    pub title: Seq<char>,
    pub priority: TaskPriority,
    pub due: Option<Seq<char>>,
}

/// A task found in a text: what its line yields, and the line itself.
pub struct Found {
    pub task: LineTask,
    pub origin: Seq<char>,
}

/// The channels a text can come from.
#[derive(PartialEq, Eq, Structural, Clone, Copy, Debug)]
pub enum Channel {
    Meeting,
    Email,
    Message,
}

/// The task a trimmed, non-blank line of channel `ch` yields, if any.
pub open spec fn line_task(ch: Channel, t: Seq<char>) -> Option<LineTask> {
    match ch {
        Channel::Meeting => crate::processor::task::discovery_meeting::meeting_line_task(t),
        Channel::Email => crate::processor::task::discovery_email::email_line_task(t),
        Channel::Message => crate::processor::task::discovery_message::message_line_task(t),
    }
}

/// The tasks the lines `ls` of channel `ch` yield, in line order.
pub open spec fn found_in(ch: Channel, ls: Seq<Seq<char>>) -> Seq<Found>
    decreases ls.len(),
{
    if ls.len() == 0 {
        Seq::<Found>::empty()
    } else {
        let r = found_in(ch, ls.drop_last());
        match line_task(ch, ls.last()) {
            Some(t) => r.push(Found { task: t, origin: ls.last() }),
            None => r,
        }
    }
}

/// The source recorded on tasks of channel `ch`.
pub open spec fn source_of(ch: Channel) -> TaskSource {
    match ch {
        Channel::Meeting => TaskSource::Meeting,
        Channel::Email => TaskSource::Email,
        Channel::Message => TaskSource::Message,
    }
}

/// The pending tasks `r` are, one for one, the tasks `f` found in channel `ch`.
pub open spec fn pending_of_found(r: Seq<PendingTask>, f: Seq<Found>, ch: Channel) -> bool {
    &&& r.len() == f.len()
    &&& forall|i: int| 0 <= i < r.len() ==> pending_matches(#[trigger] r[i], f[i], ch)
}

/// Pending task `t` records found task `f` of channel `ch`.
pub open spec fn pending_matches(t: PendingTask, f: Found, ch: Channel) -> bool {
    &&& t.title@ == f.task.title
    &&& t.priority == f.task.priority
    &&& opt_view(t.due_date) == f.task.due
    &&& t.origin_text@ == f.origin
    &&& t.source == source_of(ch)
    &&& t.description is None
    &&& t.id@.len() == 36
}

/// What an executable line result stands for.
pub open spec fn line_result_view(r: Option<(String, TaskPriority, Option<String>)>) -> Option<LineTask> {
    match r {
        Some((t, p, d)) => Some(LineTask { title: t@, priority: p, due: opt_view(d) }),
        None => None,
    }
}

fn line_result(ch: Channel, t: &[char]) -> (r: Option<(String, TaskPriority, Option<String>)>)
    ensures
        line_result_view(r) == line_task(ch, t@),
{
    match ch {
        Channel::Meeting => crate::processor::task::discovery_meeting::meeting_line(t),
        Channel::Email => crate::processor::task::discovery_email::email_line(t),
        Channel::Message => crate::processor::task::discovery_message::message_line(t),
    }
}

/// The pending tasks found in `text`, line by line, for channel `ch`.
pub fn discover_in(text: &str, ch: Channel) -> (r: Vec<PendingTask>)
    ensures
        pending_of_found(r@, found_in(ch, text_lines(text@)), ch),
{
    let v = crate::text::chars_of(text);
    let lines = lines_of(v.as_slice());
    let ghost ls = views(lines@);
    let mut out: Vec<PendingTask> = Vec::new();
    let mut i: usize = 0;
    assert(ls.subrange(0, 0) =~= Seq::<Seq<char>>::empty());
    while i < lines.len()
        invariant
            i <= lines@.len(),
            ls == views(lines@),
            ls == text_lines(text@),
            pending_of_found(out@, found_in(ch, ls.subrange(0, i as int)), ch),
        decreases lines.len() - i,
    {
        let line = &lines[i];
        assert(ls.subrange(0, i + 1).drop_last() =~= ls.subrange(0, i as int));
        assert(ls.subrange(0, i + 1).last() == line@);
        match line_result(ch, line.as_slice()) {
            Some((title, priority, due)) => {
                let origin = crate::text::string_of_all(line.as_slice());
                let source = match ch {
                    Channel::Meeting => TaskSource::Meeting,
                    Channel::Email => TaskSource::Email,
                    Channel::Message => TaskSource::Message,
                };
                let t = PendingTask::new(title.as_str(), None, source, priority, due, origin.as_str());
                let ghost before = out@;
                let ghost tg = t;
                out.push(t);
                proof {
                    let f = found_in(ch, ls.subrange(0, i + 1));
                    let prev = found_in(ch, ls.subrange(0, i as int));
                    assert(f == prev.push(Found { task: line_task(ch, line@)->0, origin: line@ }));
                    assert(pending_matches(tg, f.last(), ch));
                    assert forall|k: int| 0 <= k < out@.len() implies pending_matches(#[trigger] out@[k], f[k], ch) by {
                        if k < before.len() {
                            assert(out@[k] == before[k]);
                            assert(f[k] == prev[k]);
                        }
                    }
                }
            },
            None => {},
        }
        i = i + 1;
    }
    assert(ls.subrange(0, ls.len() as int) =~= ls);
    out
}

} // verus!
