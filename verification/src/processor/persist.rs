//! Persisting records into the Obsidian vault: where a record's note goes,
//! which existing note a new record duplicates (by the longest common
//! subsequence of their titles), and how a duplicate is merged into it.
use vstd::prelude::*;
use crate::clock::lowercase;
use crate::processor::record::{Category, WorkRecord};
use crate::processor::report::date::{utc_date, ymd_text};
use crate::processor::task::discovery_text::views;
use crate::scheduler::dependency::string_views;
use crate::text::{find, str_eq};

verus! {

/// The length of a longest common subsequence of `a` and `b`.
pub open spec fn lcs(a: Seq<char>, b: Seq<char>) -> nat
    decreases a.len() + b.len(),
{
    if a.len() == 0 || b.len() == 0 {
        0
    } else if a.last() == b.last() {
        lcs(a.drop_last(), b.drop_last()) + 1
    } else {
        let x = lcs(a.drop_last(), b);
        let y = lcs(a, b.drop_last());
        if x >= y { x } else { y }
    }
}

pub proof fn lemma_lcs_bounded(a: Seq<char>, b: Seq<char>)
    ensures
        lcs(a, b) <= a.len(),
        lcs(a, b) <= b.len(),
    decreases a.len() + b.len(),
{
    if a.len() > 0 && b.len() > 0 {
        lemma_lcs_bounded(a.drop_last(), b.drop_last());
        lemma_lcs_bounded(a.drop_last(), b);
        lemma_lcs_bounded(a, b.drop_last());
    }
}

/// The length of a longest common subsequence of `a` and `b`, by dynamic
/// programming over one row at a time.
pub fn lcs_length(a: &[char], b: &[char]) -> (r: usize)
    ensures
        r == lcs(a@, b@),
{
    let m = a.len();
    let n = b.len();
    let mut prev: Vec<usize> = Vec::new();
    prev.push(0);
    let mut j: usize = 0;
    while j < n
        invariant
            n == b@.len(),
            j <= n,
            prev@.len() == j + 1,
            forall|k: int| 0 <= k <= j ==> prev@[k] == 0,
        decreases n - j,
    {
        prev.push(0);
        j = j + 1;
    }
    assert forall|k: int| 0 <= k <= n implies prev@[k] == lcs(a@.take(0), b@.take(k)) by {}
    let mut i: usize = 0;
    while i < m
        invariant
            m == a@.len(),
            n == b@.len(),
            i <= m,
            prev@.len() == n + 1,
            forall|k: int| 0 <= k <= n ==> prev@[k] == lcs(a@.take(i as int), b@.take(k)),
        decreases m - i,
    {
        let mut curr: Vec<usize> = Vec::new();
        curr.push(0);
        assert(curr@[0] == lcs(a@.take(i + 1), b@.take(0)));
        let mut j: usize = 0;
        while j < n
            invariant
                m == a@.len(),
                n == b@.len(),
                i < m,
                j <= n,
                prev@.len() == n + 1,
                curr@.len() == j + 1,
                forall|k: int| 0 <= k <= n ==> prev@[k] == lcs(a@.take(i as int), b@.take(k)),
                forall|k: int| 0 <= k <= j ==> curr@[k] == lcs(a@.take(i + 1), b@.take(k)),
            decreases n - j,
        {
            let ghost ai = a@.take(i + 1);
            let ghost bj = b@.take(j + 1);
            proof {
                assert(ai.drop_last() =~= a@.take(i as int));
                assert(bj.drop_last() =~= b@.take(j as int));
                assert(ai.last() == a@[i as int]);
                assert(bj.last() == b@[j as int]);
                lemma_lcs_bounded(a@.take(i as int), b@.take(j as int));
            }
            let v = if a[i] == b[j] {
                prev[j] + 1
            } else {
                let x = prev[j + 1];
                let y = curr[j];
                if x >= y { x } else { y }
            };
            curr.push(v);
            j = j + 1;
        }
        prev = curr;
        i = i + 1;
    }
    assert(a@.take(m as int) =~= a@);
    assert(b@.take(n as int) =~= b@);
    prev[n]
}

/// How alike two titles are, as a fraction (numerator, denominator): 1
/// when they are equal, or equal ignoring case; else the length of a longest
/// common subsequence of the lower-cased titles over the longer one's length.
pub open spec fn similarity(a: Seq<char>, b: Seq<char>) -> (nat, nat) {
    if a == b || lowercase(a) == lowercase(b) {
        (1, 1)
    } else {
        let la = lowercase(a);
        let lb = lowercase(b);
        let max = if la.len() >= lb.len() { la.len() } else { lb.len() };
        if max == 0 { (1, 1) } else { (lcs(la, lb), max) }
    }
}

/// How alike two titles are (see `similarity`).
pub fn title_similarity(a: &str, b: &str) -> (r: (usize, usize))
    ensures
        (r.0 as nat, r.1 as nat) == similarity(a@, b@),
        r.1 > 0,
{
    if str_eq(a, b) {
        return (1, 1);
    }
    let al = crate::clock::to_lowercase(a);
    let bl = crate::clock::to_lowercase(b);
    if str_eq(al.as_str(), bl.as_str()) {
        return (1, 1);
    }
    let x = crate::text::chars_of(al.as_str());
    let y = crate::text::chars_of(bl.as_str());
    let l = lcs_length(x.as_slice(), y.as_slice());
    let max = if x.len() >= y.len() { x.len() } else { y.len() };
    if max == 0 {
        return (1, 1);
    }
    (l, max)
}

/// The longest common subsequence does not depend on the order of its
/// arguments.
pub proof fn lemma_lcs_symmetric(a: Seq<char>, b: Seq<char>)
    ensures
        lcs(a, b) == lcs(b, a),
    decreases a.len() + b.len(),
{
    if a.len() > 0 && b.len() > 0 {
        lemma_lcs_symmetric(a.drop_last(), b.drop_last());
        lemma_lcs_symmetric(a.drop_last(), b);
        lemma_lcs_symmetric(a, b.drop_last());
    }
}

/// Title similarity is symmetric, lies between 0 and 1, and is 1 for a
/// title and itself.
pub proof fn law_similarity_symmetric_and_bounded(a: Seq<char>, b: Seq<char>)
    ensures
        similarity(a, b) == similarity(b, a),
        similarity(a, b).0 <= similarity(a, b).1,
        similarity(a, b).1 > 0,
        similarity(a, a) == (1nat, 1nat),
{
    lemma_lcs_symmetric(lowercase(a), lowercase(b));
    lemma_lcs_bounded(lowercase(a), lowercase(b));
}

/// A similarity of at least 0.6 makes two titles duplicates.
pub open spec fn is_duplicate(s: (nat, nat)) -> bool {
    10 * s.0 >= 6 * s.1
}

/// `s` is strictly more alike than `t`.
pub open spec fn more_alike(s: (nat, nat), t: (nat, nat)) -> bool {
    s.0 * t.1 > t.0 * s.1
}

/// The best duplicate among the candidate stems from index `k` on, given
/// the best so far: the first of the most alike, at similarity 0.6 or more.
pub open spec fn best_from(stem: Seq<char>, cands: Seq<Seq<char>>, k: int, best: Option<int>) -> Option<int>
    decreases cands.len() - k,
{
    if k < 0 || k >= cands.len() {
        best
    } else {
        let s = similarity(stem, cands[k]);
        let better = is_duplicate(s) && match best {
            None => true,
            Some(b) => more_alike(s, similarity(stem, cands[b])),
        };
        best_from(stem, cands, k + 1, if better { Some(k) } else { best })
    }
}

/// The index of the note, among `candidates` (the stems of the notes in the
/// new note's folder), that a note with stem `stem` duplicates, if any.
pub fn best_duplicate(stem: &str, candidates: &[String]) -> (r: Option<usize>)
    ensures
        r matches Some(i) ==> i < candidates@.len() && best_from(stem@, string_views(candidates@), 0, None) == Some(i as int),
        r is None ==> best_from(stem@, string_views(candidates@), 0, None) is None,
{
    let ghost cs = string_views(candidates@);
    let mut best: Option<(usize, usize, usize)> = None;
    let mut k: usize = 0;
    while k < candidates.len()
        invariant
            k <= candidates@.len(),
            cs == string_views(candidates@),
            best matches Some((b, num, den)) ==> b < k && (num as nat, den as nat) == similarity(stem@, cs[b as int]) && den > 0,
            best_from(stem@, cs, 0, None) == best_from(stem@, cs, k as int, match best {
                Some((b, _, _)) => Some(b as int),
                None => None,
            }),
        decreases candidates.len() - k,
    {
        let (num, den) = title_similarity(stem, candidates[k].as_str());
        assert(cs[k as int] == candidates@[k as int]@);
        let dup = (num as u128) * 10 >= (den as u128) * 6;
        let better = dup && match best {
            None => true,
            Some((_, bn, bd)) => {
                let (x, y, z, w) = (num as u128, bd as u128, bn as u128, den as u128);
                assert(x * y <= 0xffff_ffff_ffff_ffffu128 * 0xffff_ffff_ffff_ffffu128) by (nonlinear_arith)
                    requires
                        x <= 0xffff_ffff_ffff_ffffu128,
                        y <= 0xffff_ffff_ffff_ffffu128,
                ;
                assert(z * w <= 0xffff_ffff_ffff_ffffu128 * 0xffff_ffff_ffff_ffffu128) by (nonlinear_arith)
                    requires
                        z <= 0xffff_ffff_ffff_ffffu128,
                        w <= 0xffff_ffff_ffff_ffffu128,
                ;
                x * y > z * w
            },
        };
        if better {
            best = Some((k, num, den));
        }
        k = k + 1;
    }
    match best {
        Some((b, _, _)) => Some(b),
        None => None,
    }
}

/// A character that cannot stand in a file name (or is a space).
pub open spec fn is_unsafe_in_name(c: char) -> bool {
    c == '/' || c == '\\' || c == ':' || c == '*' || c == '?' || c == '"' || c == '<' || c == '>' || c == '|'
        || c == ' '
}

/// `s` with each unsafe character replaced by `-`.
pub open spec fn dashed(s: Seq<char>) -> Seq<char> {
    s.map_values(|c: char| if is_unsafe_in_name(c) { '-' } else { c })
}

/// `s` without its leading and trailing `-`.
pub open spec fn trim_dashes(s: Seq<char>) -> Seq<char>
    decreases s.len(),
{
    if s.len() > 0 && s[0] == '-' {
        trim_dashes(s.drop_first())
    } else if s.len() > 0 && s.last() == '-' {
        trim_dashes(s.drop_last())
    } else {
        s
    }
}

/// A file name made of a title: unsafe characters and spaces become `-`,
/// and leading and trailing `-` are dropped.
pub fn sanitize_filename(name: &str) -> (r: String)
    ensures
        r@ == trim_dashes(dashed(name@)),
{
    let v = crate::text::chars_of(name);
    let mut d: Vec<char> = Vec::new();
    let mut i: usize = 0;
    while i < v.len()
        invariant
            i <= v@.len(),
            v@ == name@,
            d@ == dashed(v@.take(i as int)),
        decreases v.len() - i,
    {
        let c = v[i];
        let u = c == '/' || c == '\\' || c == ':' || c == '*' || c == '?' || c == '"' || c == '<' || c == '>'
            || c == '|' || c == ' ';
        d.push(if u { '-' } else { c });
        assert(dashed(v@.take(i + 1)) =~= dashed(v@.take(i as int)).push(if u { '-' } else { c }));
        i = i + 1;
    }
    assert(v@.take(v@.len() as int) =~= v@);
    let mut lo: usize = 0;
    let mut hi: usize = d.len();
    assert(d@.subrange(0, d@.len() as int) =~= d@);
    while lo < hi && (d[lo] == '-' || d[hi - 1] == '-')
        invariant
            lo <= hi <= d@.len(),
            trim_dashes(d@) == trim_dashes(d@.subrange(lo as int, hi as int)),
        decreases hi - lo,
    {
        let ghost s = d@.subrange(lo as int, hi as int);
        if d[lo] == '-' {
            assert(s.drop_first() =~= d@.subrange(lo + 1, hi as int));
            lo = lo + 1;
        } else {
            assert(s.drop_last() =~= d@.subrange(lo as int, hi - 1));
            hi = hi - 1;
        }
    }
    crate::text::string_of(d.as_slice(), lo, hi)
}

/// A category's folder name: its name lower-cased.
pub open spec fn category_folder(c: Category) -> Seq<char> {
    match c {
        Category::Task => "task"@,
        Category::Meeting => "meeting"@,
        Category::Communication => "communication"@,
        Category::Research => "research"@,
        Category::Review => "review"@,
        Category::Planning => "planning"@,
        Category::Document => "document"@,
        Category::Decision => "decision"@,
    }
}

fn category_folder_str(c: Category) -> (r: &'static str)
    ensures
        r@ == category_folder(c),
{
    match c {
        Category::Task => "task",
        Category::Meeting => "meeting",
        Category::Communication => "communication",
        Category::Research => "research",
        Category::Review => "review",
        Category::Planning => "planning",
        Category::Document => "document",
        Category::Decision => "decision",
    }
}

/// The vault path of a record's note: `journal/<date>/<category>/<title>.md`,
/// by its UTC creation date, its category's folder and its file-safe title
/// (empty when the creation instant has no date).
pub open spec fn note_path(r: WorkRecord) -> Seq<char> {
    match utc_date(r.created_at_ms as int) {
        Some((y, m, d)) => "journal/"@ + ymd_text(y, m, d) + "/"@ + category_folder(r.category) + "/"@
            + trim_dashes(dashed(r.title@)) + ".md"@,
        None => Seq::empty(),
    }
}

/// `s` with the first occurrence of `pat` replaced by `rep` (unchanged when
/// `pat` does not occur), as `str::replacen` with a count of one.
pub open spec fn replace_first(s: Seq<char>, pat: Seq<char>, rep: Seq<char>) -> Seq<char> {
    match find(s, pat) {
        Some(p) => s.subrange(0, p) + rep + s.subrange(p + pat.len(), s.len() as int),
        None => s,
    }
}

/// The line that lists one source event in a note.
pub open spec fn event_marker(id: Seq<char>) -> Seq<char> {
    "- `"@ + id + "`\n"@
}

/// A note with source event `id` listed: unchanged when it is listed; else
/// added under the note's source-event heading when it has one, else under a
/// new one at the end.
pub open spec fn with_event(content: Seq<char>, id: Seq<char>) -> Seq<char> {
    let marker = event_marker(id);
    if crate::text::contains(content, marker) {
        content
    } else if crate::text::contains(content, "**来源事件:**"@) {
        replace_first(content, "**来源事件:**\n"@, "**来源事件:**\n"@ + marker)
    } else {
        content + "\n---\n**来源事件:**\n"@ + marker
    }
}

/// A note with each of `ids` listed, in order.
pub open spec fn with_events(content: Seq<char>, ids: Seq<Seq<char>>) -> Seq<char>
    decreases ids.len(),
{
    if ids.len() == 0 {
        content
    } else {
        with_event(with_events(content, ids.drop_last()), ids.last())
    }
}

/// A line as `str::lines` gives it: without a trailing carriage return.
pub open spec fn strip_cr(l: Seq<char>) -> Seq<char> {
    if l.len() > 0 && l.last() == '\r' { l.drop_last() } else { l }
}

/// The first of `lines`, from index `k` on, that starts with `task_status:`.
pub open spec fn status_line_from(lines: Seq<Seq<char>>, k: int) -> Option<Seq<char>>
    decreases lines.len() - k,
{
    if k < 0 || k >= lines.len() {
        None
    } else {
        let l = strip_cr(lines[k]);
        if l.len() >= 12 && l.subrange(0, 12) == "task_status:"@ {
            Some(l)
        } else {
            status_line_from(lines, k + 1)
        }
    }
}

/// A note with its task status set to `st`: the first `task_status:` line
/// is replaced; without one, the line goes before the end of the front
/// matter.
pub open spec fn with_status(content: Seq<char>, st: Seq<char>) -> Seq<char> {
    match status_line_from(crate::processor::task::discovery_text::split_lines(content), 0) {
        Some(old) => replace_first(content, old, "task_status: "@ + st),
        None => replace_first(content, "---\n\n"@, "task_status: "@ + st + "\n---\n\n"@),
    }
}

/// A note after a duplicate record is merged into it: the record's source
/// events listed, then its task status set when it has one.
pub open spec fn merged_note(content: Seq<char>, ids: Seq<Seq<char>>, status: Option<Seq<char>>) -> Seq<char> {
    let c = with_events(content, ids);
    match status {
        Some(st) => with_status(c, st),
        None => c,
    }
}

/// `s` with the first occurrence of `pat` replaced by `rep`.
pub fn replace_first_str(s: &str, pat: &str, rep: &str) -> (r: String)
    ensures
        r@ == replace_first(s@, pat@, rep@),
{
    let v = crate::text::chars_of(s);
    let p = crate::text::chars_of(pat);
    match crate::text::find_chars(v.as_slice(), p.as_slice()) {
        Some(i) => {
            proof {
                crate::text::lemma_find_from(s@, pat@, 0);
            }
            let n = v.len();
            let mut r = crate::text::string_of(v.as_slice(), 0, i);
            crate::text::append_str(&mut r, rep);
            crate::text::append_chars(&mut r, v.as_slice(), i + p.len(), n);
            r
        },
        None => String::from_str(s),
    }
}

fn with_event_exec(content: String, id: &str) -> (r: String)
    ensures
        r@ == with_event(content@, id@),
{
    let mut marker = String::from_str("- `");
    crate::text::append_str(&mut marker, id);
    crate::text::append_str(&mut marker, "`\n");
    let v = crate::text::chars_of(content.as_str());
    if crate::text::contains_str(v.as_slice(), marker.as_str()) {
        content
    } else if crate::text::contains_str(v.as_slice(), "**来源事件:**") {
        let mut rep = String::from_str("**来源事件:**\n");
        crate::text::append_str(&mut rep, marker.as_str());
        replace_first_str(content.as_str(), "**来源事件:**\n", rep.as_str())
    } else {
        let mut c = content;
        crate::text::append_str(&mut c, "\n---\n**来源事件:**\n");
        crate::text::append_str(&mut c, marker.as_str());
        c
    }
}

fn status_line(content: &str) -> (r: Option<String>)
    ensures
        crate::processor::task::model::opt_view(r) == status_line_from(
            crate::processor::task::discovery_text::split_lines(content@),
            0,
        ),
{
    let v = crate::text::chars_of(content);
    let lines = crate::processor::task::discovery_text::split_lines_of(v.as_slice());
    let ghost ls = views(lines@);
    let prefix = crate::text::chars_of("task_status:");
    proof { reveal_strlit("task_status:"); }
    let mut k: usize = 0;
    while k < lines.len()
        invariant
            k <= lines@.len(),
            ls == views(lines@),
            ls == crate::processor::task::discovery_text::split_lines(content@),
            prefix@ == "task_status:"@,
            prefix@.len() == 12,
            status_line_from(ls, 0) == status_line_from(ls, k as int),
        decreases lines.len() - k,
    {
        let line = &lines[k];
        let n = line.len();
        let end = if n > 0 && line[n - 1] == '\r' { n - 1 } else { n };
        assert(line@.subrange(0, end as int) == strip_cr(ls[k as int])) by {
            if n > 0 && line@[n - 1] == '\r' {
                assert(line@.subrange(0, end as int) =~= line@.drop_last());
            } else {
                assert(line@.subrange(0, end as int) =~= line@);
            }
        }
        if end >= 12 && crate::text::matches_at(line.as_slice(), prefix.as_slice(), 0) {
            assert(line@.subrange(0, end as int).subrange(0, 12) =~= line@.subrange(0, 12));
            return Some(crate::text::string_of(line.as_slice(), 0, end));
        }
        proof {
            if end >= 12 {
                assert(line@.subrange(0, end as int).subrange(0, 12) =~= line@.subrange(0, 12));
            }
        }
        k = k + 1;
    }
    None
}

/// The note after a duplicate record is merged into it (see `merged_note`).
pub fn merged_content(content: &str, event_ids: &[String], task_status: Option<&str>) -> (r: String)
    ensures
        r@ == merged_note(content@, string_views(event_ids@), crate::processor::task::discovery::opt_str_view(task_status)),
{
    let ghost ids = string_views(event_ids@);
    let mut c = String::from_str(content);
    let mut i: usize = 0;
    assert(ids.subrange(0, 0) =~= Seq::<Seq<char>>::empty());
    while i < event_ids.len()
        invariant
            i <= event_ids@.len(),
            ids == string_views(event_ids@),
            c@ == with_events(content@, ids.subrange(0, i as int)),
        decreases event_ids.len() - i,
    {
        assert(ids.subrange(0, i + 1).drop_last() =~= ids.subrange(0, i as int));
        c = with_event_exec(c, event_ids[i].as_str());
        i = i + 1;
    }
    assert(ids.subrange(0, ids.len() as int) =~= ids);
    match task_status {
        Some(st) => {
            let mut updated = String::from_str("task_status: ");
            crate::text::append_str(&mut updated, st);
            match status_line(c.as_str()) {
                Some(old) => replace_first_str(c.as_str(), old.as_str(), updated.as_str()),
                None => {
                    let mut rep = updated;
                    crate::text::append_str(&mut rep, "\n---\n\n");
                    replace_first_str(c.as_str(), "---\n\n", rep.as_str())
                },
            }
        },
        None => c,
    }
}

/// The persisting step: it decides paths, duplicates and merges; the vault
/// I/O around it is done by its caller.
pub struct PersistStep;

impl PersistStep {
    /// The vault path of `record`'s note (see `note_path`); `None` when its
    /// creation instant lies outside the dates `chrono` holds.
    pub fn generate_path(record: &WorkRecord) -> (r: Option<String>)
        ensures
            r is Some <==> utc_date(record.created_at_ms as int) is Some,
            r matches Some(p) ==> p@ == note_path(*record),
    {
        let date = match crate::processor::report::date::utc_date_of(record.created_at_ms) {
            Some(d) => d,
            None => {
                return None;
            },
        };
        let mut p = String::from_str("journal/");
        crate::text::append_str(&mut p, date.to_text().as_str());
        crate::text::append_str(&mut p, "/");
        crate::text::append_str(&mut p, category_folder_str(record.category));
        crate::text::append_str(&mut p, "/");
        crate::text::append_str(&mut p, sanitize_filename(record.title.as_str()).as_str());
        crate::text::append_str(&mut p, ".md");
        Some(p)
    }

    /// A file name made of a title (see `sanitize_filename`).
    pub fn sanitize_filename(name: &str) -> (r: String)
        ensures
            r@ == trim_dashes(dashed(name@)),
    {
        sanitize_filename(name)
    }

    /// How alike two titles are (see `similarity`).
    pub fn title_similarity(a: &str, b: &str) -> (r: (usize, usize))
        ensures
            (r.0 as nat, r.1 as nat) == similarity(a@, b@),
            r.1 > 0,
    {
        title_similarity(a, b)
    }

    /// The note a duplicate record leaves (see `merged_note`).
    pub fn merge_into_existing(content: &str, new_record: &WorkRecord) -> (r: String)
        ensures
            r@ == merged_note(
                content@,
                string_views(new_record.source_event_ids@),
                crate::processor::task::model::opt_view(new_record.task_status),
            ),
    {
        let status: Option<&str> = match &new_record.task_status {
            Some(s) => Some(s.as_str()),
            None => None,
        };
        merged_content(content, new_record.source_event_ids.as_slice(), status)
    }

    /// The note a new note with stem `stem` duplicates (see `best_duplicate`).
    pub fn find_similar(stem: &str, candidates: &[String]) -> (r: Option<usize>)
        ensures
            r matches Some(i) ==> i < candidates@.len() && best_from(stem@, string_views(candidates@), 0, None) == Some(i as int),
            r is None ==> best_from(stem@, string_views(candidates@), 0, None) is None,
    {
        best_duplicate(stem, candidates)
    }
}

/// The note has a line that reads `id: <id>` once trimmed.
pub open spec fn has_id_line(content: Seq<char>, id: Seq<char>) -> bool {
    exists|i: int|
        0 <= i < crate::processor::task::discovery_text::split_lines(content).len() && crate::text::trim(
            #[trigger] crate::processor::task::discovery_text::split_lines(content)[i],
        ) == "id: "@ + id
}

/// Whether the note names record `record_id` in its front matter (see
/// `has_id_line`): how a similar record's note is recognised among the notes
/// beside a new one.
pub fn note_has_id(content: &str, record_id: &str) -> (r: bool)
    ensures
        r == has_id_line(content@, record_id@),
{
    let v = crate::text::chars_of(content);
    let lines = crate::processor::task::discovery_text::split_lines_of(v.as_slice());
    let ghost ls = crate::processor::task::discovery_text::split_lines(content@);
    let mut target = String::from_str("id: ");
    crate::text::append_str(&mut target, record_id);
    let mut i: usize = 0;
    while i < lines.len()
        invariant
            i <= lines@.len(),
            v@ == content@,
            crate::processor::task::discovery_text::views(lines@) == ls,
            ls == crate::processor::task::discovery_text::split_lines(content@),
            target@ == "id: "@ + record_id@,
            forall|j: int| 0 <= j < i ==> crate::text::trim(#[trigger] ls[j]) != target@,
        decreases lines.len() - i,
    {
        let line = &lines[i];
        assert(ls[i as int] == line@);
        let (a, b) = crate::text::trim_bounds(line.as_slice(), 0, line.len());
        assert(line@.subrange(0, line@.len() as int) =~= line@);
        let t = crate::text::string_of(line.as_slice(), a, b);
        if crate::text::str_eq(t.as_str(), target.as_str()) {
            assert(crate::text::trim(ls[i as int]) == "id: "@ + record_id@);
            return true;
        }
        i = i + 1;
    }
    false
}

} // verus!
