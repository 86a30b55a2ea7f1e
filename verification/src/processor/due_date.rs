//! Due dates written in free text: ISO dates (`2026-06-15`, `2026/06/15`),
//! relative Chinese expressions (明天, 后天, 下周一, 本周五, 月底, 年底) and
//! an optional clock time (下午5点, 10:00); 18:00 when none is given.
use vstd::prelude::*;
use crate::processor::extraction::{extract_time_from_text, time_in_text};
use crate::processor::report::date::{
    add_days, days_after, days_from_civil, lemma_day_of_date_of_day, days_in_month, last_day_of_month, local_to_utc_millis, local_today, naive_utc_millis, parse_ymd, parsed_ymd,
    weekday_from_monday, weekday_index, Date,
};
use crate::text::contains;

verus! {

/// The date the first ten characters of `text` spell, with dashes or else
/// with slashes.
pub open spec fn iso_date_of(text: Seq<char>) -> Option<(int, int, int)> {
    if text.len() >= 10 {
        match parsed_ymd(text.take(10), "%Y-%m-%d"@) {
            Some(x) => Some(x),
            None => parsed_ymd(text.take(10), "%Y/%m/%d"@),
        }
    } else {
        None
    }
}

/// The weekday names, in the order they are looked for.
pub open spec fn weekday_names() -> Seq<Seq<char>> {
    seq![
        "周一"@, "周二"@, "周三"@, "周四"@, "周五"@, "周六"@, "周日"@, "周天"@,
        "星期一"@, "星期二"@, "星期三"@, "星期四"@, "星期五"@, "星期六"@, "星期日"@, "星期天"@,
    ]
}

/// The weekday (from Monday, 0) each name stands for.
pub open spec fn weekday_of_name(k: int) -> int {
    if k < 7 { k } else if k == 7 { 6 } else if k < 15 { k - 8 } else { 6 }
}

/// The weekday (from Monday, 0) a weekday name denotes, read from its last
/// character: 一 to 六 are Monday to Saturday, 日 and 天 Sunday; -1 for
/// any other character.
pub open spec fn named_weekday(name: Seq<char>) -> int {
    let c = name.last();
    if c == '一' {
        0
    } else if c == '二' {
        1
    } else if c == '三' {
        2
    } else if c == '四' {
        3
    } else if c == '五' {
        4
    } else if c == '六' {
        5
    } else if c == '日' || c == '天' {
        6
    } else {
        -1
    }
}

proof fn lemma_weekday_names_denote(k: int)
    requires
        0 <= k < 16,
    ensures
        weekday_of_name(k) == named_weekday(weekday_names()[k]),
{
    reveal_strlit("周一");
    reveal_strlit("周二");
    reveal_strlit("周三");
    reveal_strlit("周四");
    reveal_strlit("周五");
    reveal_strlit("周六");
    reveal_strlit("周日");
    reveal_strlit("周天");
    reveal_strlit("星期一");
    reveal_strlit("星期二");
    reveal_strlit("星期三");
    reveal_strlit("星期四");
    reveal_strlit("星期五");
    reveal_strlit("星期六");
    reveal_strlit("星期日");
    reveal_strlit("星期天");
}

/// The index of the first weekday name from `k` on that `text` holds.
pub open spec fn first_weekday_from(text: Seq<char>, k: int) -> Option<int>
    decreases 16 - k,
{
    if k < 0 || k >= 16 {
        None
    } else if contains(text, weekday_names()[k]) {
        Some(k)
    } else {
        first_weekday_from(text, k + 1)
    }
}

proof fn lemma_first_weekday_range(text: Seq<char>, k: int)
    requires
        0 <= k,
    ensures
        first_weekday_from(text, k) matches Some(j) ==> k <= j < 16,
    decreases 16 - k,
{
    if k < 16 && !contains(text, weekday_names()[k]) {
        lemma_first_weekday_range(text, k + 1);
    }
}

/// The text speaks of next week.
pub open spec fn says_next_week(text: Seq<char>) -> bool {
    contains(text, "下周"@) || contains(text, "下个星期"@)
}

/// The text speaks of this week.
pub open spec fn says_this_week(text: Seq<char>) -> bool {
    contains(text, "本周"@) || contains(text, "这周"@) || contains(text, "这个星期"@)
}

/// The days from a day of weekday `current` to weekday `target`: the coming
/// one (a week on when it is today); next week's, the one in the calendar
/// week (Monday to Sunday) after this one; this week's, today or later in
/// the week, else the coming one.
pub open spec fn days_until(target: int, current: int, next_week: bool, this_week: bool) -> int {
    let diff = target - current;
    if next_week {
        diff + 7
    } else if this_week {
        if diff < 0 { diff + 7 } else { diff }
    } else {
        if diff <= 0 { diff + 7 } else { diff }
    }
}

/// The days from `today` to the weekday the text names, when it names one.
pub open spec fn weekday_offset(text: Seq<char>, today: (int, int, int)) -> Option<int> {
    match first_weekday_from(text, 0) {
        Some(k) => Some(days_until(
            weekday_of_name(k),
            weekday_index(today.0, today.1, today.2),
            says_next_week(text),
            says_this_week(text),
        )),
        None => None,
    }
}

/// A named weekday is reached by the days the text calls for: from any date,
/// the date `weekday_offset` days on falls on the weekday the name denotes
/// (星期三 and 周三 on a Wednesday, 周日 on a Sunday); without 下周 or 本周 it
/// is the coming one, one to seven days on; with 本周 alone it is today or
/// later in the week; with 下周 it lies one to thirteen days on.
pub proof fn law_weekday_lands_on_name(text: Seq<char>, y: int, m: int, d: int)
    ensures
        first_weekday_from(text, 0) matches Some(k) ==> (weekday_offset(text, (y, m, d)) matches Some(n) && {
            &&& (days_after(y, m, d, n as nat) matches Some(x) ==> weekday_index(x.0, x.1, x.2) == named_weekday(
                weekday_names()[k],
            ))
            &&& (!says_next_week(text) && !says_this_week(text) ==> 1 <= n <= 7)
            &&& (!says_next_week(text) && says_this_week(text) ==> 0 <= n <= 6)
            &&& (says_next_week(text) ==> 1 <= n <= 13)
        }),
{
    lemma_first_weekday_range(text, 0);
    if first_weekday_from(text, 0) is Some {
        let k = first_weekday_from(text, 0)->0;
        lemma_weekday_names_denote(k);
        let target = weekday_of_name(k);
        let cur = weekday_index(y, m, d);
        let n = days_until(target, cur, says_next_week(text), says_this_week(text));
        assert(0 <= cur < 7);
        assert(0 <= target < 7);
        assert(n >= 0);
        let t = days_from_civil(y, m, d) + n;
        lemma_day_of_date_of_day(t);
        lemma_weekday_step(days_from_civil(y, m, d) + 3, n, target);
    }
}

proof fn lemma_weekday_step(a: int, n: int, target: int)
    requires
        0 <= target < 7,
        (a % 7 + n) % 7 == target,
    ensures
        (a + n) % 7 == target,
{
    vstd::arithmetic::div_mod::lemma_add_mod_noop(a, n, 7);
    vstd::arithmetic::div_mod::lemma_mod_twice(n, 7);
}

/// The kind of due date a text gives, in the order the kinds are tried.
pub enum DueKind {
    /// A written date.
    Iso(int, int, int),
    /// Today.
    Today,
    /// A number of days from today.
    Days(int),
    /// A named weekday.
    Weekday,
    /// The last day of this month.
    MonthEnd,
    /// The last day of this year.
    YearEnd,
}

/// The kind of due date the text gives; `None` when it gives none.
pub open spec fn due_kind(text: Seq<char>) -> Option<DueKind> {
    match iso_date_of(text) {
        Some((y, m, d)) => Some(DueKind::Iso(y, m, d)),
        None => if contains(text, "后天"@) {
            Some(DueKind::Days(2))
        } else if contains(text, "明天"@) {
            Some(DueKind::Days(1))
        } else if contains(text, "今天"@) {
            Some(DueKind::Today)
        } else if first_weekday_from(text, 0) is Some {
            Some(DueKind::Weekday)
        } else if contains(text, "月底"@) {
            Some(DueKind::MonthEnd)
        } else if contains(text, "年底"@) || contains(text, "年末"@) {
            Some(DueKind::YearEnd)
        } else {
            None
        },
    }
}

/// The clock time of a due date: the one written in the text, else 18:00.
pub open spec fn due_time(text: Seq<char>) -> (nat, nat) {
    match time_in_text(text) {
        Some(t) => t,
        None => (18, 0),
    }
}

/// The due date the text gives, seen from `today`, when it gives one and
/// the date is one `chrono` holds: as (year, month, day).
pub open spec fn due_date_of(text: Seq<char>, today: (int, int, int)) -> Option<(int, int, int)> {
    let (y, m, d) = today;
    match due_kind(text) {
        Some(DueKind::Iso(a, b, c)) => Some((a, b, c)),
        Some(DueKind::Today) => Some((y, m, d)),
        Some(DueKind::Days(n)) => days_after(y, m, d, n as nat),
        Some(DueKind::Weekday) => days_after(y, m, d, weekday_offset(text, today)->0 as nat),
        Some(DueKind::MonthEnd) => if m == 12 && y >= 262142 {
            None
        } else {
            Some((y, m, days_in_month(y, m)))
        },
        Some(DueKind::YearEnd) => Some((y, 12, 31)),
        None => None,
    }
}

/// The text's first ten characters.
fn first_ten(text: &str) -> (r: Option<String>)
    ensures
        match r {
            Some(s) => text@.len() >= 10 && s@ == text@.take(10),
            None => text@.len() < 10,
        },
{
    let chars = crate::text::chars_of(text);
    if chars.len() < 10 {
        return None;
    }
    let mut s = String::new();
    let mut i: usize = 0;
    while i < 10
        invariant
            i <= 10,
            chars@.len() >= 10,
            chars@ == text@,
            s@ == text@.take(i as int),
        decreases 10 - i,
    {
        crate::text::push_char(&mut s, chars[i]);
        assert(text@.take(i + 1) =~= text@.take(i as int).push(chars@[i as int]));
        i = i + 1;
    }
    Some(s)
}

/// The date the text's first ten characters spell (see `iso_date_of`).
pub fn try_parse_iso_date(text: &str) -> (r: Option<Date>)
    ensures
        match r {
            Some(x) => iso_date_of(text@) == Some((x.y(), x.m(), x.d())),
            None => iso_date_of(text@) is None,
        },
{
    match first_ten(text) {
        Some(candidate) => {
            match parse_ymd(candidate.as_str(), "%Y-%m-%d") {
                Some(d) => Some(d),
                None => parse_ymd(candidate.as_str(), "%Y/%m/%d"),
            }
        },
        None => None,
    }
}

/// The first weekday name `text` holds, by its index (see
/// `first_weekday_from`).
fn find_weekday_name(text: &Vec<char>) -> (r: Option<usize>)
    ensures
        match r {
            Some(k) => first_weekday_from(text@, 0) == Some(k as int),
            None => first_weekday_from(text@, 0) is None,
        },
{
    let names: [&str; 16] = [
        "周一", "周二", "周三", "周四", "周五", "周六", "周日", "周天",
        "星期一", "星期二", "星期三", "星期四", "星期五", "星期六", "星期日", "星期天",
    ];
    assert(names@.map_values(|x: &str| x@) =~= weekday_names());
    let mut k: usize = 0;
    while k < 16
        invariant
            k <= 16,
            names@.map_values(|x: &str| x@) == weekday_names(),
            first_weekday_from(text@, 0) == first_weekday_from(text@, k as int),
        decreases 16 - k,
    {
        assert(names@[k as int]@ == weekday_names()[k as int]);
        if crate::text::contains_str(text.as_slice(), names[k]) {
            return Some(k);
        }
        k = k + 1;
    }
    None
}

/// The date of the weekday the text names, seen from `today` (see
/// `weekday_offset`); `None` when it names none, or when the date is past
/// the dates `chrono` holds.
pub fn extract_next_weekday(text: &str, today: &Date) -> (r: Option<Date>)
    ensures
        r matches Some(x) ==> (first_weekday_from(text@, 0) matches Some(k) && weekday_index(x.y(), x.m(), x.d())
            == named_weekday(weekday_names()[k])),
        first_weekday_from(text@, 0) is None ==> r is None,
        first_weekday_from(text@, 0) is Some ==> (weekday_offset(text@, (today.y(), today.m(), today.d())) matches Some(n)
            && match r {
                Some(x) => days_after(today.y(), today.m(), today.d(), n as nat) == Some((x.y(), x.m(), x.d())),
                None => days_after(today.y(), today.m(), today.d(), n as nat) is None,
            }),
{
    proof {
        law_weekday_lands_on_name(text@, today.y(), today.m(), today.d());
    }
    let v = crate::text::chars_of(text);
    let k = match find_weekday_name(&v) {
        Some(k) => k,
        None => {
            return None;
        },
    };
    let target: i64 = if k < 7 {
        k as i64
    } else if k == 7 {
        6
    } else if k < 15 {
        k as i64 - 8
    } else {
        6
    };
    let next_week = crate::text::contains_str(v.as_slice(), "下周") || crate::text::contains_str(v.as_slice(), "下个星期");
    let this_week = crate::text::contains_str(v.as_slice(), "本周") || crate::text::contains_str(v.as_slice(), "这周")
        || crate::text::contains_str(v.as_slice(), "这个星期");
    let current = weekday_from_monday(today) as i64;
    let diff = target - current;
    let days: i64 = if next_week {
        diff + 7
    } else if this_week {
        if diff < 0 { diff + 7 } else { diff }
    } else {
        if diff <= 0 { diff + 7 } else { diff }
    };
    add_days(today, days as u64)
}

/// Whether the text holds `word`.
fn holds(v: &Vec<char>, word: &str) -> (r: bool)
    ensures
        r == contains(v@, word@),
{
    crate::text::contains_str(v.as_slice(), word)
}

/// The due date and clock time the text gives, seen from `today` (see
/// `due_date_of` and `due_time`); `None` when it gives none, or when the date
/// is past the dates `chrono` holds.
pub fn due_date_parts(raw: &str, today: &Date) -> (r: Option<(Date, u32, u32)>)
    ensures
        due_kind(raw@) is None ==> r is None,
        r is Some <==> due_date_of(raw@, (today.y(), today.m(), today.d())) is Some,
        r matches Some((x, h, m)) ==> due_date_of(raw@, (today.y(), today.m(), today.d())) == Some((x.y(), x.m(), x.d()))
            && (h as nat, m as nat) == due_time(raw@) && h < 24 && m < 60,
        (due_kind(raw@) matches Some(DueKind::Iso(_, _, _))) ==> r is Some,
        (due_kind(raw@) matches Some(DueKind::YearEnd)) ==> r is Some,
        (due_kind(raw@) matches Some(DueKind::Today)) ==> r is Some,
        (due_kind(raw@) matches Some(DueKind::Weekday)) ==> (r matches Some((x, _h, _m)) ==> (first_weekday_from(raw@, 0) matches Some(
            k,
        ) && weekday_index(x.y(), x.m(), x.d()) == named_weekday(weekday_names()[k]))),
        (due_kind(raw@) matches Some(DueKind::MonthEnd)) ==> (r is Some <==> !(today.m() == 12 && today.y() >= 262142)),
{
    proof {
        law_weekday_lands_on_name(raw@, today.y(), today.m(), today.d());
    }
    let v = crate::text::chars_of(raw);
    let date = match try_parse_iso_date(raw) {
        Some(d) => Some(d),
        None => {
            if holds(&v, "后天") {
                add_days(today, 2)
            } else if holds(&v, "明天") {
                add_days(today, 1)
            } else if holds(&v, "今天") {
                Some(*today)
            } else if find_weekday_name(&v).is_some() {
                extract_next_weekday(raw, today)
            } else if holds(&v, "月底") {
                let y = today.year();
                let m = today.month();
                if m == 12 && y >= 262142 {
                    None
                } else {
                    Some(last_day_of_month(y, m))
                }
            } else if holds(&v, "年底") || holds(&v, "年末") {
                Date::from_ymd(today.year(), 12, 31)
            } else {
                return None;
            }
        },
    };
    let date = match date {
        Some(d) => d,
        None => {
            return None;
        },
    };
    let (h, m) = match extract_time_from_text(raw) {
        Some(t) => t,
        None => (18, 0),
    };
    Some((date, h, m))
}

/// `raw`'s due instant, in milliseconds since the Unix epoch: the date and
/// time `due_date_parts` gives from today, read in the machine's time zone
/// (read as UTC when that zone gives no single instant).  `None` when the
/// text gives no due date.  Which instant comes back depends on the clock
/// and the time zone and is not stated.
pub fn parse_due_date_from_text(raw: &str) -> (r: Option<i64>)
    ensures
        due_kind(raw@) is None ==> r is None,
        (due_kind(raw@) matches Some(DueKind::Iso(_, _, _))) ==> r is Some,
        (due_kind(raw@) matches Some(DueKind::Today)) ==> r is Some,
        (due_kind(raw@) matches Some(DueKind::YearEnd)) ==> r is Some,
{
    let today = local_today();
    match due_date_parts(raw, &today) {
        Some((date, h, m)) => match local_to_utc_millis(&date, h, m) {
            Some(ms) => Some(ms),
            None => Some(naive_utc_millis(&date, h, m)),
        },
        None => None,
    }
}

} // verus!
