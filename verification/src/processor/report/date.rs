//! Calendar dates of the proleptic Gregorian calendar, in the range `chrono`
//! supports, and the date arithmetic reports need.
use vstd::prelude::*;
use crate::text::decimal;
use chrono::Datelike;

verus! {

/// Whether `y` is a leap year.
pub open spec fn is_leap(y: int) -> bool {
    (y % 4 == 0 && y % 100 != 0) || y % 400 == 0
}

/// The number of days in month `m` of year `y`.
pub open spec fn days_in_month(y: int, m: int) -> int {
    if m == 2 {
        if is_leap(y) { 29 } else { 28 }
    } else if m == 4 || m == 6 || m == 9 || m == 11 {
        30
    } else {
        31
    }
}

/// `(y, m, d)` is a date `chrono::NaiveDate` can hold: years -262143 to
/// 262142, months 1 to 12, days within the month.
pub open spec fn valid_ymd(y: int, m: int, d: int) -> bool {
    &&& -262143 <= y <= 262142
    &&& 1 <= m <= 12
    &&& 1 <= d <= days_in_month(y, m)
}

/// A calendar date.
#[derive(Debug, Clone, Copy, PartialEq, Eq, Structural)]
pub struct Date {
    year: i32,
    month: u32,
    day: u32,
}

/// `s` left-padded with `'0'` to at least `w` characters.
pub open spec fn zero_pad(s: Seq<char>, w: nat) -> Seq<char>
    decreases w - s.len(),
{
    if s.len() >= w {
        s
    } else {
        zero_pad(seq!['0'] + s, w)
    }
}

/// The year as `%Y` writes it: four digits at least; a sign before years
/// outside 0 to 9999.
pub open spec fn year_text(y: int) -> Seq<char> {
    if 0 <= y <= 9999 {
        zero_pad(decimal(y as nat), 4)
    } else if y < 0 {
        seq!['-'] + zero_pad(decimal((-y) as nat), 4)
    } else {
        seq!['+'] + zero_pad(decimal(y as nat), 4)
    }
}

/// The date as `%Y-%m-%d` (and `Display`) writes it.
pub open spec fn ymd_text(y: int, m: int, d: int) -> Seq<char> {
    year_text(y) + seq!['-'] + zero_pad(decimal(m as nat), 2) + seq!['-'] + zero_pad(decimal(d as nat), 2)
}

impl Date {
    #[verifier::type_invariant]
    spec fn is_valid(self) -> bool {
        valid_ymd(self.year as int, self.month as int, self.day as int)
    }

    pub closed spec fn y(self) -> int {
        self.year as int
    }

    pub closed spec fn m(self) -> int {
        self.month as int
    }

    pub closed spec fn d(self) -> int {
        self.day as int
    }

    /// The date's text, `YYYY-MM-DD`.
    pub open spec fn text(self) -> Seq<char> {
        ymd_text(self.y(), self.m(), self.d())
    }

    /// The date `year-month-day`, when it exists.
    pub fn from_ymd(year: i32, month: u32, day: u32) -> (r: Option<Date>)
        ensures
            r is Some == valid_ymd(year as int, month as int, day as int),
            r matches Some(x) ==> x.y() == year && x.m() == month && x.d() == day,
    {
        if year < -262143 || year > 262142 || month < 1 || month > 12 || day < 1 {
            return None;
        }
        if day > days_in(year, month) {
            return None;
        }
        Some(Date { year, month, day })
    }

    pub fn year(&self) -> (r: i32)
        ensures
            r == self.y(),
            valid_ymd(self.y(), self.m(), self.d()),
    {
        proof { use_type_invariant(self); }
        self.year
    }

    pub fn month(&self) -> (r: u32)
        ensures
            r == self.m(),
    {
        self.month
    }

    pub fn day(&self) -> (r: u32)
        ensures
            r == self.d(),
    {
        self.day
    }

    /// The date as text, `YYYY-MM-DD`.
    pub fn to_text(&self) -> (r: String)
        ensures
            r@ == self.text(),
    {
        proof { use_type_invariant(self); }
        let mut s = String::new();
        push_year(&mut s, self.year);
        crate::text::push_char(&mut s, '-');
        push_padded(&mut s, self.month as u64, 2);
        crate::text::push_char(&mut s, '-');
        push_padded(&mut s, self.day as u64, 2);
        s
    }
}

/// The number of days in month `month` of `year`.
pub fn days_in(year: i32, month: u32) -> (r: u32)
    requires
        -262143 <= year <= 262142,
        1 <= month <= 12,
    ensures
        r == days_in_month(year as int, month as int),
{
    if month == 2 {
        let yy: i64 = year as i64 + 400000;
        assert(yy % 4 == (year as int) % 4 && yy % 100 == (year as int) % 100 && yy % 400 == (year as int) % 400)
            by (nonlinear_arith)
            requires
                yy == year as int + 400000,
        ;
        if (yy % 4 == 0 && yy % 100 != 0) || yy % 400 == 0 {
            29
        } else {
            28
        }
    } else if month == 4 || month == 6 || month == 9 || month == 11 {
        30
    } else {
        31
    }
}

/// The last day of month `month` of `year`.
pub fn last_day_of_month(year: i32, month: u32) -> (r: Date)
    requires
        -262143 <= year <= 262142,
        1 <= month <= 12,
    ensures
        r.y() == year && r.m() == month && r.d() == days_in_month(year as int, month as int),
{
    Date { year, month, day: days_in(year, month) }
}

/// Appends `n` left-padded with zeros to at least `w` digits.
pub(crate) fn push_padded(s: &mut String, n: u64, w: usize)
    requires
        w <= 4,
    ensures
        final(s)@ == old(s)@ + zero_pad(decimal(n as nat), w as nat),
{
    let t = crate::text::decimal_string(n);
    let len = t.unicode_len();
    let mut k = len;
    let ghost mut pad: Seq<char> = Seq::empty();
    while k < w
        invariant
            len == t@.len(),
            t@ == decimal(n as nat),
            len <= k,
            w <= 4,
            pad.len() == k - len,
            forall|i: int| 0 <= i < pad.len() ==> pad[i] == '0',
            s@ == old(s)@ + pad,
            zero_pad(t@, w as nat) == zero_pad(pad + t@, w as nat),
        decreases w - k,
    {
        crate::text::push_char(s, '0');
        proof {
            let ghost before = pad;
            pad = pad.push('0');
            assert(seq!['0'] + (before + t@) =~= pad + t@);
        }
        k = k + 1;
    }
    crate::text::append_str(s, t.as_str());
    proof {
        assert(s@ =~= old(s)@ + (pad + t@));
    }
}

fn push_year(s: &mut String, y: i32)
    ensures
        final(s)@ == old(s)@ + year_text(y as int),
{
    if 0 <= y && y <= 9999 {
        push_padded(s, y as u64, 4);
    } else if y < 0 {
        crate::text::push_char(s, '-');
        let a: u64 = (-(y as i64)) as u64;
        push_padded(s, a, 4);
        assert(s@ =~= old(s)@ + (seq!['-'] + zero_pad(decimal((-y) as nat), 4)));
    } else {
        crate::text::push_char(s, '+');
        push_padded(s, y as u64, 4);
        assert(s@ =~= old(s)@ + (seq!['+'] + zero_pad(decimal(y as nat), 4)));
    }
}

/// The number of days from 1970-01-01 to `y-m-d` in the proleptic Gregorian
/// calendar, negative before it.  Years are counted from March, so that the
/// leap day closes the year; 146097 days make a cycle of 400 years.
#[verifier::opaque]
pub open spec fn days_from_civil(y: int, m: int, d: int) -> int {
    let yy = if m <= 2 { y - 1 } else { y };
    let era = yy / 400;
    let yoe = yy % 400;
    let mp = if m > 2 { m - 3 } else { m + 9 };
    let doy = (153 * mp + 2) / 5 + d - 1;
    let doe = yoe * 365 + yoe / 4 - yoe / 100 + doy;
    era * 146097 + doe - 719468
}

/// The date `z` days after 1970-01-01 (before it where `z` is negative), as
/// (year, month, day): the inverse of `days_from_civil`.
#[verifier::opaque]
pub open spec fn civil_from_days(z: int) -> (int, int, int) {
    let zz = z + 719468;
    let era = zz / 146097;
    let doe = zz % 146097;
    let yoe = (doe - doe / 1460 + doe / 36524 - doe / 146096) / 365;
    let doy = doe - (365 * yoe + yoe / 4 - yoe / 100);
    let mp = (5 * doy + 2) / 153;
    let d = doy - (153 * mp + 2) / 5 + 1;
    let m = if mp < 10 { mp + 3 } else { mp - 9 };
    let y = yoe + era * 400;
    (if m <= 2 { y + 1 } else { y }, m, d)
}

/// `civil_from_days` inverts `days_from_civil`: the date of day `z` has day
/// number `z`.
pub proof fn lemma_day_of_date_of_day(z: int)
    ensures
        ({
            let (y, m, d) = civil_from_days(z);
            days_from_civil(y, m, d) == z
        }),
{
    reveal(days_from_civil);
    reveal(civil_from_days);
    let zz = z + 719468;
    let era = zz / 146097;
    let doe = zz % 146097;
    assert(0 <= doe < 146097);
    let a = doe / 1460;
    let b = doe / 36524;
    let c = doe / 146096;
    assert(0 <= c <= 1);
    assert(b <= 4);
    let yoe = (doe - a + b - c) / 365;
    assert(0 <= yoe <= 399);
    let doy = doe - (365 * yoe + yoe / 4 - yoe / 100);
    assert(0 <= doy <= 365);
    let mp = (5 * doy + 2) / 153;
    assert(0 <= mp <= 11);
    let (y, m, d) = civil_from_days(z);
    assert(yoe + era * 400 == (if m <= 2 { y - 1 } else { y }));
    assert((yoe + era * 400) / 400 == era);
    assert((yoe + era * 400) % 400 == yoe);
}

/// The day number of the first date `chrono` holds, -262143-01-01.
pub open spec fn first_day() -> int {
    days_from_civil(-262143, 1, 1)
}

/// The day number of the last date `chrono` holds, 262142-12-31.
pub open spec fn last_day() -> int {
    days_from_civil(262142, 12, 31)
}

/// The date `n` days after `y-m-d`; `None` past 262142-12-31, the last date
/// `chrono` holds.
pub open spec fn days_after(y: int, m: int, d: int, n: nat) -> Option<(int, int, int)> {
    let t = days_from_civil(y, m, d) + n;
    if t <= last_day() {
        Some(civil_from_days(t))
    } else {
        None
    }
}

/// `NaiveDate::checked_add_days`: the date `n` days after `date` in the
/// proleptic Gregorian calendar; `None` when that date lies past the last
/// date `chrono` holds (a count above `i32::MAX` lies past it too).
#[verifier::external_body]
pub(crate) fn add_days(date: &Date, n: u64) -> (r: Option<Date>)
    ensures
        match r {
            Some(x) => days_after(date.y(), date.m(), date.d(), n as nat) == Some((x.y(), x.m(), x.d())),
            None => days_after(date.y(), date.m(), date.d(), n as nat) is None,
        },
{
    let nd = chrono::NaiveDate::from_ymd_opt(date.year, date.month, date.day).unwrap();
    match nd.checked_add_days(chrono::Days::new(n)) {
        Some(x) => {
            Some(Date { year: x.year(), month: x.month(), day: x.day() })
        },
        None => None,
    }
}

/// The UTC calendar date of the instant `ms` milliseconds after the Unix
/// epoch: the date of day `ms` div 86400000 (rounded down); `None` when that
/// day lies outside the dates `chrono` holds.
pub open spec fn utc_date(ms: int) -> Option<(int, int, int)> {
    let z = ms / 86400000;
    if first_day() <= z <= last_day() {
        Some(civil_from_days(z))
    } else {
        None
    }
}

/// `DateTime::<Utc>::from_timestamp_millis(ms)` then `date_naive()`: the UTC
/// date of an instant given in milliseconds since the Unix epoch; `None`
/// outside the range `chrono` holds.
#[verifier::external_body]
pub(crate) fn utc_date_of(ms: i64) -> (r: Option<Date>)
    ensures
        match r {
            Some(x) => utc_date(ms as int) == Some((x.y(), x.m(), x.d())),
            None => utc_date(ms as int) is None,
        },
{
    match chrono::DateTime::<chrono::Utc>::from_timestamp_millis(ms) {
        Some(t) => {
            let x = t.date_naive();
            Some(Date { year: x.year(), month: x.month(), day: x.day() })
        },
        None => None,
    }
}

/// The number of ISO weeks in year `y`: 53 when the year begins on a
/// Thursday, or is a leap year beginning on a Wednesday; else 52.
pub open spec fn iso_weeks_in_year(y: int) -> int {
    let j = weekday_index(y, 1, 1);
    if j == 3 || (is_leap(y) && j == 2) {
        53
    } else {
        52
    }
}

/// The ISO 8601 week number of `y-m-d`: weeks begin on Monday and week 1
/// holds the year's first Thursday; the first days of January may belong to
/// the last week of the year before, the last days of December to week 1.
pub open spec fn iso_week_number(y: int, m: int, d: int) -> int {
    let doy = days_from_civil(y, m, d) - days_from_civil(y, 1, 1) + 1;
    let wk = (doy - (weekday_index(y, m, d) + 1) + 10) / 7;
    if wk < 1 {
        iso_weeks_in_year(y - 1)
    } else if wk > iso_weeks_in_year(y) {
        1
    } else {
        wk
    }
}

/// The ISO 8601 week number (`%V`) of the UTC date of an instant; `None`
/// outside the dates `chrono` holds.
pub open spec fn iso_week(ms: int) -> Option<int> {
    match utc_date(ms) {
        Some((y, m, d)) => Some(iso_week_number(y, m, d)),
        None => None,
    }
}

/// `DateTime::<Utc>::from_timestamp_millis(ms)` then `iso_week().week()`:
/// the ISO week (1 to 53) of an instant; `None` outside the range `chrono`
/// holds.
#[verifier::external_body]
pub(crate) fn iso_week_of(ms: i64) -> (r: Option<u32>)
    ensures
        match r {
            Some(w) => iso_week(ms as int) == Some(w as int),
            None => iso_week(ms as int) is None,
        },
        r matches Some(w) ==> 1 <= w <= 53,
{
    match chrono::DateTime::<chrono::Utc>::from_timestamp_millis(ms) {
        Some(t) => {
            Some(t.iso_week().week())
        },
        None => None,
    }
}

/// The UTC time of day of the instant `ms`, as `HH:MM:SS`.
pub open spec fn hms_text(ms: int) -> Seq<char> {
    let s = (ms / 1000) % 86400;
    zero_pad(decimal((s / 3600) as nat), 2) + seq![':'] + zero_pad(decimal((s % 3600 / 60) as nat), 2) + seq![':']
        + zero_pad(decimal((s % 60) as nat), 2)
}

/// The instant `ms` written in one of the two layouts the library writes:
/// `YYYY-MM-DDTHH:MM:SSZ` where `fmt` is `%Y-%m-%dT%H:%M:%SZ`, else
/// `YYYY-MM-DD HH:MM:SS` (the layout of `%Y-%m-%d %H:%M:%S`); empty where
/// the instant lies outside the dates `chrono` holds.
pub open spec fn utc_text(ms: int, fmt: Seq<char>) -> Seq<char> {
    match utc_date(ms) {
        None => Seq::empty(),
        Some((y, m, d)) => if fmt == "%Y-%m-%dT%H:%M:%SZ"@ {
            ymd_text(y, m, d) + seq!['T'] + hms_text(ms) + seq!['Z']
        } else {
            ymd_text(y, m, d) + seq![' '] + hms_text(ms)
        },
    }
}

/// `DateTime::<Utc>::from_timestamp_millis(ms)` then `format(fmt)`: the
/// instant `ms` written with the format string `fmt`; empty outside the range
/// `chrono` holds.  Writing with an invalid format string panics, so `fmt` is
/// one of the two valid formats the library writes with.
#[verifier::external_body]
pub(crate) fn format_utc(ms: i64, fmt: &str) -> (r: String)
    requires
        fmt@ == "%Y-%m-%dT%H:%M:%SZ"@ || fmt@ == "%Y-%m-%d %H:%M:%S"@,
    ensures
        r@ == utc_text(ms as int, fmt@),
{
    match chrono::DateTime::<chrono::Utc>::from_timestamp_millis(ms) {
        Some(t) => t.format(fmt).to_string(),
        None => String::new(),
    }
}

/// The date `chrono` reads from `s` with the format `fmt`, as (year, month,
/// day).
pub uninterp spec fn parsed_ymd(s: Seq<char>, fmt: Seq<char>) -> Option<(int, int, int)>;

/// `NaiveDate::parse_from_str(candidate, fmt)`: the date `chrono` reads,
/// `None` when it reads none.  The result is named `parsed_ymd`.
#[verifier::external_body]
pub(crate) fn parse_ymd(candidate: &str, fmt: &str) -> (r: Option<Date>)
    ensures
        match r {
            Some(x) => parsed_ymd(candidate@, fmt@) == Some((x.y(), x.m(), x.d())),
            None => parsed_ymd(candidate@, fmt@) is None,
        },
{
    match chrono::NaiveDate::parse_from_str(candidate, fmt) {
        Ok(d) => Some(Date { year: d.year(), month: d.month(), day: d.day() }),
        Err(_) => None,
    }
}

/// The weekday of a date counted from Monday (0) to Sunday (6); 1970-01-01
/// was a Thursday.
pub open spec fn weekday_index(y: int, m: int, d: int) -> int {
    (days_from_civil(y, m, d) + 3) % 7
}

/// `NaiveDate::weekday().num_days_from_monday()`: the date's weekday, 0 for
/// Monday to 6 for Sunday.
#[verifier::external_body]
pub(crate) fn weekday_from_monday(date: &Date) -> (r: u32)
    ensures
        r == weekday_index(date.y(), date.m(), date.d()),
        r < 7,
{
    let d = chrono::NaiveDate::from_ymd_opt(date.year, date.month, date.day).unwrap();
    d.weekday().num_days_from_monday()
}

/// `Local::now().date_naive()`: today in the machine's time zone.  Nothing
/// is stated of it: it depends on the clock and the time zone.
#[verifier::external_body]
pub(crate) fn local_today() -> (r: Date) {
    let d = chrono::Local::now().date_naive();
    Date { year: d.year(), month: d.month(), day: d.day() }
}

/// The instant, in milliseconds since the Unix epoch, of the date and time
/// read in the machine's current UTC offset: `Local::now().offset()`, then
/// `and_local_timezone` with that offset, `single()` and `timestamp_millis`;
/// `None` when `chrono` gives no single instant.  Nothing else is stated of
/// it: it depends on the time zone.
#[verifier::external_body]
pub(crate) fn local_to_utc_millis(date: &Date, hour: u32, minute: u32) -> (r: Option<i64>)
    requires
        hour < 24,
        minute < 60,
{
    let day = chrono::NaiveDate::from_ymd_opt(date.year, date.month, date.day).unwrap();
    let naive = day.and_hms_opt(hour, minute, 0).unwrap();
    let offset = *chrono::Local::now().offset();
    match naive.and_local_timezone(offset).single() {
        Some(dt) => Some(dt.timestamp_millis()),
        None => None,
    }
}

/// The instant, in milliseconds since the Unix epoch, of a date and time
/// read as UTC.
pub open spec fn utc_millis(y: int, m: int, d: int, hour: int, minute: int) -> int {
    (days_from_civil(y, m, d) * 86400 + hour * 3600 + minute * 60) * 1000
}

/// `NaiveDateTime::and_utc().timestamp_millis()`: the instant, in
/// milliseconds since the Unix epoch, of the date and time read as UTC.
#[verifier::external_body]
pub(crate) fn naive_utc_millis(date: &Date, hour: u32, minute: u32) -> (r: i64)
    requires
        hour < 24,
        minute < 60,
    ensures
        r == utc_millis(date.y(), date.m(), date.d(), hour as int, minute as int),
{
    let day = chrono::NaiveDate::from_ymd_opt(date.year, date.month, date.day).unwrap();
    day.and_hms_opt(hour, minute, 0).unwrap().and_utc().timestamp_millis()
}

} // verus!
