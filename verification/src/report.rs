use vstd::prelude::*;

use crate::config::Config;
use crate::dates::{
    day_in_range, format_iso_date, is_weekend, local_iso, local_iso_date, parse_iso_date, weekend,
    ymd_format, ymd_parse, tz_known,
};
use crate::error::AppError;
use crate::json::{Json, JsonV, jget, jget_opt, ji64, jarray, jvs};
use crate::text::{concat3, str_eq, string_of, chars_of};
use crate::youtrack::{Request, YouTrack, workitems_list_v};

verus! {

/// Minutes expected on an ordinary work day.
pub const EXPECTED_MIN: i64 = 480;

/// Minutes expected on the day before a holiday (7/8 of the norm).
pub const PRE_HOLIDAY_MIN: i64 = 420;

// ---------------------------------------------------------------------
// Work items as the report reads them
// ---------------------------------------------------------------------

/// The minutes a work item logs (`duration.minutes`), 0 when absent.
pub open spec fn item_minutes(w: JsonV) -> int {
    match ji64(jget_opt(jget(w, "duration"@), "minutes"@)) {
        Some(m) => m as int,
        None => 0,
    }
}

/// The instant a work item is dated at (`date`, unix ms), 0 when absent.
pub open spec fn item_ms(w: JsonV) -> i64 {
    match ji64(jget(w, "date"@)) {
        Some(m) => m,
        None => 0,
    }
}

/// The local ISO date of instant `ms` in zone `tz`, empty when chrono has none.
pub open spec fn iso_key(tz: Seq<char>, ms: i64) -> Seq<char> {
    match local_iso(tz, ms) {
        Some(s) => s,
        None => Seq::empty(),
    }
}

/// The work items of a list response; none when it is not an array.
pub open spec fn items_of(items: JsonV) -> Seq<JsonV> {
    match jarray(items) {
        Some(s) => s,
        None => Seq::empty(),
    }
}

/// Each work item as (local date, minutes).
pub open spec fn dated_minutes(tz: Seq<char>, items: Seq<JsonV>) -> Seq<(Seq<char>, int)> {
    Seq::new(items.len(), |i: int| (iso_key(tz, item_ms(items[i])), item_minutes(items[i])))
}

/// Sum of the minutes of the pairs dated `key`.
pub open spec fn minutes_on(ps: Seq<(Seq<char>, int)>, key: Seq<char>) -> int
    decreases ps.len(),
{
    if ps.len() == 0 {
        0
    } else {
        minutes_on(ps.drop_last(), key) + if ps.last().0 == key {
            ps.last().1
        } else {
            0
        }
    }
}

/// Sum of all minutes.
pub open spec fn minutes_total(ps: Seq<(Seq<char>, int)>) -> int
    decreases ps.len(),
{
    if ps.len() == 0 {
        0
    } else {
        minutes_total(ps.drop_last()) + ps.last().1
    }
}

/// `x` fits an `i64`.
pub open spec fn in_i64(x: int) -> bool {
    i64::MIN <= x <= i64::MAX
}

/// The running total of the minutes dated like item `j`, once item `j` is
/// added (the per-date sum the report keeps).
pub open spec fn date_sum_at(ps: Seq<(Seq<char>, int)>, j: int) -> int {
    minutes_on(ps.take(j + 1), ps[j].0)
}

/// Every running total of all minutes fits an `i64`.
pub open spec fn totals_fit(ps: Seq<(Seq<char>, int)>) -> bool {
    forall|j: int| 0 <= j <= ps.len() ==> in_i64(#[trigger] minutes_total(ps.take(j)))
}

/// Every running per-date total fits an `i64`.
pub open spec fn date_sums_fit(ps: Seq<(Seq<char>, int)>) -> bool {
    forall|j: int| 0 <= j < ps.len() ==> in_i64(#[trigger] date_sum_at(ps, j))
}

/// With every running per-date total in `i64`, so is the total of any date
/// over any prefix.
proof fn lemma_key_sums_fit(ps: Seq<(Seq<char>, int)>, key: Seq<char>, j: int)
    requires
        date_sums_fit(ps),
        0 <= j <= ps.len(),
    ensures
        in_i64(minutes_on(ps.take(j), key)),
    decreases j,
{
    if j > 0 {
        let t = ps.take(j);
        assert(t.drop_last() =~= ps.take(j - 1));
        assert(t.last() == ps[j - 1]);
        if ps[j - 1].0 == key {
            assert(in_i64(date_sum_at(ps, j - 1)));
        } else {
            lemma_key_sums_fit(ps, key, j - 1);
        }
    } else {
        assert(ps.take(0) =~= Seq::<(Seq<char>, int)>::empty());
    }
}

// ---------------------------------------------------------------------
// The days of the report
// ---------------------------------------------------------------------

/// One day of the report, as mathematics sees it.
pub struct DayRow {
    pub day: int,
    pub date: Seq<char>,
    pub expected: int,
    pub actual: int,
    pub diff: int,
}

/// `day` counts: it is neither a weekend day nor a holiday.
pub open spec fn is_work_day(holidays: Set<i32>, day: int) -> bool {
    !is_weekend(day) && !holidays.contains(day as i32)
}

/// The minutes expected on `day`.
pub open spec fn expected_on(pre_holidays: Set<i32>, day: int) -> int {
    if pre_holidays.contains(day as i32) {
        PRE_HOLIDAY_MIN as int
    } else {
        EXPECTED_MIN as int
    }
}

/// The row of the report for `day`.
pub open spec fn day_row(
    pre_holidays: Set<i32>,
    ps: Seq<(Seq<char>, int)>,
    day: int,
) -> DayRow {
    let date = ymd_format(day as i32);
    let expected = expected_on(pre_holidays, day);
    let actual = minutes_on(ps, date);
    DayRow { day, date, expected, actual, diff: actual - expected }
}

/// The rows of the work days from `first` through `last`, in date order.
pub open spec fn rows_through(
    holidays: Set<i32>,
    pre_holidays: Set<i32>,
    ps: Seq<(Seq<char>, int)>,
    first: int,
    last: int,
) -> Seq<DayRow>
    decreases last - first + 1,
{
    if last < first {
        Seq::empty()
    } else {
        let prev = rows_through(holidays, pre_holidays, ps, first, last - 1);
        if is_work_day(holidays, last) {
            prev.push(day_row(pre_holidays, ps, last))
        } else {
            prev
        }
    }
}

/// The rows whose actual minutes differ from the expected ones.
pub open spec fn off_rows(rows: Seq<DayRow>) -> Seq<DayRow>
    decreases rows.len(),
{
    if rows.len() == 0 {
        rows
    } else {
        let prev = off_rows(rows.drop_last());
        if rows.last().diff != 0 {
            prev.push(rows.last())
        } else {
            prev
        }
    }
}

/// Sum of the expected minutes of the rows.
pub open spec fn expected_total(rows: Seq<DayRow>) -> int
    decreases rows.len(),
{
    if rows.len() == 0 {
        0
    } else {
        expected_total(rows.drop_last()) + rows.last().expected
    }
}

/// One day of the report.
pub struct DayEntry {
    /// ISO date.
    pub date: String,
    /// Minutes expected.
    pub expected: i64,
    /// Minutes logged.
    pub actual: i64,
    /// `actual - expected`.
    pub diff: i64,
}

/// The report's entries agree with the rows (date, expected, actual, diff).
pub open spec fn entries_match(es: Seq<DayEntry>, rows: Seq<DayRow>) -> bool {
    &&& es.len() == rows.len()
    &&& forall|i: int|
        0 <= i < es.len() ==> {
            &&& (#[trigger] es[i]).date@ == rows[i].date
            &&& es[i].expected == rows[i].expected
            &&& es[i].actual == rows[i].actual
            &&& es[i].diff == rows[i].diff
        }
}

/// The per-day expected-vs-actual work-time report.
pub struct Report {
    /// Minutes of all work items fetched.
    pub total_minutes: i64,
    /// Minutes expected over the work days.
    pub expected_minutes: i64,
    /// Number of work days in the period.
    pub work_days: i64,
    /// The period's first day as given.
    pub start: String,
    /// The period's last day as given.
    pub end: String,
    /// One entry per work day, in date order.
    pub days: Vec<DayEntry>,
    /// The entries whose minutes differ from the expected ones.
    pub invalid_days: Vec<DayEntry>,
}

/// The period of a report: both dates parse, and the end is not before the start.
pub open spec fn report_range_spec(start: Seq<char>, end: Seq<char>) -> Result<(i32, i32), ()> {
    match (ymd_parse(start), ymd_parse(end)) {
        (Some(s), Some(e)) => if e < s {
            Err(())
        } else {
            Ok((s, e))
        },
        _ => Err(()),
    }
}

/// Page size of the report's work-item query.
pub const REPORT_PAGE: i64 = 1000;

/// The one work-item query the report makes: `login`'s items from `start`
/// through `end`, on any issue, the first 1000 of them.
pub fn report_items_request(yt: &YouTrack, login: &str, start: &str, end: &str) -> (r: Request)
    ensures
        r@ == workitems_list_v(*yt, login@, Some(start@), Some(end@), None, 1000, 0),
{
    yt.workitems_list(login, Some(start), Some(end), None, REPORT_PAGE, 0)
}

/// Validates the report period: `start` and `end` must be ISO dates with
/// `end` not before `start`.
pub fn report_range(start: &str, end: &str) -> (r: Result<(i32, i32), AppError>)
    ensures
        match r {
            Ok((s, e)) => ymd_parse(start@) == Some(s) && ymd_parse(end@) == Some(e) && s <= e
                && day_in_range(s as int) && day_in_range(e as int),
            Err(AppError::Bad(m)) => if ymd_parse(start@) is None {
                m@ == "bad startDate '"@ + start@ + "'"@
            } else if ymd_parse(end@) is None {
                m@ == "bad endDate '"@ + end@ + "'"@
            } else {
                ymd_parse(end@)->0 < ymd_parse(start@)->0 && m@ == "endDate before startDate"@
            },
            Err(_) => false,
        },
{
    let s = match parse_iso_date(start) {
        Some(d) => d,
        None => {
            return Err(AppError::Bad(concat3("bad startDate '", start, "'")));
        },
    };
    let e = match parse_iso_date(end) {
        Some(d) => d,
        None => {
            return Err(AppError::Bad(concat3("bad endDate '", end, "'")));
        },
    };
    if e < s {
        return Err(AppError::Bad(string_of(&chars_of("endDate before startDate"))));
    }
    Ok((s, e))
}

/// The local ISO date of instant `ms` in the configured zone; empty when
/// chrono maps it to no single local time.
pub fn iso_date_of_ms(cfg: &Config, ms: i64) -> (r: String)
    requires
        cfg.wf(),
    ensures
        r@ == iso_key(cfg.timezone@, ms),
{
    match local_iso_date(cfg.timezone.as_str(), ms) {
        Some(s) => s,
        None => String::new(),
    }
}

/// Every work day from `first` through `last` has a difference of logged
/// and expected minutes that fits an `i64`.
pub open spec fn diffs_fit(
    holidays: Set<i32>,
    pre_holidays: Set<i32>,
    ps: Seq<(Seq<char>, int)>,
    first: int,
    last: int,
) -> bool {
    forall|d: int|
        first <= d <= last && is_work_day(holidays, d) ==> #[trigger] day_row(
            pre_holidays,
            ps,
            d,
        ).diff >= i64::MIN
}

/// The report's `i64` arithmetic does not overflow on `items` over `range`:
/// the running total, each running per-date total, and each work day's
/// difference fit (where they do not, the report's sums overflow).
pub open spec fn sums_fit(cfg: Config, range: (i32, i32), items: JsonV) -> bool {
    let ps = dated_minutes(cfg.timezone@, items_of(items));
    &&& totals_fit(ps)
    &&& date_sums_fit(ps)
    &&& diffs_fit(cfg.holidays@, cfg.pre_holidays@, ps, range.0 as int, range.1 as int)
}

fn item_pair(cfg: &Config, w: &Json) -> (r: (String, i64))
    requires
        cfg.wf(),
    ensures
        r.0@ == iso_key(cfg.timezone@, item_ms(w@)),
        r.1 == item_minutes(w@),
{
    let mins = match w.get("duration") {
        Some(d) => match d.get("minutes") {
            Some(x) => match x.as_i64() {
                Some(m) => m,
                None => 0,
            },
            None => 0,
        },
        None => 0,
    };
    let ms = match w.get("date") {
        Some(x) => match x.as_i64() {
            Some(m) => m,
            None => 0,
        },
        None => 0,
    };
    (iso_date_of_ms(cfg, ms), mins)
}

fn item_pairs(cfg: &Config, items: &Json) -> (r: Vec<(String, i64)>)
    requires
        cfg.wf(),
    ensures
        r@.len() == items_of(items@).len(),
        forall|i: int|
            0 <= i < r@.len() ==> (#[trigger] r@[i]).0@ == dated_minutes(
                cfg.timezone@,
                items_of(items@),
            )[i].0 && r@[i].1 == dated_minutes(cfg.timezone@, items_of(items@))[i].1,
{
    let mut out: Vec<(String, i64)> = Vec::new();
    match items.as_array() {
        Some(arr) => {
            let mut i: usize = 0;
            while i < arr.len()
                invariant
                    cfg.wf(),
                    jarray(items@) == Some(jvs(arr@)),
                    i <= arr@.len(),
                    out@.len() == i,
                    forall|k: int|
                        0 <= k < i ==> (#[trigger] out@[k]).0@ == iso_key(
                            cfg.timezone@,
                            item_ms(arr@[k]@),
                        ) && out@[k].1 == item_minutes(arr@[k]@),
                decreases arr@.len() - i,
            {
                let p = item_pair(cfg, &arr[i]);
                out.push(p);
                i = i + 1;
            }
        },
        None => {},
    }
    out
}

/// The items' pairs as mathematical values.
pub open spec fn pairs_v(v: Seq<(String, i64)>) -> Seq<(Seq<char>, int)> {
    Seq::new(v.len(), |i: int| (v[i].0@, v[i].1 as int))
}

/// Whether the report's sums stay within `i64` for `items` over `range`.
#[verifier::loop_isolation(false)]
pub fn report_sums_fit(cfg: &Config, range: (i32, i32), items: &Json) -> (r: bool)
    requires
        cfg.wf(),
        day_in_range(range.0 as int),
        day_in_range(range.1 as int),
    ensures
        r == sums_fit(*cfg, range, items@),
{
    let pairs = item_pairs(cfg, items);
    let ghost ps = dated_minutes(cfg.timezone@, items_of(items@));
    assert(pairs_v(pairs@) =~= ps);
    let n = pairs.len();
    // The running total.
    let mut acc: i128 = 0;
    let mut i: usize = 0;
    assert(ps.take(0) =~= Seq::<(Seq<char>, int)>::empty());
    while i < n
        invariant
            i <= n,
            n == ps.len(),
            acc == minutes_total(ps.take(i as int)),
            forall|j: int| 0 <= j <= i ==> in_i64(#[trigger] minutes_total(ps.take(j))),
        decreases n - i,
    {
        assert(ps.take(i + 1).drop_last() =~= ps.take(i as int));
        assert(ps.take(i + 1).last() == ps[i as int]);
        assert(ps[i as int].1 == pairs@[i as int].1);
        acc = acc + pairs[i].1 as i128;
        if acc < i64::MIN as i128 || acc > i64::MAX as i128 {
            assert(!in_i64(minutes_total(ps.take(i + 1))));
            return false;
        }
        i = i + 1;
    }
    assert(totals_fit(ps));
    // The running per-date totals.
    let mut i: usize = 0;
    while i < n
        invariant
            i <= n,
            n == ps.len(),
            totals_fit(ps),
            forall|k: int| 0 <= k < i ==> in_i64(#[trigger] date_sum_at(ps, k)),
        decreases n - i,
    {
        let key = pairs[i].0.as_str();
        assert(key@ == ps[i as int].0);
        let mut s: i128 = 0;
        let mut j: usize = 0;
        assert(ps.take(0) =~= Seq::<(Seq<char>, int)>::empty());
        while j <= i
            invariant
                j <= i + 1,
                i < n,
                n == ps.len(),
                s == minutes_on(ps.take(j as int), key@),
                -(j as int) * 9223372036854775808 <= s <= (j as int) * 9223372036854775808,
            decreases i + 1 - j,
        {
            assert(ps.take(j + 1).drop_last() =~= ps.take(j as int));
            assert(ps.take(j + 1).last() == ps[j as int]);
            assert(ps[j as int] == (pairs@[j as int].0@, pairs@[j as int].1 as int));
            if str_eq(pairs[j].0.as_str(), key) {
                s = s + pairs[j].1 as i128;
            }
            j = j + 1;
        }
        assert(s == date_sum_at(ps, i as int));
        if s < i64::MIN as i128 || s > i64::MAX as i128 {
            return false;
        }
        i = i + 1;
    }
    assert(date_sums_fit(ps));
    // Each work day's difference.
    let (first, last) = range;
    let mut d: i32 = first;
    while d <= last
        invariant
            first <= d,
            d <= last + 1 || d == first,
            day_in_range(first as int),
            day_in_range(last as int),
            totals_fit(ps),
            date_sums_fit(ps),
            forall|e: int|
                first <= e < d && is_work_day(cfg.holidays@, e) ==> #[trigger] day_row(
                    cfg.pre_holidays@,
                    ps,
                    e,
                ).diff >= i64::MIN,
        decreases last - d + 1,
    {
        assert(day_in_range(d as int));
        if !(weekend(d) || cfg.holidays.contains(d)) {
            let expected: i64 = if cfg.pre_holidays.contains(d) {
                PRE_HOLIDAY_MIN
            } else {
                EXPECTED_MIN
            };
            let date = format_iso_date(d);
            let actual = sum_for_key(&pairs, date.as_str());
            let ghost row = day_row(cfg.pre_holidays@, ps, d as int);
            assert(row.actual == actual && row.expected == expected);
            if actual < i64::MIN + expected {
                assert(first <= d <= last && is_work_day(cfg.holidays@, d as int));
                assert(row.diff < i64::MIN);
                assert(!diffs_fit(cfg.holidays@, cfg.pre_holidays@, ps, first as int, last as int));
                return false;
            }
        }
        d = d + 1;
    }
    true
}

/// Minutes dated `key` among `pairs`.
fn sum_for_key(pairs: &Vec<(String, i64)>, key: &str) -> (r: i64)
    requires
        date_sums_fit(pairs_v(pairs@)),
    ensures
        r == minutes_on(pairs_v(pairs@), key@),
{
    let ghost ps = pairs_v(pairs@);
    let mut acc: i64 = 0;
    let mut i: usize = 0;
    while i < pairs.len()
        invariant
            ps == pairs_v(pairs@),
            date_sums_fit(ps),
            i <= pairs@.len(),
            acc == minutes_on(ps.take(i as int), key@),
        decreases pairs@.len() - i,
    {
        let ghost nxt = ps.take(i + 1);
        assert(nxt.drop_last() =~= ps.take(i as int));
        proof {
            lemma_key_sums_fit(ps, key@, i + 1);
        }
        if str_eq(pairs[i].0.as_str(), key) {
            acc = acc + pairs[i].1;
        }
        i = i + 1;
    }
    assert(ps.take(pairs@.len() as int) =~= ps);
    acc
}

/// Sum of all minutes of `pairs`.
fn sum_all(pairs: &Vec<(String, i64)>) -> (r: i64)
    requires
        totals_fit(pairs_v(pairs@)),
    ensures
        r == minutes_total(pairs_v(pairs@)),
{
    let ghost ps = pairs_v(pairs@);
    let mut acc: i64 = 0;
    let mut i: usize = 0;
    while i < pairs.len()
        invariant
            ps == pairs_v(pairs@),
            totals_fit(ps),
            i <= pairs@.len(),
            acc == minutes_total(ps.take(i as int)),
        decreases pairs@.len() - i,
    {
        let ghost nxt = ps.take(i + 1);
        assert(nxt.drop_last() =~= ps.take(i as int));
        assert(in_i64(minutes_total(ps.take(i + 1))));
        acc = acc + pairs[i].1;
        i = i + 1;
    }
    assert(ps.take(pairs@.len() as int) =~= ps);
    acc
}

fn copy_entry(e: &DayEntry) -> (r: DayEntry)
    ensures
        r.date@ == e.date@,
        r.expected == e.expected,
        r.actual == e.actual,
        r.diff == e.diff,
{
    DayEntry { date: e.date.clone(), expected: e.expected, actual: e.actual, diff: e.diff }
}

proof fn lemma_expected_total_bounds(rows: Seq<DayRow>)
    requires
        forall|i: int| 0 <= i < rows.len() ==> 0 <= #[trigger] rows[i].expected <= 480,
    ensures
        0 <= expected_total(rows) <= 480 * rows.len(),
    decreases rows.len(),
{
    if rows.len() > 0 {
        lemma_expected_total_bounds(rows.drop_last());
    }
}

proof fn lemma_rows_len(
    holidays: Set<i32>,
    pre_holidays: Set<i32>,
    ps: Seq<(Seq<char>, int)>,
    first: int,
    last: int,
)
    ensures
        rows_through(holidays, pre_holidays, ps, first, last).len() <= if last < first {
            0
        } else {
            last - first + 1
        },
        forall|i: int|
            0 <= i < rows_through(holidays, pre_holidays, ps, first, last).len() ==> {
                let r = #[trigger] rows_through(holidays, pre_holidays, ps, first, last)[i];
                &&& first <= r.day <= last
                &&& r == day_row(pre_holidays, ps, r.day)
            },
    decreases last - first + 1,
{
    if last >= first {
        lemma_rows_len(holidays, pre_holidays, ps, first, last - 1);
    }
}

/// `r` is the report of `items` over the days `range.0` through `range.1`:
/// one entry per work day in date order, the entries off the expected
/// minutes again as invalid days, and the totals.
pub open spec fn is_report(
    cfg: Config,
    start: Seq<char>,
    end: Seq<char>,
    range: (i32, i32),
    items: JsonV,
    r: Report,
) -> bool {
    let ps = dated_minutes(cfg.timezone@, items_of(items));
    let rows = rows_through(cfg.holidays@, cfg.pre_holidays@, ps, range.0 as int, range.1 as int);
    &&& entries_match(r.days@, rows)
    &&& entries_match(r.invalid_days@, off_rows(rows))
    &&& r.total_minutes == minutes_total(ps)
    &&& r.expected_minutes == expected_total(rows)
    &&& r.work_days == rows.len()
    &&& r.start@ == start
    &&& r.end@ == end
}

/// Builds the report of the work days from `range.0` through `range.1` over
/// the fetched work `items`.
///
/// Each work day (neither a weekend day nor a holiday) gets one entry, in
/// date order: 480 expected minutes (420 on a pre-holiday), the minutes of
/// the items whose local date is that day, and their difference. The
/// entries with a non-zero difference are listed again as invalid days.
#[verifier::loop_isolation(false)]
pub fn build_report(cfg: &Config, start: &str, end: &str, range: (i32, i32), items: &Json) -> (r:
    Report)
    requires
        cfg.wf(),
        day_in_range(range.0 as int),
        day_in_range(range.1 as int),
        range.0 <= range.1,
        sums_fit(*cfg, range, items@),
    ensures
        is_report(*cfg, start@, end@, range, items@, r),
{
    let pairs = item_pairs(cfg, items);
    let ghost ps = dated_minutes(cfg.timezone@, items_of(items@));
    assert(pairs_v(pairs@) =~= ps);
    let total_minutes = sum_all(&pairs);
    let (first, last) = range;
    let mut days: Vec<DayEntry> = Vec::new();
    let mut invalid: Vec<DayEntry> = Vec::new();
    let mut total_expected: i64 = 0;
    let mut work_days: i64 = 0;
    let mut d: i32 = first;
    while d <= last
        invariant
            first <= d <= last + 1,
            entries_match(
                days@,
                rows_through(cfg.holidays@, cfg.pre_holidays@, ps, first as int, d - 1),
            ),
            entries_match(
                invalid@,
                off_rows(rows_through(cfg.holidays@, cfg.pre_holidays@, ps, first as int, d - 1)),
            ),
            total_expected == expected_total(
                rows_through(cfg.holidays@, cfg.pre_holidays@, ps, first as int, d - 1),
            ),
            work_days == days@.len(),
            days@.len() <= d - first,
        decreases last - d + 1,
    {
        let ghost prev_rows = rows_through(
            cfg.holidays@,
            cfg.pre_holidays@,
            ps,
            first as int,
            d - 1,
        );
        let ghost rows = rows_through(cfg.holidays@, cfg.pre_holidays@, ps, first as int, d as int);
        assert(day_in_range(d as int));
        if weekend(d) || cfg.holidays.contains(d) {
            assert(rows == prev_rows);
            d = d + 1;
            continue ;
        }
        let expected: i64 = if cfg.pre_holidays.contains(d) {
            PRE_HOLIDAY_MIN
        } else {
            EXPECTED_MIN
        };
        let date = format_iso_date(d);
        let actual = sum_for_key(&pairs, date.as_str());
        let ghost row = day_row(cfg.pre_holidays@, ps, d as int);
        assert(first <= d <= last && is_work_day(cfg.holidays@, d as int));
        assert(row.diff >= i64::MIN);
        let diff = actual - expected;
        assert(rows == prev_rows.push(row));
        let entry = DayEntry { date, expected, actual, diff };
        if diff != 0 {
            invalid.push(copy_entry(&entry));
            assert(rows.drop_last() =~= prev_rows);
        } else {
            assert(rows.drop_last() =~= prev_rows);
        }
        days.push(entry);
        proof {
            lemma_rows_len(cfg.holidays@, cfg.pre_holidays@, ps, first as int, d - 1);
            assert forall|i: int| 0 <= i < prev_rows.len() implies 0 <= #[trigger] prev_rows[
                i
            ].expected <= 480 by {}
            lemma_expected_total_bounds(prev_rows);
            assert(rows.drop_last() =~= prev_rows);
        }
        total_expected = total_expected + expected;
        work_days = work_days + 1;
        d = d + 1;
    }
    Report {
        total_minutes,
        expected_minutes: total_expected,
        work_days,
        start: string_of(&chars_of(start)),
        end: string_of(&chars_of(end)),
        days,
        invalid_days: invalid,
    }
}

/// The report of `items` over the period, when their minutes fit the
/// report's sums (see [`report_sums_fit`]); `None` when they do not.
pub fn checked_report(cfg: &Config, start: &str, end: &str, range: (i32, i32), items: &Json) -> (r:
    Option<Report>)
    requires
        cfg.wf(),
        day_in_range(range.0 as int),
        day_in_range(range.1 as int),
        range.0 <= range.1,
    ensures
        match r {
            Some(rep) => sums_fit(*cfg, range, items@) && is_report(
                *cfg,
                start@,
                end@,
                range,
                items@,
                rep,
            ),
            None => !sums_fit(*cfg, range, items@),
        },
{
    if report_sums_fit(cfg, range, items) {
        Some(build_report(cfg, start, end, range, items))
    } else {
        None
    }
}

} // verus!

verus! {

/// The rows of a report are the work days of its period, one each, in date
/// order: every row is a work day (neither weekend nor holiday) of the
/// period, later rows are later days, every work day of the period has a row,
/// and each row carries its date, its expected minutes (420 on a
/// pre-holiday, 480 otherwise), the minutes logged on that date and their
/// difference.
pub proof fn lemma_report_rows(
    holidays: Set<i32>,
    pre_holidays: Set<i32>,
    ps: Seq<(Seq<char>, int)>,
    first: int,
    last: int,
)
    ensures
        ({
            let rows = rows_through(holidays, pre_holidays, ps, first, last);
            &&& forall|i: int|
                0 <= i < rows.len() ==> {
                    let r = #[trigger] rows[i];
                    &&& first <= r.day <= last
                    &&& is_work_day(holidays, r.day)
                    &&& r.date == ymd_format(r.day as i32)
                    &&& r.expected == if pre_holidays.contains(r.day as i32) {
                        420int
                    } else {
                        480int
                    }
                    &&& r.actual == minutes_on(ps, r.date)
                    &&& r.diff == r.actual - r.expected
                }
            &&& forall|i: int, j: int| 0 <= i < j < rows.len() ==> rows[i].day < rows[j].day
            &&& forall|d: int|
                first <= d <= last && is_work_day(holidays, d) ==> exists|i: int|
                    0 <= i < rows.len() && (#[trigger] rows[i]).day == d
        }),
    decreases last - first + 1,
{
    if last >= first {
        lemma_report_rows(holidays, pre_holidays, ps, first, last - 1);
        let prev = rows_through(holidays, pre_holidays, ps, first, last - 1);
        let rows = rows_through(holidays, pre_holidays, ps, first, last);
        if is_work_day(holidays, last) {
            assert(rows == prev.push(day_row(pre_holidays, ps, last)));
            assert forall|d: int| first <= d <= last && is_work_day(holidays, d) implies exists|
                i: int,
            |
                0 <= i < rows.len() && (#[trigger] rows[i]).day == d by {
                if d == last {
                    assert(rows[prev.len() as int].day == d);
                } else {
                    let i = choose|i: int| 0 <= i < prev.len() && (#[trigger] prev[i]).day == d;
                    assert(rows[i] == prev[i]);
                }
            }
            assert forall|i: int, j: int| 0 <= i < j < rows.len() implies rows[i].day
                < rows[j].day by {
                if j < prev.len() {
                    assert(rows[i] == prev[i] && rows[j] == prev[j]);
                } else {
                    assert(rows[i] == prev[i]);
                }
            }
            assert forall|i: int| 0 <= i < rows.len() implies {
                let r = #[trigger] rows[i];
                &&& first <= r.day <= last
                &&& is_work_day(holidays, r.day)
                &&& r.date == ymd_format(r.day as i32)
                &&& r.expected == if pre_holidays.contains(r.day as i32) {
                    420int
                } else {
                    480int
                }
                &&& r.actual == minutes_on(ps, r.date)
                &&& r.diff == r.actual - r.expected
            } by {
                if i < prev.len() {
                    assert(rows[i] == prev[i]);
                }
            }
        } else {
            assert forall|d: int| first <= d <= last && is_work_day(holidays, d) implies exists|
                i: int,
            |
                0 <= i < rows.len() && (#[trigger] rows[i]).day == d by {
                let i = choose|i: int| 0 <= i < prev.len() && (#[trigger] prev[i]).day == d;
                assert(rows[i] == prev[i]);
            }
        }
    }
}

/// The invalid days are exactly the report's rows whose difference is not
/// zero, in the same order.
pub proof fn lemma_off_rows(rows: Seq<DayRow>)
    ensures
        forall|i: int|
            0 <= i < off_rows(rows).len() ==> (#[trigger] off_rows(rows)[i]).diff != 0 && exists|
                j: int,
            |
                0 <= j < rows.len() && rows[j] == off_rows(rows)[i],
        forall|j: int|
            0 <= j < rows.len() && (#[trigger] rows[j]).diff != 0 ==> exists|i: int|
                0 <= i < off_rows(rows).len() && off_rows(rows)[i] == rows[j],
        off_rows(rows).len() <= rows.len(),
    decreases rows.len(),
{
    if rows.len() > 0 {
        let init = rows.drop_last();
        lemma_off_rows(init);
        let prev = off_rows(init);
        let cur = off_rows(rows);
        assert forall|i: int| 0 <= i < cur.len() implies (#[trigger] cur[i]).diff != 0 && exists|
            j: int,
        |
            0 <= j < rows.len() && rows[j] == cur[i] by {
            if i < prev.len() {
                assert(cur[i] == prev[i]);
                let j = choose|j: int| 0 <= j < init.len() && init[j] == prev[i];
                assert(rows[j] == init[j]);
            } else {
                assert(cur[i] == rows.last());
                assert(rows[rows.len() - 1] == rows.last());
            }
        }
        assert forall|j: int| 0 <= j < rows.len() && (#[trigger] rows[j]).diff != 0 implies exists|
            i: int,
        |
            0 <= i < cur.len() && cur[i] == rows[j] by {
            if j < init.len() {
                assert(init[j] == rows[j]);
                let i = choose|i: int| 0 <= i < prev.len() && prev[i] == init[j];
                assert(cur[i] == prev[i]);
            } else {
                assert(rows[j] == rows.last());
                assert(cur[prev.len() as int] == rows.last());
            }
        }
    }
}


/// The report's sums are refused only for real `i64` overflow: they fit
/// exactly when every running total of the items' minutes, every running
/// total of one date's minutes, and, for every work day of the period, the
/// minutes logged on it less the minutes expected (420 the day before a
/// holiday, 480 otherwise) lie within `i64`. Over-logged days are no
/// exception.
pub proof fn lemma_sums_fit_is_no_overflow(cfg: Config, range: (i32, i32), items: JsonV)
    ensures
        sums_fit(cfg, range, items) <==> {
            let ps = dated_minutes(cfg.timezone@, items_of(items));
            &&& forall|j: int| 0 <= j <= ps.len() ==> in_i64(#[trigger] minutes_total(ps.take(j)))
            &&& forall|j: int|
                0 <= j < ps.len() ==> in_i64(#[trigger] minutes_on(ps.take(j + 1), ps[j].0))
            &&& forall|d: int|
                range.0 <= d <= range.1 && !is_weekend(d) && !cfg.holidays@.contains(d as i32)
                    ==> in_i64(
                    #[trigger] minutes_on(ps, ymd_format(d as i32)) - if cfg.pre_holidays@.contains(
                        d as i32,
                    ) {
                        420int
                    } else {
                        480int
                    },
                )
        },
{
    let ps = dated_minutes(cfg.timezone@, items_of(items));
    assert(ps.take(ps.len() as int) =~= ps);
    if sums_fit(cfg, range, items) {
        assert forall|d: int|
            range.0 <= d <= range.1 && !is_weekend(d) && !cfg.holidays@.contains(d as i32)
                implies in_i64(
            #[trigger] minutes_on(ps, ymd_format(d as i32)) - if cfg.pre_holidays@.contains(
                d as i32,
            ) {
                420int
            } else {
                480int
            },
        ) by {
            lemma_key_sums_fit(ps, ymd_format(d as i32), ps.len() as int);
            assert(is_work_day(cfg.holidays@, d));
            let row = day_row(cfg.pre_holidays@, ps, d);
            assert(row.diff >= i64::MIN);
        }
        assert forall|j: int| 0 <= j < ps.len() implies in_i64(
            #[trigger] minutes_on(ps.take(j + 1), ps[j].0),
        ) by {
            assert(in_i64(date_sum_at(ps, j)));
        }
    }
    if ({
        &&& forall|j: int| 0 <= j <= ps.len() ==> in_i64(#[trigger] minutes_total(ps.take(j)))
        &&& forall|j: int|
            0 <= j < ps.len() ==> in_i64(#[trigger] minutes_on(ps.take(j + 1), ps[j].0))
        &&& forall|d: int|
            range.0 <= d <= range.1 && !is_weekend(d) && !cfg.holidays@.contains(d as i32)
                ==> in_i64(
                #[trigger] minutes_on(ps, ymd_format(d as i32)) - if cfg.pre_holidays@.contains(
                    d as i32,
                ) {
                    420int
                } else {
                    480int
                },
            )
    }) {
        assert forall|j: int| 0 <= j < ps.len() implies in_i64(#[trigger] date_sum_at(ps, j)) by {
            assert(in_i64(minutes_on(ps.take(j + 1), ps[j].0)));
        }
        assert forall|d: int|
            range.0 <= d <= range.1 && is_work_day(cfg.holidays@, d) implies #[trigger] day_row(
                cfg.pre_holidays@,
                ps,
                d,
            ).diff >= i64::MIN by {
            assert(in_i64(
                minutes_on(ps, ymd_format(d as i32)) - if cfg.pre_holidays@.contains(d as i32) {
                    420int
                } else {
                    480int
                },
            ));
        }
        assert(totals_fit(ps));
        assert(date_sums_fit(ps));
        assert(diffs_fit(cfg.holidays@, cfg.pre_holidays@, ps, range.0 as int, range.1 as int));
    }
}

/// Each item logging at most `b` minutes either way, the minutes of any
/// `j` of them sum, in total or on any one date, to at most `j * b` either
/// way.
proof fn lemma_sums_bounded(ps: Seq<(Seq<char>, int)>, b: int, j: int, key: Seq<char>)
    requires
        0 <= j <= ps.len(),
        b >= 0,
        forall|i: int| 0 <= i < ps.len() ==> -b <= #[trigger] ps[i].1 <= b,
    ensures
        -(j * b) <= minutes_total(ps.take(j)) <= j * b,
        -(j * b) <= minutes_on(ps.take(j), key) <= j * b,
    decreases j,
{
    if j == 0 {
        assert(ps.take(0) =~= Seq::<(Seq<char>, int)>::empty());
    } else {
        lemma_sums_bounded(ps, b, j - 1, key);
        let t = ps.take(j);
        assert(t.drop_last() =~= ps.take(j - 1));
        assert(t.last() == ps[j - 1]);
        assert(j * b == (j - 1) * b + b) by (nonlinear_arith);
    }
}

/// Work items that each log minutes within the `i32` range, fewer than
/// 2^31 of them, always make a report, whatever the period, zone, holidays
/// and dates: no sum of theirs comes near the `i64` limits, and a day
/// logged over its norm is as good as one logged under it.
pub proof fn lemma_i32_minutes_always_fit(cfg: Config, range: (i32, i32), items: JsonV)
    requires
        items_of(items).len() <= 0x8000_0000,
        forall|i: int|
            0 <= i < items_of(items).len() ==> i32::MIN <= #[trigger] item_minutes(
                items_of(items)[i],
            ) <= i32::MAX,
    ensures
        sums_fit(cfg, range, items),
{
    let ps = dated_minutes(cfg.timezone@, items_of(items));
    let b: int = 0x8000_0000;
    assert forall|i: int| 0 <= i < ps.len() implies -b <= #[trigger] ps[i].1 <= b by {
        assert(ps[i].1 == item_minutes(items_of(items)[i]));
    }
    assert forall|j: int| 0 <= j <= ps.len() implies in_i64(#[trigger] minutes_total(ps.take(j))) by {
        lemma_sums_bounded(ps, b, j, Seq::empty());
        assert(j * b <= 0x8000_0000 * 0x8000_0000) by (nonlinear_arith)
            requires
                0 <= j <= 0x8000_0000,
                b == 0x8000_0000,
        ;
    }
    assert forall|j: int| 0 <= j < ps.len() implies in_i64(
        #[trigger] minutes_on(ps.take(j + 1), ps[j].0),
    ) by {
        lemma_sums_bounded(ps, b, j + 1, ps[j].0);
        assert((j + 1) * b <= 0x8000_0000 * 0x8000_0000) by (nonlinear_arith)
            requires
                0 <= j + 1 <= 0x8000_0000,
                b == 0x8000_0000,
        ;
    }
    assert(ps.take(ps.len() as int) =~= ps);
    assert forall|d: int|
        range.0 <= d <= range.1 && !is_weekend(d) && !cfg.holidays@.contains(d as i32)
            implies in_i64(
        #[trigger] minutes_on(ps, ymd_format(d as i32)) - if cfg.pre_holidays@.contains(d as i32) {
            420int
        } else {
            480int
        },
    ) by {
        let n = ps.len() as int;
        lemma_sums_bounded(ps, b, n, ymd_format(d as i32));
        assert(n * b <= 0x8000_0000 * 0x8000_0000) by (nonlinear_arith)
            requires
                0 <= n <= 0x8000_0000,
                b == 0x8000_0000,
        ;
    }
    lemma_sums_fit_is_no_overflow(cfg, range, items);
}

} // verus!
