use vstd::prelude::*;

use chrono::Datelike;
use chrono::TimeZone;

use crate::text::{chars_of, split_chars, split_char, trim_chars, trim, string_of, pieces_view};

verus! {

// ---------------------------------------------------------------------
// Calendar days
//
// A calendar date is held as its day number in the proleptic Gregorian
// calendar, January 1 of year 1 being day 1 (chrono's `num_days_from_ce`).
// ---------------------------------------------------------------------

/// Day number of chrono's earliest date, January 1 of year -262143.
pub open spec fn min_day() -> int {
    -95746129
}

/// Day number of chrono's latest date, December 31 of year 262142.
pub open spec fn max_day() -> int {
    95745399
}

/// `d` is the day number of a date chrono can represent.
pub open spec fn day_in_range(d: int) -> bool {
    min_day() <= d <= max_day()
}

/// What `NaiveDate::parse_from_str(s, "%Y-%m-%d")` yields, as a day number.
pub uninterp spec fn ymd_parse(s: Seq<char>) -> Option<i32>;

/// What `NaiveDate::format("%Y-%m-%d")` renders for the date of day number `day`.
pub uninterp spec fn ymd_format(day: i32) -> Seq<char>;

/// `c` is an ASCII digit.
pub open spec fn ascii_digit(c: char) -> bool {
    '0' <= c <= '9'
}

/// `s` is written exactly as `%Y-%m-%d` renders a date of years 0 to 9999:
/// four digits, a hyphen, two digits, a hyphen, two digits.
pub open spec fn canonical_ymd(s: Seq<char>) -> bool {
    &&& s.len() == 10
    &&& s[4] == '-' && s[7] == '-'
    &&& forall|i: int| 0 <= i < 10 && i != 4 && i != 7 ==> ascii_digit(#[trigger] s[i])
}

/// `chrono::NaiveDate::parse_from_str` with the format `%Y-%m-%d`, giving the
/// parsed date's day number. Claimed: the result is the named parse of `s`;
/// a parsed date lies in chrono's date range (a `NaiveDate` cannot hold any
/// other); and a date written in canonical form is rendered back by `%Y-%m-%d`
/// as the same text (chrono reads the digits of each field as its value, and
/// writes a year of 0 to 9999 as four digits, month and day as two, zero
/// padded). What else the parser accepts is left to the name.
#[verifier::external_body]
fn chrono_parse_ymd(s: &str) -> (r: Option<i32>)
    ensures
        r == ymd_parse(s@),
        r matches Some(d) ==> day_in_range(d as int),
        r matches Some(d) ==> (canonical_ymd(s@) ==> ymd_format(d) == s@),
{
    chrono::NaiveDate::parse_from_str(s, "%Y-%m-%d").ok().map(|d| d.num_days_from_ce())
}

/// `chrono::NaiveDate::format` with `%Y-%m-%d` on the date of day number `day`
/// (made by `NaiveDate::from_num_days_from_ce_opt`, defined on chrono's whole
/// range). Claimed: the result is the named rendering of `day`.
#[verifier::external_body]
fn chrono_format_ymd(day: i32) -> (r: String)
    requires
        day_in_range(day as int),
    ensures
        r@ == ymd_format(day),
{
    chrono::NaiveDate::from_num_days_from_ce_opt(day).unwrap().format("%Y-%m-%d").to_string()
}

/// `Datelike::weekday` of the date of day number `day`, counted from Monday
/// (`Weekday::num_days_from_monday`). Claimed: the proleptic Gregorian week
/// cycle, day 1 (January 1 of year 1) being a Monday, so the result is
/// `(day + 6) mod 7`; chrono's own examples agree (day 719163, 1970-01-01,
/// is a Thursday).
#[verifier::external_body]
fn chrono_weekday_from_monday(day: i32) -> (r: u32)
    requires
        day_in_range(day as int),
    ensures
        r as int == (day as int + 6) % 7,
{
    chrono::NaiveDate::from_num_days_from_ce_opt(day).unwrap().weekday().num_days_from_monday()
}

/// Parses an ISO `YYYY-MM-DD` date to its day number.
pub fn parse_iso_date(s: &str) -> (r: Option<i32>)
    ensures
        r == ymd_parse(s@),
        r matches Some(d) ==> day_in_range(d as int),
        r matches Some(d) ==> (canonical_ymd(s@) ==> ymd_format(d) == s@),
{
    chrono_parse_ymd(s)
}

/// Renders the date of day number `day` as `YYYY-MM-DD`.
pub fn format_iso_date(day: i32) -> (r: String)
    requires
        day_in_range(day as int),
    ensures
        r@ == ymd_format(day),
{
    chrono_format_ymd(day)
}

/// `day` falls on a Saturday or a Sunday.
pub open spec fn is_weekend(day: int) -> bool {
    (day + 6) % 7 >= 5
}

/// Whether the date of day number `day` falls on a weekend.
pub fn weekend(day: i32) -> (r: bool)
    requires
        day_in_range(day as int),
    ensures
        r == is_weekend(day as int),
{
    chrono_weekday_from_monday(day) >= 5
}

// ---------------------------------------------------------------------
// Time zones
//
// A time zone is held as its IANA name; `tz_known` names the names
// chrono-tz accepts.
// ---------------------------------------------------------------------

/// Whether `chrono_tz::Tz::from_str` accepts `name`.
pub uninterp spec fn tz_known(name: Seq<char>) -> bool;

/// The local date, rendered `%Y-%m-%d`, of the instant `ms` (unix
/// milliseconds) in time zone `tz`, when chrono maps it to one local time.
pub uninterp spec fn local_iso(tz: Seq<char>, ms: i64) -> Option<Seq<char>>;

/// The unix milliseconds of noon on day number `day` in time zone `tz`, when
/// that local time maps to exactly one instant.
pub uninterp spec fn local_noon_ms(tz: Seq<char>, day: i32) -> Option<i64>;

/// `str::parse::<chrono_tz::Tz>`, reporting whether `name` is a known zone.
/// Claimed: the answer is the named predicate of `name`.
#[verifier::external_body]
fn chrono_tz_parses(name: &str) -> (r: bool)
    ensures
        r == tz_known(name@),
{
    name.parse::<chrono_tz::Tz>().is_ok()
}

/// `chrono_tz::Tz::name` of `Europe::Moscow`. Claimed: it is the text
/// `Europe/Moscow`, and `Tz::from_str` accepts it (it looks names up in the
/// same table `name` reads).
#[verifier::external_body]
fn chrono_tz_moscow() -> (r: String)
    ensures
        r@ == seq!['E', 'u', 'r', 'o', 'p', 'e', '/', 'M', 'o', 's', 'c', 'o', 'w'],
        tz_known(r@),
{
    chrono_tz::Europe::Moscow.name().to_string()
}

/// `TimeZone::timestamp_millis_opt` in zone `tz`, then `LocalResult::single`,
/// rendered with `format("%Y-%m-%d")`. Claimed: the result is the named local
/// date of `(tz, ms)`.
#[verifier::external_body]
fn chrono_local_iso(tz: &str, ms: i64) -> (r: Option<String>)
    requires
        tz_known(tz@),
    ensures
        match r {
            Some(s) => local_iso(tz@, ms) == Some(s@),
            None => local_iso(tz@, ms) is None,
        },
{
    let zone: chrono_tz::Tz = tz.parse().unwrap();
    zone.timestamp_millis_opt(ms).single().map(|d| d.format("%Y-%m-%d").to_string())
}

/// `TimeZone::from_local_datetime` at 12:00:00 of day number `day` in zone
/// `tz`, then `LocalResult::single`, as unix milliseconds
/// (`DateTime::timestamp_millis`). Claimed: the result is the named instant;
/// and that instant, read back in the same zone (`timestamp_millis_opt`,
/// which maps an instant to exactly one local time), falls on `day`, so its
/// local date renders as `day` does.
#[verifier::external_body]
fn chrono_local_noon(tz: &str, day: i32) -> (r: Option<i64>)
    requires
        tz_known(tz@),
        day_in_range(day as int),
    ensures
        r == local_noon_ms(tz@, day),
        r matches Some(ms) ==> local_iso(tz@, ms) == Some(ymd_format(day)),
{
    let zone: chrono_tz::Tz = tz.parse().unwrap();
    let d = chrono::NaiveDate::from_num_days_from_ce_opt(day).unwrap();
    zone.from_local_datetime(&d.and_hms_opt(12, 0, 0).unwrap()).single().map(|t| t.timestamp_millis())
}

/// Whether `name` is a time zone name chrono-tz knows.
pub fn tz_name_known(name: &str) -> (r: bool)
    ensures
        r == tz_known(name@),
{
    chrono_tz_parses(name)
}

/// The zone used when none (or an unknown one) is configured.
pub fn default_tz() -> (r: String)
    ensures
        r@ == seq!['E', 'u', 'r', 'o', 'p', 'e', '/', 'M', 'o', 's', 'c', 'o', 'w'],
        tz_known(r@),
{
    chrono_tz_moscow()
}

/// The local date of instant `ms` in zone `tz`, if chrono maps it to one.
pub fn local_iso_date(tz: &str, ms: i64) -> (r: Option<String>)
    requires
        tz_known(tz@),
    ensures
        match r {
            Some(s) => local_iso(tz@, ms) == Some(s@),
            None => local_iso(tz@, ms) is None,
        },
{
    chrono_local_iso(tz, ms)
}

/// Noon of day `day` in zone `tz`, in unix milliseconds, if unambiguous.
pub fn local_noon(tz: &str, day: i32) -> (r: Option<i64>)
    requires
        tz_known(tz@),
        day_in_range(day as int),
    ensures
        r == local_noon_ms(tz@, day),
        r matches Some(ms) ==> local_iso(tz@, ms) == Some(ymd_format(day)),
{
    chrono_local_noon(tz, day)
}

// ---------------------------------------------------------------------
// Sets of dates
// ---------------------------------------------------------------------

/// A set of calendar days.
pub struct DateSet {
    days: std::collections::HashSet<i32>,
}

impl View for DateSet {
    type V = Set<i32>;

    closed spec fn view(&self) -> Set<i32> {
        self.days@
    }
}

impl DateSet {
    /// The empty set.
    pub fn new() -> (r: DateSet)
        ensures
            r@ == Set::<i32>::empty(),
    {
        DateSet { days: std::collections::HashSet::new() }
    }

    /// Whether `day` is in the set.
    pub fn contains(&self, day: i32) -> (r: bool)
        ensures
            r == self@.contains(day),
    {
        broadcast use vstd::std_specs::hash::group_hash_axioms;

        self.days.contains(&day)
    }

    /// Adds `day` to the set.
    pub fn insert(&mut self, day: i32)
        ensures
            final(self)@ == old(self)@.insert(day),
    {
        broadcast use vstd::std_specs::hash::group_hash_axioms;

        self.days.insert(day);
    }

    /// The number of days in the set.
    pub fn len(&self) -> (r: usize)
        ensures
            r == self@.len(),
    {
        broadcast use vstd::std_specs::hash::group_hash_axioms;

        self.days.len()
    }
}

/// The days named in a comma-separated list of ISO dates: each piece,
/// trimmed, that parses as a date. Pieces that do not parse are skipped.
pub open spec fn dates_in_csv(raw: Seq<char>) -> Set<i32> {
    Set::new(
        |d: i32|
            exists|i: int|
                0 <= i < split_char(raw, ',').len() && ymd_parse(
                    trim(#[trigger] split_char(raw, ',')[i]),
                ) == Some(d),
    )
}

/// Parses a comma-separated list of ISO `YYYY-MM-DD` dates; unparsable
/// pieces are skipped.
pub fn parse_dates(raw: &str) -> (r: DateSet)
    ensures
        r@ == dates_in_csv(raw@),
{
    let v = chars_of(raw);
    let pieces = split_chars(&v, ',');
    let ghost ps = split_char(raw@, ',');
    let mut set = DateSet::new();
    let mut i: usize = 0;
    while i < pieces.len()
        invariant
            pieces_view(pieces@) == ps,
            ps == split_char(raw@, ','),
            i <= pieces@.len(),
            set@ == Set::new(
                |d: i32|
                    exists|k: int| 0 <= k < i && ymd_parse(trim(#[trigger] ps[k])) == Some(d),
            ),
        decreases pieces@.len() - i,
    {
        let t = trim_chars(pieces[i].as_slice());
        assert(pieces[i as int]@ == ps[i as int]);
        let ts = string_of(&t);
        let ghost before = set@;
        match parse_iso_date(ts.as_str()) {
            Some(d) => {
                set.insert(d);
                assert(set@ =~= Set::new(
                    |e: i32|
                        exists|k: int|
                            0 <= k < i + 1 && ymd_parse(trim(#[trigger] ps[k])) == Some(e),
                )) by {
                    assert forall|e: i32| #[trigger]
                        set@.contains(e) implies exists|k: int|
                        0 <= k < i + 1 && ymd_parse(trim(#[trigger] ps[k])) == Some(e) by {
                        if e == d {
                            assert(ymd_parse(trim(ps[i as int])) == Some(e));
                        } else {
                            assert(before.contains(e));
                        }
                    }
                }
            },
            None => {
                assert(set@ =~= Set::new(
                    |e: i32|
                        exists|k: int|
                            0 <= k < i + 1 && ymd_parse(trim(#[trigger] ps[k])) == Some(e),
                )) by {
                    assert forall|e: i32|
                        (exists|k: int|
                            0 <= k < i + 1 && ymd_parse(trim(#[trigger] ps[k])) == Some(e))
                            implies #[trigger] before.contains(e) by {
                        let k = choose|k: int|
                            0 <= k < i + 1 && ymd_parse(trim(#[trigger] ps[k])) == Some(e);
                        if k == i {
                            assert(ymd_parse(trim(ps[i as int])) is None);
                        }
                    }
                }
            },
        }
        i = i + 1;
    }
    assert(set@ =~= dates_in_csv(raw@));
    set
}

} // verus!
