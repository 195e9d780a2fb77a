use vstd::prelude::*;
use vstd::string::*;

use chrono::Datelike;

verus! {

/// A calendar date with no time of day.
#[derive(Clone, Copy, Debug, PartialEq, Eq)]
pub struct CalendarDate {
    pub year: i32,
    /// From 1 to 12.
    pub month: u32,
    /// From 1 to 31.
    pub day: u32,
}

/// The year, month and day of a date.
pub open spec fn ymd(d: CalendarDate) -> (int, int, int) {
    (d.year as int, d.month as int, d.day as int)
}

/// The view of an optional date.
pub open spec fn opt_ymd(d: Option<CalendarDate>) -> Option<(int, int, int)> {
    match d {
        Some(d) => Some(ymd(d)),
        None => None,
    }
}

/// The year, month and day that chrono reads from `s` as a `YYYY-MM-DD` date, if it is one.
pub uninterp spec fn naive_date_of(s: Seq<char>) -> Option<(int, int, int)>;

/// Relies on `<chrono::NaiveDate as FromStr>::from_str`: the result depends on the text
/// alone, and a `NaiveDate`'s month is from 1 to 12 and its day from 1 to 31.
#[verifier::external_body]
fn parse_naive_date(s: &str) -> (r: Option<CalendarDate>)
    ensures
        opt_ymd(r) == naive_date_of(s@),
        r matches Some(d) ==> 1 <= d.month <= 12 && 1 <= d.day <= 31,
{
    match s.parse::<chrono::NaiveDate>() {
        Ok(d) => Some(CalendarDate { year: d.year(), month: d.month(), day: d.day() }),
        Err(_) => None,
    }
}

/// The position of the first `'T'` in `s` at or after `i`, or the length of `s`.
pub open spec fn first_t_from(s: Seq<char>, i: int) -> int
    decreases s.len() - i,
{
    if i < 0 || i >= s.len() {
        s.len() as int
    } else if s[i] == 'T' {
        i
    } else {
        first_t_from(s, i + 1)
    }
}

/// What comes before the first `'T'` of `s`: all of `s` where it holds none.
pub open spec fn date_part(s: Seq<char>) -> Seq<char> {
    s.take(first_t_from(s, 0))
}

/// The part of `text` before its first `'T'`.
pub fn date_prefix(text: &str) -> (r: &str)
    ensures
        r@ == date_part(text@),
{
    let n = text.unicode_len();
    let mut i: usize = 0;
    while i < n
        invariant
            n == text@.len(),
            i <= n,
            first_t_from(text@, 0) == first_t_from(text@, i as int),
        decreases n - i,
    {
        if text.get_char(i) == 'T' {
            return text.substring_char(0, i);
        }
        i = i + 1;
    }
    text.substring_char(0, n)
}

/// The calendar date that `text` starts with: the part before the first `'T'` read as
/// `YYYY-MM-DD`; the time of day, if any, is dropped.
pub fn parse_date(text: &str) -> (r: Option<CalendarDate>)
    ensures
        opt_ymd(r) == naive_date_of(date_part(text@)),
        r matches Some(d) ==> 1 <= d.month <= 12 && 1 <= d.day <= 31,
{
    parse_naive_date(date_prefix(text))
}

} // verus!
