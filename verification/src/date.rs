use vstd::prelude::*;

verus! {

/// A calendar date under the fixed non-leap-year rule of the birth-date
/// sampler: February always has 28 days, so no 29th is ever produced.
#[derive(Clone, Copy, Debug, PartialEq, Eq, Structural)]
pub struct Date {
    pub year: u32,
    pub month: u32,
    pub day: u32,
}

/// Day count of a month under the fixed rule: 31 for January, March, May,
/// July, August, October and December; 30 for April, June, September and
/// November; 28 for anything else (February, and out-of-range values).
pub open spec fn max_day(month: int) -> int {
    if month == 1 || month == 3 || month == 5 || month == 7 || month == 8 || month == 10
        || month == 12 {
        31
    } else if month == 4 || month == 6 || month == 9 || month == 11 {
        30
    } else {
        28
    }
}

/// A date is well formed when its month is real and its day fits that
/// month under the fixed rule.
pub open spec fn valid_date(d: Date) -> bool {
    &&& 1 <= d.month <= 12
    &&& 1 <= d.day <= max_day(d.month as int)
}

/// The year range that sampled birth dates are drawn from.
pub open spec fn in_birth_year_range(d: Date) -> bool {
    1977 <= d.year <= 1997
}

/// Day bound for a month, matching `max_day` on every input.
pub fn get_max_day_for_month(month: u32) -> (r: u32)
    ensures
        r == max_day(month as int),
{
    match month {
        1 | 3 | 5 | 7 | 8 | 10 | 12 => 31,
        4 | 6 | 9 | 11 => 30,
        _ => 28,
    }
}

/// February never admits a 29th: a well-formed date in month 2 has its day
/// at most 28, whatever the year, leap years included.
pub proof fn lemma_february_day_bound(d: Date)
    requires
        valid_date(d),
        d.month == 2,
    ensures
        d.day <= 28,
{
}

} // verus!
