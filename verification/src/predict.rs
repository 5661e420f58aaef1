//! Calendar arithmetic for the orbit predictor's time handling.
//!
//! The orbit propagation itself is an external collaborator; only the exact
//! integer calendar computation it is fed with lives here.

use vstd::prelude::*;

verus! {

/// A leap year of the Gregorian calendar.
pub open spec fn is_leap_year(y: int) -> bool {
    y % 4 == 0 && (y % 100 != 0 || y % 400 == 0)
}

/// Days of month `m` (1-based) in a common year.
pub open spec fn days_in_month_common(m: int) -> int {
    if m == 2 {
        28
    } else if m == 4 || m == 6 || m == 9 || m == 11 {
        30
    } else {
        31
    }
}

/// Days of a common year strictly before month `m` (1-based).
pub open spec fn days_before_month(m: int) -> int
    decreases m,
{
    if m <= 1 {
        0
    } else {
        days_before_month(m - 1) + days_in_month_common(m - 1)
    }
}

/// The day of the year of a calendar date: day 1 is January 1, and in a leap
/// year every day from March on counts one further.
pub open spec fn day_of_year_spec(y: int, m: int, d: int) -> int {
    days_before_month(m) + d + if is_leap_year(y) && m > 2 {
        1int
    } else {
        0int
    }
}

/// Days of month `m` (1-based) in a common year.
fn days_in_month(m: i32) -> (d: i32)
    requires
        1 <= m <= 12,
    ensures
        d == days_in_month_common(m as int),
{
    if m == 2 {
        28
    } else if m == 4 || m == 6 || m == 9 || m == 11 {
        30
    } else {
        31
    }
}

/// The sum of whole months before a date never exceeds a year of days.
proof fn lemma_days_before_month_bounds(m: int)
    requires
        1 <= m <= 13,
    ensures
        0 <= days_before_month(m) <= 31 * (m - 1),
    decreases m,
{
    if m > 1 {
        lemma_days_before_month_bounds(m - 1);
    }
}

/// Calculates the day of the year for the specified date.
pub fn day_of_the_year(yr: i32, mo: i32, dy: i32) -> (r: i32)
    requires
        0 <= yr,
        1 <= mo <= 12,
        1 <= dy <= 31,
    ensures
        r == day_of_year_spec(yr as int, mo as int, dy as int),
{
    let mut day: i32 = 0;
    let mut m: i32 = 1;
    while m < mo
        invariant
            1 <= m <= mo <= 12,
            day == days_before_month(m as int),
            0 <= day <= 31 * (m - 1),
        decreases mo - m,
    {
        proof {
            lemma_days_before_month_bounds(m as int + 1);
        }
        day = day + days_in_month(m);
        m = m + 1;
    }
    day = day + dy;
    let y = yr as u32;
    if (y % 4 == 0) && ((y % 100 != 0) || (y % 400 == 0)) && (mo > 2) {
        day = day + 1;
    }
    day
}

} // verus!
