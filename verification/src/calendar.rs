//! Calendar days, carried as day numbers of the proleptic Gregorian calendar.

use chrono::Datelike;
use vstd::prelude::*;

verus! {

/// The day number of the first date that `chrono::NaiveDate` represents (year -262143, Jan 1).
pub const MIN_DAY: i32 = -95746129i32;

/// The day number of the last date that `chrono::NaiveDate` represents (year 262142, Dec 31).
pub const MAX_DAY: i32 = 95745399i32;

/// A day number names a date that `chrono::NaiveDate` can represent.
pub open spec fn is_calendar_day(day: int) -> bool {
    MIN_DAY <= day <= MAX_DAY
}

/// The day before `day`, computed by `chrono::NaiveDate::pred_opt`.
///
/// `from_num_days_from_ce_opt` gives `Some` exactly for the day numbers in
/// `MIN_DAY..=MAX_DAY`, `num_days_from_ce` reads the number back, and
/// `pred_opt` gives `None` only for `NaiveDate::MIN`. So the result is the
/// day number before `day` whenever both are representable, and `None` otherwise.
#[verifier::external_body]
pub(crate) fn previous_day(day: i32) -> (prev: Option<i32>)
    ensures
        prev == (if MIN_DAY < day <= MAX_DAY { Some((day - 1) as i32) } else { None::<i32> }),
{
    match chrono::NaiveDate::from_num_days_from_ce_opt(day) {
        Some(date) => match date.pred_opt() {
            Some(p) => Some(p.num_days_from_ce()),
            None => None,
        },
        None => None,
    }
}

} // verus!
