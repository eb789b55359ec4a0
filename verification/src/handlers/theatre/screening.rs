//! The rules for a look at the timeline of a theatre.

use vstd::prelude::*;
use crate::error::ValidationErrors;
use crate::token::SECONDS_PER_DAY;

verus! {

/// The span of time that a timeline is asked for.
#[derive(Debug, Clone, Copy, PartialEq, Eq, Structural)]
pub struct TimelineQuery {
    pub start_date: i64,
    pub end_date: Option<i64>,
}

/// The day that a time falls on, counted from the epoch.
pub open spec fn day_of(time: i64) -> int {
    time as int / SECONDS_PER_DAY as int
}

/// The first second of the day that a time falls on.
pub open spec fn day_start(time: i64) -> int {
    day_of(time) * SECONDS_PER_DAY
}

/// The day that a time falls on, counted from the epoch.
pub fn day(time: i64) -> (r: i64)
    ensures
        r == day_of(time),
{
    if time >= 0 {
        time / SECONDS_PER_DAY
    } else {
        let before: u64 = (-(time + 1)) as u64;
        let whole: u64 = before / (SECONDS_PER_DAY as u64);
        -(whole as i64) - 1
    }
}

/// The first second of the day that a time falls on: what a timeline is
/// searched from and up to. Within less than a day of the earliest time that
/// can be written, that second cannot be written, and there is none.
pub fn start_of_day(time: i64) -> (r: Option<i64>)
    ensures
        match r {
            Some(start) => start == day_start(time) && start <= time < start + SECONDS_PER_DAY,
            None => day_start(time) < i64::MIN,
        },
{
    let d = day(time);
    if d < i64::MIN / SECONDS_PER_DAY {
        None
    } else {
        Some(d * SECONDS_PER_DAY)
    }
}

/// The fields of a timeline query that break a rule at the time `now`: the
/// start must not lie on a day before today, and an end that is given must
/// not lie after the start.
pub open spec fn timeline_errors(query: TimelineQuery, now: i64) -> ValidationErrors {
    if day_of(now) > day_of(query.start_date) {
        ValidationErrors { start_date: true, ..ValidationErrors::none() }
    } else if query.end_date matches Some(end) && end > query.start_date {
        ValidationErrors { end_date: true, ..ValidationErrors::none() }
    } else {
        ValidationErrors::none()
    }
}

/// Holds a timeline query against its rules at the time `now`. The first rule
/// that is broken is the one reported.
pub fn validate_timeline_query(query: &TimelineQuery, now: i64) -> (r: Result<
    (),
    ValidationErrors,
>)
    ensures
        r is Ok <==> timeline_errors(*query, now).is_empty_spec(),
        r matches Err(e) ==> e == timeline_errors(*query, now),
{
    if day(now) > day(query.start_date) {
        let mut errors = ValidationErrors::new();
        errors.start_date = true;
        return Err(errors);
    }
    match query.end_date {
        Some(end) => {
            if end > query.start_date {
                let mut errors = ValidationErrors::new();
                errors.end_date = true;
                return Err(errors);
            }
        },
        None => {},
    }
    Ok(())
}

} // verus!
