//! The civil calendar and the time zones, which the `chrono` and
//! `chrono-tz` crates compute.

use chrono::{Datelike, Timelike};
use vstd::prelude::*;

verus! {

/// Seconds by which the start of a night precedes the midnight in it.
pub const HALF_DAY_SECS: i64 = 43200;

/// What a wall clock in the time zone `zone` shows at `utc_secs` seconds
/// after the start of 1970 in UTC: the date, counted in days from 31
/// December of 1 BCE, the hour and the minute. `None` where the zone is
/// not a name of the time zone database or the instant is beyond the
/// calendar's range.
pub uninterp spec fn zoned_civil(utc_secs: int, zone: Seq<char>) -> Option<(int, int, int)>;

/// The day of the month and the month of the date that lies `days` days
/// after 31 December of 1 BCE. `None` beyond the calendar's range.
pub uninterp spec fn civil_day_month(days: int) -> Option<(int, int)>;

/// Calls `chrono_tz::Tz::from_str`, `chrono::DateTime::from_timestamp` and
/// `chrono::DateTime::with_timezone`, then reads `num_days_from_ce`, `hour`
/// and `minute` off the local time.
///
/// Trusted: the result is the one that [`zoned_civil`] names.
#[verifier::external_body]
pub(crate) fn zoned_civil_at(utc_secs: i64, zone: &str) -> (r: Option<(i32, u32, u32)>)
    ensures
        zoned_civil(utc_secs as int, zone@) == match r {
            Some(c) => Some((c.0 as int, c.1 as int, c.2 as int)),
            None => None,
        },
{
    let tz: chrono_tz::Tz = zone.parse().ok()?;
    let local = chrono::DateTime::from_timestamp(utc_secs, 0)?.with_timezone(&tz);
    Some((local.num_days_from_ce(), local.hour(), local.minute()))
}

/// Calls `chrono::NaiveDate::from_num_days_from_ce_opt`, then reads `day`
/// and `month` off the date.
///
/// Trusted: the result is the one that [`civil_day_month`] names.
#[verifier::external_body]
pub(crate) fn day_month_at(days: i32) -> (r: Option<(u32, u32)>)
    ensures
        civil_day_month(days as int) == match r {
            Some(dm) => Some((dm.0 as int, dm.1 as int)),
            None => None,
        },
{
    let date = chrono::NaiveDate::from_num_days_from_ce_opt(days)?;
    Some((date.day(), date.month()))
}

} // verus!
