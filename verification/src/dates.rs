//! Calendar-date rendering of Unix timestamps, delegated to the `chrono`
//! crate.  Reports show the calendar date only, in a fixed locale-independent
//! month/day/year form (`%b %e %Y`, e.g. `May 15 2015`).

use vstd::prelude::*;

verus! {

/// Timestamps strictly below this bound (and at or above zero) render to a
/// date of year 9999 or earlier; `date_in_range` keeps reports inside it.
pub const MAX_DATE_SECS: i64 = 253_402_300_800;

/// The timestamps this library renders: the Unix epoch up to the end of year
/// 9999, comfortably inside the range `chrono` can represent.
pub open spec fn date_in_range(t: i64) -> bool {
    0 <= t < MAX_DATE_SECS
}

/// The `%b %e %Y` rendering of a Unix timestamp in UTC.  The rendering is a
/// fixed function of the seconds value alone: it uses no locale, no time zone
/// database and no clock.
pub uninterp spec fn utc_date_label(t: int) -> Seq<char>;

/// Relies on chrono's `TimeZone::timestamp_opt` for `Utc` and on
/// `DateTime::format` with the fixed format string `%b %e %Y`: the result is
/// a function of the seconds value alone, and `timestamp_opt(secs, 0)`
/// returns `Single` whenever the seconds land inside `NaiveDate`'s year range
/// (chrono's `DateTime::from_timestamp` returns `Some` there), which every
/// value admitted by `date_in_range` does.
#[verifier::external_body]
fn utc_date(t: i64) -> (r: Option<String>)
    ensures
        r matches Some(s) ==> s@ == utc_date_label(t as int),
        date_in_range(t) ==> r is Some,
{
    match chrono::TimeZone::timestamp_opt(&chrono::Utc, t, 0) {
        chrono::LocalResult::Single(d) => Some(d.format("%b %e %Y").to_string()),
        _ => None,
    }
}

/// Renders a Unix timestamp as a calendar date.
pub fn date_string(t: i64) -> (r: String)
    requires
        date_in_range(t),
    ensures
        r@ == utc_date_label(t as int),
{
    utc_date(t).unwrap()
}

} // verus!
