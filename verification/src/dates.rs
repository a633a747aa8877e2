//! Calendar views of epoch timestamps.
//!
//! The library works with plain epoch milliseconds; turning a timestamp into
//! a UTC month/year pair, or into an RFC-1123 style text, is chrono's job and
//! stands behind trusted wrappers here.

use vstd::prelude::*;

verus! {

/// A calendar month in a calendar year, as the estimator reports dates.
#[derive(Clone, Copy, Debug, PartialEq, Eq, Structural)]
pub struct MonthDate {
    pub month: u32,
    pub year: i32,
}

/// The (month, year) pair, in UTC, of an epoch-milliseconds timestamp, as
/// chrono computes it. The value depends on the timestamp alone; nothing
/// more is assumed of it than the documented month range.
pub uninterp spec fn civil_of_millis(ms: int) -> (int, int);

/// The RFC-1123 style UTC rendering of an epoch-seconds timestamp, e.g.
/// `Thu, 01 Jan 2015 00:00:00 GMT`. The text depends on the timestamp alone.
pub uninterp spec fn rfc1123_utc_of(secs: int) -> Seq<char>;

/// Relies on chrono's `DateTime::from_timestamp_millis`, `Datelike::month`
/// and `Datelike::year`: the UTC month (1..=12, as documented) and year of a
/// timestamp, determined by the timestamp alone. An out-of-range timestamp
/// falls back to the epoch, as `unwrap_or_default` gives it.
#[verifier::external_body]
fn civil_month_year(ms: i64) -> (r: (u32, i32))
    ensures
        r.0 as int == civil_of_millis(ms as int).0,
        r.1 as int == civil_of_millis(ms as int).1,
        1 <= r.0 <= 12,
{
    let dt = chrono::DateTime::from_timestamp_millis(ms).unwrap_or_default();
    (chrono::Datelike::month(&dt), chrono::Datelike::year(&dt))
}

/// Relies on chrono's `DateTime::from_timestamp` and `format`: the
/// `%a, %d %b %Y %H:%M:%S GMT` rendering of a timestamp in UTC, determined
/// by the timestamp alone. An out-of-range timestamp falls back to the epoch.
#[verifier::external_body]
pub(crate) fn format_rfc1123(secs: i64) -> (r: String)
    ensures
        r@ == rfc1123_utc_of(secs as int),
{
    let dt = chrono::DateTime::from_timestamp(secs, 0).unwrap_or_default();
    dt.format("%a, %d %b %Y %H:%M:%S GMT").to_string()
}

/// The `MonthDate` of an epoch-milliseconds timestamp.
pub open spec fn date_of_millis(ms: u64) -> MonthDate {
    MonthDate {
        month: civil_of_millis(ms as int).0 as u32,
        year: civil_of_millis(ms as int).1 as i32,
    }
}

/// Turns a timestamp that fits a signed 64-bit value into its calendar date.
pub fn to_month_date(ms: u64) -> (d: MonthDate)
    requires
        ms < 0x8000_0000_0000_0000,
    ensures
        d == date_of_millis(ms),
        1 <= d.month <= 12,
{
    let (m, y) = civil_month_year(ms as i64);
    MonthDate { month: m, year: y }
}

} // verus!
