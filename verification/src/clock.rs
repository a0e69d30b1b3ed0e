//! The time of a request, read and turned into a calendar day by `chrono`.

use vstd::prelude::*;

verus! {

/// The UTC calendar day, written `YYYY-MM-DD`, of the instant `timestamp`
/// seconds after the Unix epoch; `None` where the calendar of `chrono` does
/// not reach.
pub uninterp spec fn utc_date_text(timestamp: int) -> Option<Seq<char>>;

/// `chrono::Utc::now` and `DateTime::timestamp`: the seconds since the Unix
/// epoch on this machine's clock. Nothing is known of the value. `chrono`
/// gives up on a clock that is set before the epoch.
#[verifier::external_body]
pub(crate) fn current_timestamp() -> (timestamp: i64) {
    chrono::Utc::now().timestamp()
}

/// `chrono::DateTime::from_timestamp` and `DateTime::format` with
/// `%Y-%m-%d`: the UTC calendar day of `timestamp`, or `None` for a number
/// of seconds outside the range of `chrono`.
#[verifier::external_body]
pub(crate) fn utc_date(timestamp: i64) -> (date: Option<String>)
    ensures
        date is Some <==> utc_date_text(timestamp as int) is Some,
        date matches Some(text) ==> utc_date_text(timestamp as int) == Some(text@),
{
    let instant = chrono::DateTime::from_timestamp(timestamp, 0)?;
    Some(instant.format("%Y-%m-%d").to_string())
}

} // verus!
