use vstd::prelude::*;

verus! {

/// The latest second that a UTC date and time can hold: the last second of
/// the year 262142, counted from 1970-01-01T00:00:00Z.
pub const LATEST_UTC_TIMESTAMP: i64 = 8210266876799;

/// Reads the system clock through `chrono::Utc::now` and returns its
/// `timestamp()`, the whole seconds since the Unix epoch.
///
/// Claimed of `chrono::Utc::now`: the instant it returns lies between the
/// epoch and the latest UTC date and time that chrono can represent (it
/// panics on a clock set before the epoch). Which instant comes back is not
/// stated: it is the time of the call.
#[verifier::external_body]
pub(crate) fn utc_now_timestamp() -> (now: i64)
    ensures
        0 <= now <= LATEST_UTC_TIMESTAMP,
{
    chrono::Utc::now().timestamp()
}

} // verus!
