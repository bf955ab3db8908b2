//! The wall-clock time of a commit.

use vstd::prelude::*;

verus! {

/// The earliest second that `chrono` can hold in a date and time without a
/// zone: midnight of the first day of the year -262143.
pub const EARLIEST_SECOND: i64 = -8_334_601_228_800;

/// The latest second that `chrono` can hold in a date and time without a
/// zone: the last second of the year 262142.
pub const LATEST_SECOND: i64 = 8_210_266_876_799;

/// Whether `chrono` can hold the second, counted from the epoch.
pub open spec fn representable(second: int) -> bool {
    EARLIEST_SECOND <= second <= LATEST_SECOND
}

/// The wall-clock time of a commit, in seconds since the epoch: the seconds
/// that the commit records, moved by the recorded offset from UTC, in
/// minutes. This is the time that the committer's clock showed, read as if it
/// had no zone, and not a point in UTC. There is none where the recorded
/// seconds or the wall-clock time lie beyond what can be held.
pub open spec fn wall_clock(seconds: int, offset_minutes: int) -> Option<i64> {
    let local = seconds + 60 * offset_minutes;
    if representable(seconds) && representable(local) {
        Some(local as i64)
    } else {
        None
    }
}

/// Makes the date and time of `seconds` with `chrono::DateTime::from_timestamp`,
/// adds `chrono::TimeDelta::minutes` of the offset to it as a date and time
/// without a zone, with `chrono::NaiveDateTime::checked_add_signed`, and reads
/// the sum back in seconds. `chrono` gives nothing where the seconds or the sum
/// fall outside the years that it can hold, and the second that was asked
/// for otherwise; it counts no leap seconds.
#[verifier::external_body]
fn shifted_by_chrono(seconds: i64, offset_minutes: i32) -> (local: Option<i64>)
    ensures
        local == wall_clock(seconds as int, offset_minutes as int),
{
    let utc = chrono::DateTime::from_timestamp(seconds, 0)?;
    let offset = chrono::TimeDelta::minutes(i64::from(offset_minutes));
    let local = utc.naive_utc().checked_add_signed(offset)?;
    Some(local.and_utc().timestamp())
}

/// The wall-clock time of a commit that records `seconds` since the epoch at
/// an offset of `offset_minutes` from UTC.
pub fn local_commit_time(seconds: i64, offset_minutes: i32) -> (local: Option<i64>)
    ensures
        local == wall_clock(seconds as int, offset_minutes as int),
{
    shifted_by_chrono(seconds, offset_minutes)
}

} // verus!
