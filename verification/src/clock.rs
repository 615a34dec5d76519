//! The wall clock.
//!
//! The time is counted from the first day of 1970.  A clock that stands
//! before that day shows no time that can be counted so; it is read as
//! that day itself.

use vstd::prelude::*;
use std::time::Duration;

verus! {

/// Wraps `SystemTime::elapsed` of the standard library, called on
/// `UNIX_EPOCH`: the time from the first day of 1970 to now, or `None` when
/// the clock stands before that day.  The result is the wall clock's, so two
/// calls may differ, and the contract claims nothing of it.
#[verifier::external_body]
fn time_since_epoch() -> (r: Option<Duration>) {
    std::time::UNIX_EPOCH.elapsed().ok()
}

/// Wraps `Duration::as_millis` of the standard library: the whole
/// milliseconds of a stretch of time.  The contract claims nothing of the
/// result.
#[verifier::external_body]
fn whole_millis(elapsed: &Duration) -> (r: u128) {
    elapsed.as_millis()
}

/// The time now, in milliseconds since the first day of 1970.  It is never
/// negative: a clock before that day is read as zero, and a time beyond
/// the largest number is read as the largest number.
pub fn current_millis() -> (r: i64)
    ensures
        r >= 0,
{
    match time_since_epoch() {
        Some(elapsed) => {
            let millis = whole_millis(&elapsed);
            if millis > 0x7fff_ffff_ffff_ffff {
                i64::MAX
            } else {
                millis as i64
            }
        },
        None => 0,
    }
}

/// The whole seconds of a time in milliseconds.
pub fn seconds_of(millis: i64) -> (r: u64)
    requires
        millis >= 0,
    ensures
        r == millis / 1000,
{
    (millis / 1000) as u64
}

} // verus!
