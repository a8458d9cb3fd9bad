//! Wall-clock time in Unix seconds.

use vstd::prelude::*;

verus! {

/// The Unix time of the last second `chrono` can represent
/// (`DateTime::<Utc>::MAX_UTC`, the end of the year 262142).
pub const MAX_UTC_TIMESTAMP: i64 = 8210266876799i64;

/// The Unix time of the first second `chrono` can represent
/// (`DateTime::<Utc>::MIN_UTC`, the start of the year -262143).
pub const MIN_UTC_TIMESTAMP: i64 = -8334601228800i64;

/// `std::time::UNIX_EPOCH.elapsed()`: the time since 1970 by the system
/// clock, as whole seconds and the nanoseconds past them; `None` when the
/// clock reads earlier than 1970. It depends on the clock, so of a reading
/// only what `Duration` guarantees is claimed: fewer than a billion
/// nanoseconds. Trusted.
#[verifier::external_body]
fn since_epoch() -> (res: Option<(u64, u32)>)
    ensures
        res matches Some((_, nanos)) ==> nanos < 1_000_000_000,
{
    match std::time::UNIX_EPOCH.elapsed() {
        Ok(elapsed) => Some((elapsed.as_secs(), elapsed.subsec_nanos())),
        Err(_) => None,
    }
}

/// `chrono::DateTime::from_timestamp(secs, nanos)` read back with
/// `.timestamp()`: the same second when it lies in the range of
/// `DateTime<Utc>`, and `None` outside it. Trusted.
#[verifier::external_body]
fn utc_timestamp(secs: i64, nanos: u32) -> (res: Option<i64>)
    requires
        nanos < 1_000_000_000,
    ensures
        res == (if MIN_UTC_TIMESTAMP <= secs && secs <= MAX_UTC_TIMESTAMP {
            Some(secs)
        } else {
            None::<i64>
        }),
{
    match chrono::DateTime::from_timestamp(secs, nanos) {
        Some(time) => Some(time.timestamp()),
        None => None,
    }
}

/// The current Unix time in whole seconds, as `chrono::Utc::now()` reads
/// it: `None` where that panics, that is when the clock reads earlier than
/// 1970 or later than the latest time `chrono` represents.
pub fn unix_now() -> (t: Option<i64>)
    ensures
        t matches Some(v) ==> 0 <= v && v <= MAX_UTC_TIMESTAMP,
{
    match since_epoch() {
        Some((secs, nanos)) => {
            if secs > 9223372036854775807u64 {
                None
            } else {
                utc_timestamp(secs as i64, nanos)
            }
        },
        None => None,
    }
}

} // verus!
