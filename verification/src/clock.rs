//! Wall-clock time stamps of the bridge's messages.

use vstd::prelude::*;

verus! {

#[verifier::external_type_specification]
#[verifier::external_body]
pub struct ExSystemTime(std::time::SystemTime);

/// `SystemTime::now`: a reading of the system clock; nothing is said of it.
#[verifier::external_body]
fn system_time_now() -> std::time::SystemTime {
    std::time::SystemTime::now()
}

/// `SystemTime::duration_since`, taken against `UNIX_EPOCH`: the time since
/// the epoch, or none where the reading lies before the epoch. Which of the two
/// comes back, and the duration, depend on the reading and are not stated.
#[verifier::external_body]
fn duration_since_unix_epoch(t: &std::time::SystemTime) -> Option<std::time::Duration> {
    t.duration_since(std::time::UNIX_EPOCH).ok()
}

/// `Duration::as_millis`: the whole milliseconds of a duration. A duration
/// is opaque here, so nothing is stated of the number.
#[verifier::external_body]
fn duration_as_millis(d: &std::time::Duration) -> u128 {
    d.as_millis()
}

/// A count of milliseconds since the epoch as a time stamp: the count taken
/// as an `i64` (modulo 2^64, as `as` converts), and 0 where the clock read
/// before the epoch.
pub fn epoch_millis(ms: Option<u128>) -> (res: i64)
    ensures
        res == (match ms {
            Some(m) => m as i64,
            None => 0i64,
        }),
{
    match ms {
        Some(m) => m as i64,
        None => 0,
    }
}

/// Milliseconds since the Unix epoch, read from the system clock (see
/// `epoch_millis`); the value depends on the clock, and nothing is stated
/// of it.
pub fn now_millis() -> i64 {
    let now = system_time_now();
    let ms = match duration_since_unix_epoch(&now) {
        Some(d) => Some(duration_as_millis(&d)),
        None => None,
    };
    epoch_millis(ms)
}

} // verus!
