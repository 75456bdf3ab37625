//! The wall clock, as whole milliseconds and microseconds since 1970.

use vstd::prelude::*;

verus! {

/// Milliseconds that lie in `secs` seconds and `nanos` nanoseconds, cut to 64 bits.
pub open spec fn millis_of(secs: u64, nanos: u32) -> u64 {
    ((secs as int * 1000 + nanos as int / 1_000_000) % 0x1_0000_0000_0000_0000) as u64
}

/// Microseconds that lie in `secs` seconds and `nanos` nanoseconds, cut to 64 bits.
pub open spec fn micros_of(secs: u64, nanos: u32) -> u64 {
    ((secs as int * 1_000_000 + nanos as int / 1000) % 0x1_0000_0000_0000_0000) as u64
}

/// Reads the system clock through `std::time::SystemTime::elapsed` on
/// `UNIX_EPOCH` and hands back the whole seconds and the nanoseconds within
/// the running second. `None` stands for a clock that is set before 1970.
/// The nanoseconds of a `Duration` stay under one second.
#[verifier::external_body]
fn since_unix_epoch() -> (r: Option<(u64, u32)>)
    ensures
        r matches Some(t) ==> t.1 < 1_000_000_000,
{
    match std::time::UNIX_EPOCH.elapsed() {
        Ok(d) => Some((d.as_secs(), d.subsec_nanos())),
        Err(_) => None,
    }
}

/// Turns a clock reading into milliseconds, wrapping at 64 bits.
pub fn millis_from(secs: u64, nanos: u32) -> (r: u64)
    ensures
        r == millis_of(secs, nanos),
{
    let whole: u128 = (secs as u128) * 1000 + ((nanos / 1_000_000) as u128);
    let low: u128 = whole % 0x1_0000_0000_0000_0000u128;
    low as u64
}

/// Turns a clock reading into microseconds, wrapping at 64 bits.
pub fn micros_from(secs: u64, nanos: u32) -> (r: u64)
    ensures
        r == micros_of(secs, nanos),
{
    let whole: u128 = (secs as u128) * 1_000_000 + ((nanos / 1000) as u128);
    let low: u128 = whole % 0x1_0000_0000_0000_0000u128;
    low as u64
}

/// The current time in milliseconds since 1970. A clock set before 1970 reads
/// as 0. No more can be said of the value than that it is a reading of a
/// clock: it is whatever the clock shows.
pub fn epoch() -> (now: u64)
    ensures
        exists|secs: u64, nanos: u32|
            nanos < 1_000_000_000 && now == #[trigger] millis_of(secs, nanos),
{
    match since_unix_epoch() {
        Some((secs, nanos)) => millis_from(secs, nanos),
        None => {
            assert(millis_of(0, 0) == 0);
            0
        },
    }
}

/// The current time in microseconds since 1970. A clock set before 1970 reads as 0.
pub fn epoch_us() -> (now: u64)
    ensures
        exists|secs: u64, nanos: u32|
            nanos < 1_000_000_000 && now == #[trigger] micros_of(secs, nanos),
{
    match since_unix_epoch() {
        Some((secs, nanos)) => micros_from(secs, nanos),
        None => {
            assert(micros_of(0, 0) == 0);
            0
        },
    }
}

} // verus!
