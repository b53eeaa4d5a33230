//! The wall clock.

use vstd::prelude::*;

use std::time::{Duration, SystemTime, SystemTimeError};

verus! {

#[verifier::external_type_specification]
#[verifier::external_body]
pub struct ExSystemTime(std::time::SystemTime);

#[verifier::external_type_specification]
#[verifier::external_body]
pub struct ExSystemTimeError(std::time::SystemTimeError);

/// `std::time::SystemTime::now`: the wall clock's reading, of which nothing is claimed.
#[verifier::external_body]
fn system_now() -> SystemTime {
    SystemTime::now()
}

/// `SystemTime::duration_since(UNIX_EPOCH)`: the time elapsed since the Unix epoch, or an
/// error when the reading lies before it. Nothing is claimed of the value.
#[verifier::external_body]
fn since_unix_epoch(t: &SystemTime) -> Result<Duration, SystemTimeError> {
    t.duration_since(std::time::UNIX_EPOCH)
}

/// `Duration::as_secs`: the whole seconds of a duration. The duration is opaque here, so
/// nothing is claimed of the value.
#[verifier::external_body]
fn duration_secs(d: &Duration) -> u64 {
    d.as_secs()
}

/// `Duration::subsec_nanos`: the nanoseconds beyond the whole seconds, which std documents
/// as always below one billion.
#[verifier::external_body]
fn duration_subsec_nanos(d: &Duration) -> (r: u32)
    ensures
        r < NANOS_PER_SEC,
{
    d.subsec_nanos()
}

/// Nanoseconds in a second.
pub const NANOS_PER_SEC: u32 = 1_000_000_000u32;

/// Microseconds in a second.
pub const MICROS_PER_SEC: u128 = 1_000_000u128;

/// Nanoseconds in a microsecond.
pub const NANOS_PER_MICRO: u32 = 1_000u32;

/// The whole microseconds of a duration of `secs` seconds and `nanos` nanoseconds.
pub open spec fn whole_micros(secs: u64, nanos: u32) -> int {
    secs * MICROS_PER_SEC + nanos / NANOS_PER_MICRO
}

/// The whole microseconds of a duration of `secs` seconds and `nanos` nanoseconds, as
/// `Duration::as_micros` counts them.
pub fn micros_since_epoch(secs: u64, nanos: u32) -> (r: u128)
    ensures
        r == whole_micros(secs, nanos),
{
    let s: u128 = secs as u128;
    assert(s * MICROS_PER_SEC <= 18_446_744_073_709_551_615u128 * 1_000_000u128) by (nonlinear_arith)
        requires
            s <= 18_446_744_073_709_551_615u128,
    ;
    s * MICROS_PER_SEC + (nanos / NANOS_PER_MICRO) as u128
}

/// Microseconds since the Unix epoch, by the wall clock: the whole seconds elapsed times a
/// million, plus the whole microseconds of the fraction. `None` when the clock reads a time
/// before the epoch.
pub fn current_time() -> (r: Option<u128>)
    ensures
        r matches Some(m) ==> exists|secs: u64, nanos: u32|
            nanos < NANOS_PER_SEC && m == whole_micros(secs, nanos),
{
    let now = system_now();
    match since_unix_epoch(&now) {
        Ok(elapsed) => {
            let secs = duration_secs(&elapsed);
            let nanos = duration_subsec_nanos(&elapsed);
            Some(micros_since_epoch(secs, nanos))
        },
        Err(_) => None,
    }
}

/// The microsecond count keeps both parts of the duration: divided by a million it gives
/// back the whole seconds, and its remainder is the microseconds of the fraction.
pub proof fn lemma_micros_keep_seconds_and_fraction(secs: u64, nanos: u32)
    requires
        nanos < NANOS_PER_SEC,
    ensures
        whole_micros(secs, nanos) / 1_000_000 == secs,
        whole_micros(secs, nanos) % 1_000_000 == nanos / 1000,
{
    let f = nanos / 1000;
    assert(0 <= f < 1_000_000);
    vstd::arithmetic::div_mod::lemma_fundamental_div_mod_converse(
        whole_micros(secs, nanos),
        1_000_000,
        secs as int,
        f as int,
    );
}

} // verus!
