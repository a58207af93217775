//! The wall clock, seen through std's `SystemTime`.
//!
//! What the clock reads depends on the moment of the call, so nothing is
//! named about the values it returns beyond what std documents of every
//! outcome.

use std::time::{Duration, SystemTime};
use vstd::prelude::*;

verus! {

/// std's wall-clock instant, carried through opaquely.
#[verifier::external_type_specification]
#[verifier::external_body]
pub struct ExSystemTime(SystemTime);

/// Calls `SystemTime::now`. Nothing is claimed of the instant it returns.
#[verifier::external_body]
pub(crate) fn system_now() -> SystemTime {
    SystemTime::now()
}

/// Calls `SystemTime::duration_since` against `UNIX_EPOCH`; `None` when the
/// instant lies before the epoch. Nothing is claimed of the duration.
#[verifier::external_body]
pub(crate) fn since_unix_epoch(t: SystemTime) -> Option<Duration> {
    t.duration_since(SystemTime::UNIX_EPOCH).ok()
}

/// Calls `Duration::as_secs`: the whole seconds of the duration.
#[verifier::external_body]
pub(crate) fn duration_secs(d: &Duration) -> u64 {
    d.as_secs()
}

/// Calls `Duration::subsec_nanos`, which std documents as always below one
/// billion.
#[verifier::external_body]
pub(crate) fn duration_subsec_nanos(d: &Duration) -> (n: u32)
    ensures
        n < 1_000_000_000,
{
    d.subsec_nanos()
}

/// What `Duration::from_millis` returns for a number of milliseconds.
pub uninterp spec fn duration_of_millis(ms: u64) -> Duration;

/// Calls `Duration::from_millis`; the contract names the duration
/// `duration_of_millis(ms)`.
#[verifier::external_body]
pub(crate) fn duration_from_millis(ms: u64) -> (d: Duration)
    ensures
        d == duration_of_millis(ms),
{
    Duration::from_millis(ms)
}

/// Calls `Duration::new`, which carries whole seconds out of `nanos`. std
/// documents a panic only when that carry overflows the seconds, which
/// `requires` leaves out. Nothing is claimed of the value beyond its type:
/// `Duration` is opaque here.
#[verifier::external_body]
pub(crate) fn duration_new(secs: u64, nanos: u32) -> Duration
    requires
        secs + nanos / 1_000_000_000 <= u64::MAX,
{
    Duration::new(secs, nanos)
}

/// Calls `SystemTime::checked_add` on `UNIX_EPOCH`: `None` where the
/// platform cannot represent the instant. Which instants it can represent
/// std leaves to the platform, so nothing is claimed of the outcome.
#[verifier::external_body]
pub(crate) fn epoch_checked_add(d: Duration) -> Option<SystemTime> {
    SystemTime::UNIX_EPOCH.checked_add(d)
}

/// Renders an instant with std's `Debug` for `SystemTime`. The text differs
/// between platforms, so nothing is claimed of it.
#[verifier::external_body]
pub(crate) fn system_time_debug_text(t: &SystemTime) -> String {
    format!("{:?}", t)
}

} // verus!
