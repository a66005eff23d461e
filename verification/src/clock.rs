//! Time in clock ticks, a million per second.

use vstd::prelude::*;

verus! {

/// `embassy_time::Duration::as_millis`, of the duration that `from_ticks` makes of `ticks`: whole
/// milliseconds, rounded down. The crate counts a million ticks per second.
#[verifier::external_body]
fn ticks_to_millis(ticks: u64) -> (ms: u64)
    ensures
        ms == ticks / 1000,
{
    embassy_time::Duration::from_ticks(ticks).as_millis()
}

/// `embassy_time::Duration::as_micros`, of the duration that `from_ticks` makes of `ticks`. The
/// crate counts a million ticks per second, so that a tick is a microsecond.
#[verifier::external_body]
fn ticks_to_micros(ticks: u64) -> (us: u64)
    ensures
        us == ticks,
{
    embassy_time::Duration::from_ticks(ticks).as_micros()
}

/// Whole milliseconds from `earlier` to `later`.
pub fn millis_between(earlier: u64, later: u64) -> (ms: u64)
    requires
        earlier <= later,
    ensures
        ms == (later - earlier) / 1000,
{
    ticks_to_millis(later - earlier)
}

/// Microseconds from `earlier` to `later`.
pub fn micros_between(earlier: u64, later: u64) -> (us: u64)
    requires
        earlier <= later,
    ensures
        us == later - earlier,
{
    ticks_to_micros(later - earlier)
}

} // verus!
