//! A point in time from which elapsed nanoseconds are measured.

use std::time::{Duration, Instant};
use vstd::prelude::*;

verus! {

/// A point in monotonic time. Opaque: nothing about it is modelled.
#[verifier::external_type_specification]
#[verifier::external_body]
pub struct ExInstant(Instant);

/// Calls `std::time::Instant::now`. The result depends on the clock, so
/// nothing is claimed of it.
#[verifier::external_body]
fn instant_now() -> Instant {
    Instant::now()
}

/// Calls `std::time::Instant::elapsed`. The result depends on the clock, so
/// nothing is claimed of it.
#[verifier::external_body]
fn instant_elapsed(t: &Instant) -> Duration {
    t.elapsed()
}

/// Calls `std::time::Duration::as_secs`: the whole seconds of the duration.
/// The duration is opaque, so nothing is claimed of the result.
#[verifier::external_body]
fn duration_secs(d: &Duration) -> u64 {
    d.as_secs()
}

/// Calls `std::time::Duration::subsec_nanos`: the fractional part of the
/// duration in nanoseconds, which its documentation says is always less than
/// one billion.
#[verifier::external_body]
fn duration_subsec_nanos(d: &Duration) -> (res: u32)
    ensures
        res < 1_000_000_000,
{
    d.subsec_nanos()
}

/// `secs` seconds and `nanos` nanoseconds in nanoseconds, or `u64::MAX`
/// when that does not fit in a `u64`.
pub open spec fn spec_total_nanos(secs: u64, nanos: u32) -> u64 {
    let total = secs * 1_000_000_000 + nanos;
    if total <= u64::MAX {
        total as u64
    } else {
        u64::MAX
    }
}

/// `secs` seconds and `nanos` nanoseconds in nanoseconds, saturating at
/// `u64::MAX` (reached after some 584 years).
pub fn total_nanos(secs: u64, nanos: u32) -> (res: u64)
    ensures
        res == spec_total_nanos(secs, nanos),
{
    if secs > (u64::MAX - nanos as u64) / 1_000_000_000 {
        proof {
            assert(secs * 1_000_000_000 + nanos > u64::MAX) by (nonlinear_arith)
                requires
                    secs > (u64::MAX - nanos) / 1_000_000_000,
            ;
        }
        u64::MAX
    } else {
        proof {
            assert(secs * 1_000_000_000 + nanos <= u64::MAX) by (nonlinear_arith)
                requires
                    secs <= (u64::MAX - nanos) / 1_000_000_000,
            ;
        }
        secs * 1_000_000_000 + nanos as u64
    }
}

/// A point in time.
#[derive(Clone, Copy)]
pub struct Tick {
    time: Instant,
}

impl Tick {
    /// The current point in time.
    pub fn new() -> Tick {
        Tick { time: instant_now() }
    }

    /// The nanoseconds elapsed since this point in time, saturating at
    /// `u64::MAX`: `total_nanos` of the whole seconds and the fractional
    /// nanoseconds that the clock reports. The clock reading is not modelled,
    /// so nothing is claimed of the result.
    pub fn elapsed_ns(&self) -> u64 {
        let ela = instant_elapsed(&self.time);
        let secs = duration_secs(&ela);
        let nanos = duration_subsec_nanos(&ela);
        total_nanos(secs, nanos)
    }
}

} // verus!
