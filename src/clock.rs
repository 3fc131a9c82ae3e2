//! Sources of the current time.
use vstd::prelude::*;
use std::time::{Duration, Instant};

verus! {

/// A source of the current time, in nanoseconds on the clock's own scale.
pub trait Clock {
    /// The current time.
    fn now(&self) -> u64;
}

#[verifier::external_type_specification]
#[verifier::external_body]
pub struct ExInstant(Instant);

/// Relies on `Instant::now`: a reading of the monotonic system clock.
#[verifier::external_body]
fn instant_now() -> Instant {
    Instant::now()
}

/// Relies on `Instant::elapsed`: the time passed since `origin`.
#[verifier::external_body]
fn elapsed_since(origin: &Instant) -> Duration {
    origin.elapsed()
}

/// Relies on `Duration::as_nanos`: the whole nanoseconds of `d`.
#[verifier::external_body]
fn whole_nanos(d: &Duration) -> u128 {
    d.as_nanos()
}

/// The system's monotonic clock, counted from the moment the clock was made.
pub struct DefaultClock {
    origin: Instant,
}

impl Default for DefaultClock {
    fn default() -> (r: DefaultClock)
        ensures
            true,
    {
        DefaultClock { origin: instant_now() }
    }
}

impl Clock for DefaultClock {
    fn now(&self) -> u64 {
        let nanos = whole_nanos(&elapsed_since(&self.origin));
        if nanos > u64::MAX as u128 {
            u64::MAX
        } else {
            nanos as u64
        }
    }
}

} // verus!
