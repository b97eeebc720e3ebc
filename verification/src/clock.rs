//! The monotonic clock, in milliseconds.

use vstd::prelude::*;

verus! {

/// `std::time::Instant`: a moment of the monotonic clock.  A value of it is
/// carried through as it is; nothing is known of what it holds.
#[verifier::external_type_specification]
#[verifier::external_body]
pub struct ExInstant(std::time::Instant);

/// `std::time::Instant::now`: the present moment of the monotonic clock.
/// Nothing is claimed of the value.
#[verifier::external_body]
fn instant_now() -> std::time::Instant {
    std::time::Instant::now()
}

/// `std::time::Instant::elapsed`, in whole milliseconds: the time that has
/// passed since `origin`.  Nothing is claimed of the value: it differs from
/// call to call.
#[verifier::external_body]
fn millis_since(origin: &std::time::Instant) -> u64 {
    origin.elapsed().as_millis() as u64
}

/// `std::time::SystemTime::elapsed` of the Unix epoch, in whole seconds:
/// the time of day; `None` where the system's clock stands before the
/// epoch.  Nothing is claimed of the value.
#[verifier::external_body]
fn seconds_since_epoch() -> Option<u64> {
    std::time::UNIX_EPOCH.elapsed().ok().map(|d| d.as_secs())
}

/// The time of day, in seconds since the Unix epoch; `None` where the
/// system's clock stands before the epoch.
pub fn unix_seconds() -> Option<u64> {
    seconds_since_epoch()
}

/// A monotonic clock that counts milliseconds from the moment it was made.
pub struct Clock {
    origin: std::time::Instant,
}

impl Clock {
    /// A clock that starts now.
    pub fn new() -> Clock {
        Clock { origin: instant_now() }
    }

    /// Milliseconds since the clock was made.
    pub fn now(&self) -> u64 {
        millis_since(&self.origin)
    }
}

} // verus!
