//! The monotonic clock and the instants it hands out.

use vstd::prelude::*;

verus! {

#[verifier::external_type_specification]
#[verifier::external_body]
pub struct ExMonotonicInstant(std::time::Instant);

#[verifier::external_type_specification]
#[verifier::external_body]
pub struct ExSystemTime(std::time::SystemTime);

/// Calls `std::time::Instant::now`. Nothing is claimed of the reading.
#[verifier::external_body]
fn monotonic_now() -> (r: std::time::Instant) {
    std::time::Instant::now()
}

/// Calls `std::time::Instant::elapsed`. Nothing is claimed of the duration.
#[verifier::external_body]
fn elapsed_since(origin: &std::time::Instant) -> (r: core::time::Duration) {
    origin.elapsed()
}

/// Calls `std::time::SystemTime::now`. Nothing is claimed of the reading.
#[verifier::external_body]
fn wall_now() -> (r: std::time::SystemTime) {
    std::time::SystemTime::now()
}

/// Calls `std::time::SystemTime::duration_since` with the Unix epoch, and
/// gives `None` where the reading lies before the epoch. Nothing is claimed
/// of the duration.
#[verifier::external_body]
fn since_unix_epoch(reading: &std::time::SystemTime) -> (r: Option<core::time::Duration>) {
    reading.duration_since(std::time::SystemTime::UNIX_EPOCH).ok()
}

/// Calls `core::time::Duration::as_millis`. Nothing is claimed of the count.
#[verifier::external_body]
fn whole_millis(span: &core::time::Duration) -> (r: u128) {
    span.as_millis()
}

/// `raw`, or the largest 64-bit value where `raw` does not fit.
pub open spec fn clamped(raw: u128) -> u64 {
    if raw > u64::MAX {
        u64::MAX
    } else {
        raw as u64
    }
}

/// Narrows a millisecond count to 64 bits, saturating at the top.
pub fn clamp_millis(raw: u128) -> (r: u64)
    ensures
        r == clamped(raw),
{
    if raw > 0xffff_ffff_ffff_ffff {
        0xffff_ffff_ffff_ffff
    } else {
        raw as u64
    }
}

/// Milliseconds from `earlier` to `later`; zero where `later` is not later.
pub open spec fn millis_between(later: Instant, earlier: Instant) -> u64 {
    if later.millis >= earlier.millis {
        (later.millis - earlier.millis) as u64
    } else {
        0
    }
}

/// A point on a monotonic clock, in whole milliseconds since the clock
/// started.
#[derive(Clone, Copy, Debug, PartialEq, Eq, Structural)]
pub struct Instant {
    pub millis: u64,
}

impl Instant {
    /// The instant `millis` milliseconds after the clock started.
    pub fn from_millis(millis: u64) -> (r: Instant)
        ensures
            r.millis == millis,
    {
        Instant { millis }
    }

    /// Milliseconds since the clock started.
    pub fn as_millis(&self) -> (r: u64)
        ensures
            r == self.millis,
    {
        self.millis
    }

    /// Milliseconds that passed from `earlier` to `self`; zero where `self`
    /// is not later than `earlier`.
    pub fn duration_since(&self, earlier: Instant) -> (r: u64)
        ensures
            r == millis_between(*self, earlier),
    {
        if self.millis >= earlier.millis {
            self.millis - earlier.millis
        } else {
            0
        }
    }

    /// Whether `self` lies strictly after `other`.
    pub fn is_after(&self, other: Instant) -> (r: bool)
        ensures
            r == (self.millis > other.millis),
    {
        self.millis > other.millis
    }
}

/// A source of monotonic instants, counted from the moment it was started.
pub struct Clock {
    origin: std::time::Instant,
}

impl Clock {
    /// Starts a clock at the current moment.
    pub fn new() -> (r: Clock) {
        Clock { origin: monotonic_now() }
    }

    /// The current instant. Readings depend on the machine's clock, so the
    /// contract states nothing of them.
    pub fn now(&self) -> (r: Instant) {
        let span = elapsed_since(&self.origin);
        Instant::from_millis(clamp_millis(whole_millis(&span)))
    }
}

/// Milliseconds of wall-clock time since the Unix epoch, or `None` where the
/// machine's clock reads a moment before the epoch.
pub fn wall_clock_millis() -> (r: Option<u128>) {
    let reading = wall_now();
    match since_unix_epoch(&reading) {
        Some(span) => Some(whole_millis(&span)),
        None => None,
    }
}

} // verus!
