//! Durations, points in time, and the clocks that produce them.

use vstd::prelude::*;

verus! {

/// Nanoseconds in one second.
pub const NANOS_PER_SEC: u128 = 1_000_000_000;

/// Nanoseconds in one millisecond.
pub const NANOS_PER_MILLI: u128 = 1_000_000;

/// A non-negative span of time, held as a whole number of nanoseconds.
#[derive(Clone, Copy, Debug, PartialEq, Eq, Structural, PartialOrd, Ord, Hash)]
pub struct Duration {
    nanos: u128,
}

impl View for Duration {
    type V = nat;

    /// The span in nanoseconds.
    closed spec fn view(&self) -> nat {
        self.nanos as nat
    }
}

impl Duration {
    /// The span of `secs` seconds and `nanos` nanoseconds; `nanos` may exceed
    /// one second.
    pub fn new(secs: u64, nanos: u32) -> (r: Duration)
        ensures
            r@ == secs * NANOS_PER_SEC + nanos,
    {
        Duration { nanos: secs as u128 * NANOS_PER_SEC + nanos as u128 }
    }

    /// The span of `secs` whole seconds.
    pub fn from_secs(secs: u64) -> (r: Duration)
        ensures
            r@ == secs * NANOS_PER_SEC,
    {
        Duration { nanos: secs as u128 * NANOS_PER_SEC }
    }

    /// The span of `millis` milliseconds.
    pub fn from_millis(millis: u64) -> (r: Duration)
        ensures
            r@ == millis * NANOS_PER_MILLI,
    {
        Duration { nanos: millis as u128 * NANOS_PER_MILLI }
    }

    /// The span of `nanos` nanoseconds.
    pub fn from_nanos(nanos: u128) -> (r: Duration)
        ensures
            r@ == nanos,
    {
        Duration { nanos }
    }

    /// The span in nanoseconds.
    pub fn as_nanos(&self) -> (r: u128)
        ensures
            r == self@,
    {
        self.nanos
    }

    /// The number of whole seconds in the span.
    pub fn as_secs(&self) -> (r: u128)
        ensures
            r == self@ / NANOS_PER_SEC as nat,
    {
        self.nanos / NANOS_PER_SEC
    }

    /// The whole milliseconds in the part of the span below one second.
    pub fn subsec_millis(&self) -> (r: u32)
        ensures
            r == (self@ % NANOS_PER_SEC as nat) / NANOS_PER_MILLI as nat,
            r < 1000,
    {
        let below_second = self.nanos % NANOS_PER_SEC;
        assert(below_second / NANOS_PER_MILLI < 1000) by (nonlinear_arith)
            requires
                below_second < NANOS_PER_SEC,
        ;
        (below_second / NANOS_PER_MILLI) as u32
    }

    /// Whether the span is empty.
    pub fn is_zero(&self) -> (r: bool)
        ensures
            r == (self@ == 0),
    {
        self.nanos == 0
    }

    /// The sum of two spans, held at the largest representable span when it
    /// would not fit.
    pub fn saturating_add(self, other: Duration) -> (r: Duration)
        ensures
            r@ == saturated_sum(self@, other@),
    {
        Duration { nanos: self.nanos.saturating_add(other.nanos) }
    }

    /// `self` less `other`, or an empty span when `other` is the longer one.
    pub fn saturating_sub(self, other: Duration) -> (r: Duration)
        ensures
            r@ == clamped_difference(self@, other@),
    {
        Duration { nanos: self.nanos.saturating_sub(other.nanos) }
    }
}

impl Default for Duration {
    /// The empty span.
    fn default() -> (r: Duration)
        ensures
            r@ == 0,
    {
        Duration { nanos: 0 }
    }
}

/// The largest span or point in time that can be held, in nanoseconds.
pub open spec fn max_nanos() -> nat {
    u128::MAX as nat
}

/// `a + b`, held at `max_nanos()` when it would exceed it.
pub open spec fn saturated_sum(a: nat, b: nat) -> nat {
    if a + b > max_nanos() {
        max_nanos()
    } else {
        a + b
    }
}

/// `a - b`, or zero when `b` is the larger.
pub open spec fn clamped_difference(a: nat, b: nat) -> nat {
    if a >= b {
        (a - b) as nat
    } else {
        0
    }
}

/// Every span fits the nanosecond counter.
pub broadcast proof fn lemma_duration_fits(d: Duration)
    ensures
        #[trigger] d.view() <= max_nanos(),
{
}

/// Every point in time fits the nanosecond counter.
pub broadcast proof fn lemma_instant_fits(t: Instant)
    ensures
        #[trigger] t.view() <= max_nanos(),
{
}

/// A point in time, held as the nanoseconds since the origin of the clock
/// that produced it.
#[derive(Clone, Copy, Debug, PartialEq, Eq, Structural, PartialOrd, Ord, Hash)]
pub struct Instant {
    nanos: u128,
}

impl View for Instant {
    type V = nat;

    /// The nanoseconds since the clock's origin.
    closed spec fn view(&self) -> nat {
        self.nanos as nat
    }
}

impl Instant {
    /// The point that lies `since_origin` after the clock's origin.
    pub fn from_nanos(since_origin: u128) -> (r: Instant)
        ensures
            r@ == since_origin,
    {
        Instant { nanos: since_origin }
    }

    /// The point that lies the span `since_origin` after the clock's origin.
    pub fn after_origin(since_origin: Duration) -> (r: Instant)
        ensures
            r@ == since_origin@,
    {
        Instant { nanos: since_origin.as_nanos() }
    }

    /// The current reading of the system's wall clock, whose origin is the
    /// Unix epoch. A clock that reads earlier than the epoch is read as the
    /// epoch itself. Two readings need not be ordered: the wall clock may be
    /// set back between them.
    pub fn now() -> (r: Instant) {
        match system_clock_nanos() {
            Some(nanos) => Instant { nanos },
            None => Instant { nanos: 0 },
        }
    }

    /// The span from `earlier` to `self`, or `None` when `earlier` lies after
    /// `self`.
    pub fn checked_duration_since(&self, earlier: Instant) -> (r: Option<Duration>)
        ensures
            r is Some <==> earlier@ <= self@,
            r matches Some(d) ==> d@ == self@ - earlier@,
    {
        if earlier.nanos <= self.nanos {
            Some(Duration::from_nanos(self.nanos - earlier.nanos))
        } else {
            None
        }
    }

    /// The span from `earlier` to `self`, or an empty span when `earlier`
    /// lies after `self`.
    pub fn saturating_duration_since(&self, earlier: Instant) -> (r: Duration)
        ensures
            r@ == clamped_difference(self@, earlier@),
    {
        Duration::from_nanos(self.nanos.saturating_sub(earlier.nanos))
    }

    /// The point that lies `d` after `self`, held at the last representable
    /// point when it would not fit.
    pub fn saturating_add(&self, d: Duration) -> (r: Instant)
        ensures
            r@ == saturated_sum(self@, d@),
    {
        Instant { nanos: self.nanos.saturating_add(d.as_nanos()) }
    }
}

/// Relies on std's `SystemTime::elapsed`, called on `UNIX_EPOCH`: how far the
/// system clock now reads past the epoch, converted to whole nanoseconds by
/// `Duration::as_nanos`; `None` where it reads earlier than the epoch.
#[verifier::external_body]
fn system_clock_nanos() -> (r: Option<u128>) {
    match std::time::UNIX_EPOCH.elapsed() {
        Ok(d) => Some(d.as_nanos()),
        Err(_) => None,
    }
}

#[verifier::external_type_specification]
#[verifier::external_body]
pub struct ExStdInstant(std::time::Instant);

/// Relies on std's `Instant::now`: a reading of the system's monotonic
/// clock. Nothing is stated of its value.
pub assume_specification[ std::time::Instant::now ]() -> std::time::Instant;

/// Relies on std's `Instant::elapsed`: the time since `origin` on the
/// monotonic clock, converted to whole nanoseconds by `Duration::as_nanos`.
#[verifier::external_body]
fn nanos_since(origin: &std::time::Instant) -> (r: u128) {
    origin.elapsed().as_nanos()
}

/// A monotonic clock whose origin is the moment it was made. Its readings
/// do not go back; the code that uses them does not rely on that.
#[derive(Debug)]
pub struct MonotonicClock {
    origin: std::time::Instant,
}

impl MonotonicClock {
    /// A clock whose origin is now.
    pub fn new() -> (r: MonotonicClock) {
        MonotonicClock { origin: std::time::Instant::now() }
    }

    /// The time since the clock was made.
    pub fn read(&self) -> (r: Instant) {
        Instant { nanos: nanos_since(&self.origin) }
    }
}

} // verus!
