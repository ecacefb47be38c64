//! Plain-valued durations and instants used by the timer.
//!
//! A `Duration` is a count of nanoseconds bounded like `std::time::Duration`
//! (at most `u64::MAX` seconds plus 999 999 999 nanoseconds).  An `Instant`
//! is a point on the clock, measured in nanoseconds since the Unix epoch;
//! both [`Instant::now`] and a [`MonotonicClock`] give instants on that
//! timeline, so they can be compared with each other.
use vstd::prelude::*;

verus! {

/// Nanoseconds in one second.
pub const NANOS_PER_SEC: u128 = 1_000_000_000;

/// Largest representable span in nanoseconds: `u64::MAX` seconds plus
/// 999 999 999 nanoseconds.
pub const MAX_NANOS: u128 = 18_446_744_073_709_551_615_999_999_999;

/// A span of time with nanosecond resolution.
#[derive(Clone, Copy, Debug, PartialEq, Eq, Structural, Hash)]
pub struct Duration {
    nanos: u128,
}

impl Duration {
    #[verifier::type_invariant]
    pub closed spec fn bounded(self) -> bool {
        self.nanos <= MAX_NANOS
    }
}

impl View for Duration {
    type V = nat;

    /// The span in nanoseconds.
    closed spec fn view(&self) -> nat {
        self.nanos as nat
    }
}

impl Duration {
    /// The empty span.
    pub fn zero() -> (r: Duration)
        ensures
            r@ == 0,
    {
        Duration { nanos: 0 }
    }

    /// A span of `secs` whole seconds.
    pub fn from_secs(secs: u64) -> (r: Duration)
        ensures
            r@ == secs * 1_000_000_000,
    {
        Duration { nanos: secs as u128 * NANOS_PER_SEC }
    }

    /// A span of `millis` milliseconds.
    pub fn from_millis(millis: u64) -> (r: Duration)
        ensures
            r@ == millis * 1_000_000,
    {
        Duration { nanos: millis as u128 * 1_000_000 }
    }

    /// A span of `nanos` nanoseconds.
    pub fn from_nanos(nanos: u64) -> (r: Duration)
        ensures
            r@ == nanos,
    {
        Duration { nanos: nanos as u128 }
    }

    /// Whether the span is empty.
    pub fn is_zero(&self) -> (r: bool)
        ensures
            r == (self@ == 0),
    {
        self.nanos == 0
    }

    /// Whole seconds in the span (the fraction is dropped).
    pub fn as_secs(&self) -> (r: u64)
        ensures
            r == self@ / 1_000_000_000,
    {
        proof {
            use_type_invariant(self);
        }
        (self.nanos / NANOS_PER_SEC) as u64
    }

    /// Total nanoseconds in the span.
    pub fn as_nanos(&self) -> (r: u128)
        ensures
            r == self@,
    {
        self.nanos
    }

    /// `self - other`, or the empty span when `other` is longer.
    pub fn saturating_sub(self, other: Duration) -> (r: Duration)
        ensures
            r@ == if self@ >= other@ { self@ - other@ } else { 0 },
    {
        proof {
            use_type_invariant(&self);
        }
        if self.nanos >= other.nanos {
            Duration { nanos: self.nanos - other.nanos }
        } else {
            Duration { nanos: 0 }
        }
    }

    /// `self + other`, or `None` when the sum is not representable.
    pub fn checked_add(self, other: Duration) -> (r: Option<Duration>)
        ensures
            match r {
                Some(d) => d@ == self@ + other@,
                None => self@ + other@ > MAX_NANOS,
            },
    {
        proof {
            use_type_invariant(&self);
            use_type_invariant(&other);
        }
        let sum = self.nanos + other.nanos;
        if sum <= MAX_NANOS {
            Some(Duration { nanos: sum })
        } else {
            None
        }
    }
}

/// A point on the clock, in nanoseconds since the Unix epoch.
#[derive(Clone, Copy, Debug, PartialEq, Eq, Structural, Hash)]
pub struct Instant {
    nanos: u128,
}

impl Instant {
    #[verifier::type_invariant]
    pub closed spec fn bounded(self) -> bool {
        self.nanos <= MAX_NANOS
    }
}

impl View for Instant {
    type V = nat;

    /// Nanoseconds since the Unix epoch.
    closed spec fn view(&self) -> nat {
        self.nanos as nat
    }
}

/// The instant that lies `nanos` nanoseconds after the Unix epoch.
pub closed spec fn instant_at(nanos: nat) -> Instant {
    Instant { nanos: nanos as u128 }
}

/// `instant_at` names the instant of the given offset.
pub broadcast proof fn lemma_instant_at(nanos: nat)
    requires
        nanos <= MAX_NANOS,
    ensures
        #[trigger] instant_at(nanos)@ == nanos,
{
}

impl Instant {
    /// The instant `offset` after the Unix epoch.
    pub fn from_unix(offset: Duration) -> (r: Instant)
        ensures
            r@ == offset@,
    {
        proof {
            use_type_invariant(&offset);
        }
        Instant { nanos: offset.nanos }
    }

    /// The span from the Unix epoch to this instant.
    pub fn since_unix_epoch(&self) -> (r: Duration)
        ensures
            r@ == self@,
    {
        proof {
            use_type_invariant(self);
        }
        Duration { nanos: self.nanos }
    }

    /// The span from `earlier` to `self`, or the empty span when `earlier`
    /// is later than `self`.
    pub fn saturating_duration_since(&self, earlier: Instant) -> (r: Duration)
        ensures
            r@ == if self@ >= earlier@ { self@ - earlier@ } else { 0 },
    {
        proof {
            use_type_invariant(self);
        }
        if self.nanos >= earlier.nanos {
            Duration { nanos: self.nanos - earlier.nanos }
        } else {
            Duration { nanos: 0 }
        }
    }
}

impl core::ops::Add<Duration> for Instant {
    type Output = Instant;

    fn add(self, rhs: Duration) -> (r: Instant) {
        proof {
            use_type_invariant(&self);
            use_type_invariant(&rhs);
        }
        Instant { nanos: self.nanos + rhs.nanos }
    }
}

impl vstd::std_specs::ops::AddSpecImpl<Duration> for Instant {
    open spec fn obeys_add_spec() -> bool {
        true
    }

    open spec fn add_req(self, rhs: Duration) -> bool {
        self@ + rhs@ <= MAX_NANOS
    }

    open spec fn add_spec(self, rhs: Duration) -> Instant {
        instant_at(self@ + rhs@)
    }
}

// ---------------------------------------------------------------------------
// Reading the system clock
// ---------------------------------------------------------------------------

/// Makes `std::time::SystemTime` known to the verifier as an opaque value,
/// carried from the clock reading to the computation of its offset.
#[verifier::external_type_specification]
#[verifier::external_body]
pub struct ExSystemTime(std::time::SystemTime);

/// Reads the system clock with `std::time::SystemTime::now`.  Nothing is
/// promised of the reading: it depends on when the call happens.
#[verifier::external_body]
fn system_time_now() -> std::time::SystemTime {
    std::time::SystemTime::now()
}

/// The span from the Unix epoch to `time`, computed by
/// `SystemTime::duration_since(UNIX_EPOCH)`; `None` when `time` lies before
/// the epoch.  The span itself is left unstated: it is a clock reading.
#[verifier::external_body]
fn unix_offset(time: &std::time::SystemTime) -> Option<std::time::Duration> {
    match time.duration_since(std::time::UNIX_EPOCH) {
        Ok(span) => Some(span),
        Err(_) => None,
    }
}

/// The nanoseconds of a std span (`std::time::Duration::as_nanos`), as the
/// library's `Duration`.  Left unstated, since the std span is opaque here;
/// the result is assumed to respect the bound of [`Duration`], which holds
/// for every `std::time::Duration`.
#[verifier::external_body]
fn from_std_duration(span: &std::time::Duration) -> Duration {
    Duration { nanos: span.as_nanos() }
}

impl Instant {
    /// The current time of the system clock; the Unix epoch itself when the
    /// clock reads earlier than the epoch.
    pub fn now() -> (r: Instant) {
        match unix_offset(&system_time_now()) {
            Some(span) => Instant::from_unix(from_std_duration(&span)),
            None => Instant { nanos: 0 },
        }
    }
}

// ---------------------------------------------------------------------------
// Reading the monotonic clock
// ---------------------------------------------------------------------------

/// Makes `std::time::Instant` known to the verifier as an opaque value: the
/// monotonic reading that a [`MonotonicClock`] measures from.
#[verifier::external_type_specification]
#[verifier::external_body]
pub struct ExStdInstant(std::time::Instant);

/// Reads the monotonic clock with `std::time::Instant::now`.  Nothing is
/// promised of the reading: it depends on when the call happens.
#[verifier::external_body]
fn monotonic_now() -> std::time::Instant {
    std::time::Instant::now()
}

/// The time passed since `origin`, measured by `std::time::Instant::elapsed`
/// on the monotonic clock.  Left unstated: it is a clock reading.
#[verifier::external_body]
fn elapsed_since(origin: &std::time::Instant) -> std::time::Duration {
    origin.elapsed()
}

/// A clock that never goes back.  It reads the system clock once, when it
/// is started, and from then on adds the time measured by the monotonic
/// clock: its instants lie on the same Unix-epoch timeline as
/// [`Instant::now`] at the start, but a later change to the system clock
/// neither moves them back nor makes them jump.
#[derive(Clone, Copy, Debug)]
pub struct MonotonicClock {
    origin: std::time::Instant,
    anchor: Instant,
}

impl MonotonicClock {
    /// A clock that starts counting now, from the system clock's reading.
    pub fn start() -> (r: MonotonicClock) {
        MonotonicClock { origin: monotonic_now(), anchor: Instant::now() }
    }

    /// The instant the clock was started at.
    pub closed spec fn anchor(&self) -> Instant {
        self.anchor
    }

    /// The starting instant plus the time passed since then, saturating at
    /// the largest representable instant.  It never lies before the start.
    pub fn now(&self) -> (r: Instant)
        ensures
            r@ >= self.anchor()@,
    {
        proof {
            use_type_invariant(&self.anchor);
        }
        let passed = from_std_duration(&elapsed_since(&self.origin));
        match self.anchor.since_unix_epoch().checked_add(passed) {
            Some(offset) => Instant::from_unix(offset),
            None => Instant::from_unix(Duration { nanos: MAX_NANOS }),
        }
    }
}

} // verus!
