//! Spans of time, a monotonic clock and wall-clock timestamps.
//!
//! A `Duration` holds its length as a count of nanoseconds, with the same
//! range as the standard library's duration (up to `u64::MAX` seconds plus
//! 999 999 999 nanoseconds), so that stage timings, restart windows and
//! rate-limit ramps can be reasoned about as integers.
use vstd::prelude::*;

verus! {

/// The largest length a `Duration` can hold, in nanoseconds.
pub open spec fn max_duration_nanos() -> nat {
    0xFFFF_FFFF_FFFF_FFFFnat * 1_000_000_000nat + 999_999_999nat
}

/// The length of time from clock reading `since` to clock reading `now`, in
/// nanoseconds: none where `now` is not after `since`, at most the longest duration.
pub open spec fn span_since(now: u128, since: u128) -> nat {
    if now <= since {
        0
    } else if (now - since) as nat > max_duration_nanos() {
        max_duration_nanos()
    } else {
        (now - since) as nat
    }
}

/// A span of time, counted in nanoseconds.
#[derive(Debug, Clone, Copy, PartialEq, Eq, Structural, Hash, PartialOrd, Ord)]
pub struct Duration {
    nanos: u128,
}

impl View for Duration {
    type V = nat;

    /// The length of the span in nanoseconds.
    closed spec fn view(&self) -> nat {
        self.nanos as nat
    }
}

impl Duration {
    /// The well-formedness of a span: it is no longer than the largest std duration.
    #[verifier::type_invariant]
    pub closed spec fn inv(self) -> bool {
        self.nanos as nat <= max_duration_nanos()
    }

    /// The empty span.
    pub fn zero() -> (d: Duration)
        ensures
            d@ == 0,
    {
        Duration { nanos: 0 }
    }

    /// A span of `nanos` nanoseconds.
    pub fn from_nanos(nanos: u64) -> (d: Duration)
        ensures
            d@ == nanos,
    {
        Duration { nanos: nanos as u128 }
    }

    /// A span of `millis` milliseconds.
    pub fn from_millis(millis: u64) -> (d: Duration)
        ensures
            d@ == millis * 1_000_000,
    {
        Duration { nanos: millis as u128 * 1_000_000 }
    }

    /// A span of `secs` whole seconds.
    pub fn from_secs(secs: u64) -> (d: Duration)
        ensures
            d@ == secs * 1_000_000_000,
    {
        Duration { nanos: secs as u128 * 1_000_000_000 }
    }

    /// A span of `nanos` nanoseconds, given as a wide count.
    pub fn from_nanos_u128(nanos: u128) -> (d: Duration)
        requires
            nanos <= max_duration_nanos(),
        ensures
            d@ == nanos,
    {
        Duration { nanos }
    }

    /// Whole seconds in the span (the fractional part is dropped).
    pub fn as_secs(&self) -> (s: u64)
        ensures
            s == self@ / 1_000_000_000,
    {
        proof {
            use_type_invariant(self);
        }
        (self.nanos / 1_000_000_000) as u64
    }

    /// The span in nanoseconds.
    pub fn as_nanos(&self) -> (n: u128)
        ensures
            n == self@,
    {
        self.nanos
    }

    /// Whether the span is empty.
    pub fn is_zero(&self) -> (b: bool)
        ensures
            b == (self@ == 0),
    {
        self.nanos == 0
    }

    /// The sum of two spans; the sum must stay within the range of a duration.
    pub fn plus(self, other: Duration) -> (d: Duration)
        requires
            self@ + other@ <= max_duration_nanos(),
        ensures
            d@ == self@ + other@,
    {
        Duration { nanos: self.nanos + other.nanos }
    }

    /// The span divided into `divisor` equal parts (rounding down).
    pub fn div_u64(self, divisor: u64) -> (d: Duration)
        requires
            divisor > 0,
        ensures
            d@ == self@ / (divisor as nat),
    {
        proof {
            use_type_invariant(&self);
        }
        Duration { nanos: self.nanos / divisor as u128 }
    }

    /// The span that lasts `self` minus `other`, or the empty span where `other` is longer.
    pub fn saturating_sub(self, other: Duration) -> (d: Duration)
        ensures
            d@ == if self@ >= other@ { (self@ - other@) as nat } else { 0 },
    {
        proof {
            use_type_invariant(&self);
        }
        if self.nanos >= other.nanos {
            Duration { nanos: self.nanos - other.nanos }
        } else {
            Duration::zero()
        }
    }

    /// The span between two readings of a monotonic clock: empty where `now`
    /// is not after `since`, and capped at the longest duration.
    pub fn between_readings(now: u128, since: u128) -> (d: Duration)
        ensures
            d@ == span_since(now, since),
    {
        if now <= since {
            Duration::zero()
        } else if now - since > 0xFFFF_FFFF_FFFF_FFFFu128 * 1_000_000_000 + 999_999_999 {
            Duration { nanos: 0xFFFF_FFFF_FFFF_FFFFu128 * 1_000_000_000 + 999_999_999 }
        } else {
            Duration { nanos: now - since }
        }
    }
}

/// The standard library's monotonic instant, held opaquely.
#[verifier::external_type_specification]
#[verifier::external_body]
pub struct ExInstant(std::time::Instant);

/// `Instant` is `Copy`: cloning it (`<Instant as Clone>::clone`) gives back the same instant.
pub assume_specification[ <std::time::Instant as std::clone::Clone>::clone ](i: &std::time::Instant) -> (r: std::time::Instant)
    ensures
        r == *i,
;

/// Reads the monotonic clock (`std::time::Instant::now`); the reading is opaque.
#[verifier::external_body]
fn instant_now() -> std::time::Instant {
    std::time::Instant::now()
}

/// Nanoseconds elapsed since `start` on the monotonic clock
/// (`std::time::Instant::elapsed`, then `Duration::as_nanos`). The reading
/// depends on the time of the call; nothing is stated of it.
#[verifier::external_body]
fn nanos_elapsed_since(start: &std::time::Instant) -> u128 {
    start.elapsed().as_nanos()
}

/// A monotonic clock whose readings count nanoseconds from the moment it was made.
#[derive(Debug, Clone)]
pub struct Clock {
    epoch: std::time::Instant,
}

impl Clock {
    /// A clock that starts counting now.
    pub fn new() -> (c: Clock) {
        Clock { epoch: instant_now() }
    }

    /// Nanoseconds since the clock was made. The value depends on when it is read.
    pub fn now_nanos(&self) -> u128 {
        nanos_elapsed_since(&self.epoch)
    }
}

/// The current wall-clock time as milliseconds since the Unix epoch
/// (`chrono::Utc::now`, then `DateTime::timestamp_millis`). The reading depends
/// on when it is taken; nothing is stated of it.
#[verifier::external_body]
pub(crate) fn utc_now_millis() -> i64 {
    chrono::Utc::now().timestamp_millis()
}

} // verus!
