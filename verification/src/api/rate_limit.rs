//! Rate limiting for the injection API: 5 per second and 100 per minute per
//! key, reached gradually over the first 72 hours.
//!
//! The counters live in a key-value store; a check increments the key's
//! per-second counter, then its per-minute counter, and decides after each
//! count. The decisions are made here; the store is driven by the caller.
use vstd::prelude::*;
use vstd::string::*;
use crate::time::Duration;

verus! {

/// Rate limit configuration.
#[derive(Debug, Clone, Copy, PartialEq, Eq, Structural)]
pub struct RateLimitConfig {
    /// Max requests per second
    pub per_second: u32,
    /// Max requests per minute
    pub per_minute: u32,
}

impl Default for RateLimitConfig {
    /// 5 per second, 100 per minute.
    fn default() -> (c: RateLimitConfig)
        ensures
            c == (RateLimitConfig { per_second: 5, per_minute: 100 }),
    {
        RateLimitConfig { per_second: 5, per_minute: 100 }
    }
}

/// Rate limit result.
#[derive(Debug, Clone, Copy, PartialEq, Eq, Structural)]
pub enum RateLimitResult {
    /// Request allowed, with the remaining quota
    Allowed { remaining_second: u32, remaining_minute: u32 },
    /// Rate limit exceeded
    Exceeded { retry_after_seconds: u32 },
}

/// The store key of the per-second counter of `key_id`.
pub open spec fn second_key_text(key_id: Seq<char>) -> Seq<char> {
    "ratelimit:"@ + key_id + ":second"@
}

/// The store key of the per-minute counter of `key_id`.
pub open spec fn minute_key_text(key_id: Seq<char>) -> Seq<char> {
    "ratelimit:"@ + key_id + ":minute"@
}

/// The store key of the per-second counter of `key_id`.
pub fn second_key(key_id: &str) -> (k: String)
    ensures
        k@ == second_key_text(key_id@),
{
    let mut k = String::from_str("ratelimit:");
    k.append(key_id);
    k.append(":second");
    k
}

/// The store key of the per-minute counter of `key_id`.
pub fn minute_key(key_id: &str) -> (k: String)
    ensures
        k@ == minute_key_text(key_id@),
{
    let mut k = String::from_str("ratelimit:");
    k.append(key_id);
    k.append(":minute");
    k
}

/// Seconds the per-second counter lives once created.
pub const SECOND_WINDOW_SECS: i64 = 1;

/// Seconds the per-minute counter lives once created.
pub const MINUTE_WINDOW_SECS: i64 = 60;

/// What to do once the per-second counter reads `second_count`: whether to
/// set its expiry (it was just created) and, when the per-second limit is
/// exceeded, the answer (retry after one second).
pub fn after_second_count(second_count: u32, config: &RateLimitConfig) -> (r: (bool, Option<RateLimitResult>))
    ensures
        r.0 == (second_count == 1),
        second_count > config.per_second ==> r.1 == Some(RateLimitResult::Exceeded { retry_after_seconds: 1 }),
        second_count <= config.per_second ==> r.1 is None,
{
    let expire = second_count == 1;
    if second_count > config.per_second {
        (expire, Some(RateLimitResult::Exceeded { retry_after_seconds: 1 }))
    } else {
        (expire, None)
    }
}

/// What to do once the per-minute counter reads `minute_count` (the
/// per-second counter read `second_count`): whether to set its expiry and,
/// within the limit, the answer with the remaining quota. `None` means the
/// per-minute limit is exceeded and the counter's time to live decides the answer.
pub fn after_minute_count(second_count: u32, minute_count: u32, config: &RateLimitConfig) -> (r: (bool, Option<RateLimitResult>))
    ensures
        r.0 == (minute_count == 1),
        minute_count > config.per_minute ==> r.1 is None,
        minute_count <= config.per_minute ==> r.1 == Some(RateLimitResult::Allowed {
            remaining_second: if config.per_second >= second_count { (config.per_second - second_count) as u32 } else { 0 },
            remaining_minute: (config.per_minute - minute_count) as u32,
        }),
{
    let expire = minute_count == 1;
    if minute_count > config.per_minute {
        (expire, None)
    } else {
        (expire, Some(RateLimitResult::Allowed {
            remaining_second: config.per_second.saturating_sub(second_count),
            remaining_minute: config.per_minute.saturating_sub(minute_count),
        }))
    }
}

/// The answer when the per-minute limit is exceeded and the counter has
/// `ttl` seconds to live: retry after that many seconds, at least one (the
/// count is cut to its low 32 bits).
pub fn exceeded_after_ttl(ttl: i64) -> (r: RateLimitResult)
    ensures
        r == (RateLimitResult::Exceeded {
            retry_after_seconds: if ttl >= 1 { (ttl as int % 0x1_0000_0000) as u32 } else { 1 },
        }),
{
    let t: i64 = if ttl >= 1 { ttl } else { 1 };
    let low = (t % 0x1_0000_0000) as u32;
    RateLimitResult::Exceeded { retry_after_seconds: low }
}

/// Ramp phase: the limits grow over the first 72 hours.
#[derive(Debug, Clone, Copy, PartialEq, Eq, Structural)]
pub enum RampPhase {
    /// 1 per 5 minutes - first 24h
    Warmup,
    /// 1 per minute - 24-48h
    Baseline,
    /// 1 per 10 seconds - 48-72h
    Ramp,
    /// Full rate (5/sec) - after 72h
    Full,
}

/// The phase after `hours` whole hours.
pub open spec fn phase_at(hours: nat) -> RampPhase {
    if hours < 24 {
        RampPhase::Warmup
    } else if hours < 48 {
        RampPhase::Baseline
    } else if hours < 72 {
        RampPhase::Ramp
    } else {
        RampPhase::Full
    }
}

/// The limits of a phase.
pub open spec fn phase_config(p: RampPhase) -> RateLimitConfig {
    match p {
        RampPhase::Warmup => RateLimitConfig { per_second: 1, per_minute: 12 },
        RampPhase::Baseline => RateLimitConfig { per_second: 1, per_minute: 60 },
        RampPhase::Ramp => RateLimitConfig { per_second: 1, per_minute: 100 },
        RampPhase::Full => RateLimitConfig { per_second: 5, per_minute: 100 },
    }
}

impl RampPhase {
    /// The rate limits of this phase.
    pub fn config(&self) -> (c: RateLimitConfig)
        ensures
            c == phase_config(*self),
    {
        match self {
            RampPhase::Warmup => RateLimitConfig { per_second: 1, per_minute: 12 },
            RampPhase::Baseline => RateLimitConfig { per_second: 1, per_minute: 60 },
            RampPhase::Ramp => RateLimitConfig { per_second: 1, per_minute: 100 },
            RampPhase::Full => RateLimitConfig::default(),
        }
    }

    /// The phase reached after `since_start` since the first injection.
    pub fn from_duration(since_start: Duration) -> (p: RampPhase)
        ensures
            p == phase_at(since_start@ / 3_600_000_000_000),
    {
        let hours = since_start.as_secs() / 3600;
        proof {
            assert(since_start@ / 1_000_000_000 / 3600 == since_start@ / 3_600_000_000_000) by (nonlinear_arith);
        }
        if hours <= 23 {
            RampPhase::Warmup
        } else if hours <= 47 {
            RampPhase::Baseline
        } else if hours <= 71 {
            RampPhase::Ramp
        } else {
            RampPhase::Full
        }
    }
}

/// The phases only ever loosen the limits: a later time never gives lower limits.
pub proof fn lemma_ramp_monotone(h1: nat, h2: nat)
    requires
        h1 <= h2,
    ensures
        phase_config(phase_at(h1)).per_second <= phase_config(phase_at(h2)).per_second,
        phase_config(phase_at(h1)).per_minute <= phase_config(phase_at(h2)).per_minute,
{
}

} // verus!
