use daneel::api::rate_limit::{
    after_minute_count, after_second_count, exceeded_after_ttl, minute_key, second_key, RampPhase,
    RateLimitConfig, RateLimitResult,
};
use daneel::time::Duration;

#[test]
fn test_ramp_phases() {
    assert!(matches!(RampPhase::from_duration(Duration::from_secs(0)), RampPhase::Warmup));
    assert!(matches!(RampPhase::from_duration(Duration::from_secs(25 * 3600)), RampPhase::Baseline));
    assert!(matches!(RampPhase::from_duration(Duration::from_secs(50 * 3600)), RampPhase::Ramp));
    assert!(matches!(RampPhase::from_duration(Duration::from_secs(100 * 3600)), RampPhase::Full));
}

#[test]
fn test_default_rate_limit_config() {
    let config = RateLimitConfig::default();
    assert_eq!(config.per_second, 5);
    assert_eq!(config.per_minute, 100);
}

#[test]
fn test_warmup_phase_config() {
    let config = RampPhase::Warmup.config();
    assert_eq!(config.per_second, 1);
    assert_eq!(config.per_minute, 12);
}

#[test]
fn test_baseline_phase_config() {
    let config = RampPhase::Baseline.config();
    assert_eq!(config.per_second, 1);
    assert_eq!(config.per_minute, 60);
}

#[test]
fn test_ramp_phase_config() {
    let config = RampPhase::Ramp.config();
    assert_eq!(config.per_second, 1);
    assert_eq!(config.per_minute, 100);
}

#[test]
fn test_full_phase_config() {
    let config = RampPhase::Full.config();
    assert_eq!(config.per_second, 5);
    assert_eq!(config.per_minute, 100);
}

#[test]
fn test_ramp_phase_boundaries() {
    assert!(matches!(RampPhase::from_duration(Duration::from_secs(24 * 3600)), RampPhase::Baseline));
    assert!(matches!(RampPhase::from_duration(Duration::from_secs(23 * 3600 + 3599)), RampPhase::Warmup));
    assert!(matches!(RampPhase::from_duration(Duration::from_secs(48 * 3600)), RampPhase::Ramp));
    assert!(matches!(RampPhase::from_duration(Duration::from_secs(47 * 3600 + 3599)), RampPhase::Baseline));
    assert!(matches!(RampPhase::from_duration(Duration::from_secs(72 * 3600)), RampPhase::Full));
    assert!(matches!(RampPhase::from_duration(Duration::from_secs(71 * 3600 + 3599)), RampPhase::Ramp));
}

#[test]
fn test_ramp_phase_very_long_duration() {
    assert!(matches!(RampPhase::from_duration(Duration::from_secs(1000 * 3600)), RampPhase::Full));
}

#[test]
fn test_rate_limit_result_allowed_debug() {
    let result = RateLimitResult::Allowed { remaining_second: 4, remaining_minute: 99 };
    let debug_str = format!("{:?}", result);
    assert!(debug_str.contains("Allowed"));
    assert!(debug_str.contains('4'));
    assert!(debug_str.contains("99"));
}

#[test]
fn test_rate_limit_result_exceeded_debug() {
    let result = RateLimitResult::Exceeded { retry_after_seconds: 30 };
    let debug_str = format!("{:?}", result);
    assert!(debug_str.contains("Exceeded"));
    assert!(debug_str.contains("30"));
}

#[test]
fn test_rate_limit_result_allowed_fields() {
    let result = RateLimitResult::Allowed { remaining_second: 3, remaining_minute: 50 };
    if let RateLimitResult::Allowed { remaining_second, remaining_minute } = result {
        assert_eq!(remaining_second, 3);
        assert_eq!(remaining_minute, 50);
    } else {
        panic!("Expected Allowed variant");
    }
}

#[test]
fn test_rate_limit_result_exceeded_fields() {
    let result = RateLimitResult::Exceeded { retry_after_seconds: 45 };
    if let RateLimitResult::Exceeded { retry_after_seconds } = result {
        assert_eq!(retry_after_seconds, 45);
    } else {
        panic!("Expected Exceeded variant");
    }
}

#[test]
fn counter_keys() {
    assert_eq!(second_key("GROK"), "ratelimit:GROK:second");
    assert_eq!(minute_key("GROK"), "ratelimit:GROK:minute");
}

#[test]
fn second_counter_decisions() {
    let config = RateLimitConfig::default();
    assert_eq!(after_second_count(1, &config), (true, None));
    assert_eq!(after_second_count(5, &config), (false, None));
    assert_eq!(
        after_second_count(6, &config),
        (false, Some(RateLimitResult::Exceeded { retry_after_seconds: 1 }))
    );
}

#[test]
fn minute_counter_decisions() {
    let config = RateLimitConfig::default();
    assert_eq!(
        after_minute_count(2, 1, &config),
        (true, Some(RateLimitResult::Allowed { remaining_second: 3, remaining_minute: 99 }))
    );
    assert_eq!(
        after_minute_count(5, 100, &config),
        (false, Some(RateLimitResult::Allowed { remaining_second: 0, remaining_minute: 0 }))
    );
    assert_eq!(after_minute_count(1, 101, &config), (false, None));
}

#[test]
fn ttl_decides_retry_time() {
    assert_eq!(exceeded_after_ttl(42), RateLimitResult::Exceeded { retry_after_seconds: 42 });
    assert_eq!(exceeded_after_ttl(0), RateLimitResult::Exceeded { retry_after_seconds: 1 });
    assert_eq!(exceeded_after_ttl(-2), RateLimitResult::Exceeded { retry_after_seconds: 1 });
}
