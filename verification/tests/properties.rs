use usage_poller::config::PollerConfig;
use usage_poller::error::FetchError;
use usage_poller::metrics::{UsageMetrics, UsageMetricsError};
use usage_poller::poller::AdaptivePoller;
use usage_poller::retry::{RetryConfig, RetryState};
use usage_poller::state::AppState;
use usage_poller::text::parse_u64;
use usage_poller::tracker::{TemperatureState, TimeWindowedTracker};

#[test]
fn construction_succeeds_on_whole_range() {
    for short in 0..=100u8 {
        for long in 0..=100u8 {
            let m = UsageMetrics::try_new(short, long).unwrap();
            assert_eq!(m.six_hour_pct(), short);
            assert_eq!(m.weekly_pct(), long);
        }
    }
}

#[test]
fn construction_fails_field_tagged_above_100() {
    assert_eq!(
        UsageMetrics::try_new(101, 50),
        Err(UsageMetricsError::SixHourOutOfRange(101))
    );
    assert_eq!(
        UsageMetrics::try_new(50, 101),
        Err(UsageMetricsError::WeeklyOutOfRange(101))
    );
    assert_eq!(
        UsageMetrics::try_new(255, 50),
        Err(UsageMetricsError::SixHourOutOfRange(255))
    );
    assert_eq!(
        UsageMetrics::try_new(50, 200),
        Err(UsageMetricsError::WeeklyOutOfRange(200))
    );
    // The six-hour field is reported first when both are out of range.
    assert_eq!(
        UsageMetrics::try_new(101, 101),
        Err(UsageMetricsError::SixHourOutOfRange(101))
    );
}

#[test]
fn momentum_of_scenario_samples() {
    // Samples (t0,{10,5}), (t0+60,{11,5}), (t0+120,{13,6}) over a window
    // spanning all three.
    let mut tracker = TimeWindowedTracker::new(3600);
    let t0: u64 = 10_000;
    tracker.record_sample(UsageMetrics::new(10, 5), t0);
    tracker.record_sample(UsageMetrics::new(11, 5), t0 + 60);
    tracker.record_sample(UsageMetrics::new(13, 6), t0 + 120);

    assert_eq!(tracker.calculate_six_hour_momentum(3600, t0 + 120), 3);
    assert_eq!(tracker.calculate_weekly_momentum(3600, t0 + 120), 1);
}

#[test]
fn identical_samples_zero_momentum_any_window() {
    let mut tracker = TimeWindowedTracker::new(86_400);
    let t0: u64 = 5_000;
    for k in 0..6u64 {
        tracker.record_sample(UsageMetrics::new(42, 17), t0 + 60 * k);
    }
    for window in [1u64, 60, 120, 300, 3600, 86_400, u64::MAX] {
        assert_eq!(tracker.calculate_six_hour_momentum(window, t0 + 300), 0);
        assert_eq!(tracker.calculate_weekly_momentum(window, t0 + 300), 0);
    }
}

#[test]
fn recency_gate_cold_after_long_idle() {
    // Zero recent momentum and idle time above idle_to_cold (1800 s): Cold.
    let config = PollerConfig::default();
    let mut tracker = TimeWindowedTracker::new(86_400);
    tracker.record_sample(UsageMetrics::new(10, 5), 0);
    tracker.record_sample(UsageMetrics::new(11, 5), 100);
    tracker.record_sample(UsageMetrics::new(11, 5), 2000);

    // Most recent change was at t=0 (the sample differing from the latest),
    // so the idle time is 2000 s > 1800 s.
    assert_eq!(tracker.time_since_any_change(2000), 2000);
    assert_eq!(tracker.detect_state(2000, &config), TemperatureState::Cold);
}

#[test]
fn recency_gate_cool_within_idle_threshold() {
    // Zero recent momentum and idle time at or below idle_to_cold: Cool.
    let config = PollerConfig::default();
    let mut tracker = TimeWindowedTracker::new(86_400);
    tracker.record_sample(UsageMetrics::new(10, 5), 0);
    tracker.record_sample(UsageMetrics::new(11, 5), 100);
    tracker.record_sample(UsageMetrics::new(11, 5), 1800);

    assert_eq!(tracker.time_since_any_change(1800), 1800);
    assert_eq!(tracker.detect_state(1800, &config), TemperatureState::Cool);
}

#[test]
fn smoothing_exact_values() {
    // smooth(100,200,0.5)=150; smooth(100,300,0.3)=160; smooth(500,100,0.7)=220.
    assert_eq!(AdaptivePoller::apply_smoothing(100, 200, 5), 150);
    assert_eq!(AdaptivePoller::apply_smoothing(100, 300, 3), 160);
    assert_eq!(AdaptivePoller::apply_smoothing(500, 100, 7), 220);
}

#[test]
fn interval_always_within_bounds() {
    let config = PollerConfig::default();
    let (lo, hi) = (config.min_interval_secs, config.max_interval_secs);
    let mut poller = AdaptivePoller::new(config, 0);

    // A deterministic, wriggly input sequence.
    let mut seed: u64 = 0x2545_f491_4f6c_dd1d;
    let mut now: u64 = 1;
    for _ in 0..200 {
        seed = seed.wrapping_mul(6364136223846793005).wrapping_add(1442695040888963407);
        let short = (seed >> 33) % 101;
        let long = (seed >> 13) % 101;
        now += seed % 900;
        let interval = poller.next_interval(UsageMetrics::new(short as u8, long as u8), now);
        assert!(lo <= interval && interval <= hi);
        assert!(lo <= poller.current_interval() && poller.current_interval() <= hi);
    }
}

#[test]
fn transient_failures_grow_delay_up_to_max() {
    let mut retry = RetryState::new(RetryConfig::default());
    let error = FetchError::Network("connection refused".to_string());

    let mut previous: u64 = 0;
    let mut last: u64 = 0;
    for _ in 0..12 {
        let delay = retry.record_failure(&error);
        assert!(delay >= previous, "backoff must not shrink");
        assert!(delay <= 300, "backoff must stay capped at max_delay");
        previous = delay;
        last = delay;
    }
    assert_eq!(last, 300, "backoff reaches the cap");

    retry.record_success();
    assert_eq!(retry.current_delay(), 5, "success resets to min_delay");
}

#[test]
fn rate_limited_always_returns_max_delay() {
    let rate_limited = FetchError::RateLimited {
        message: "Too many requests".to_string(),
        retry_after: None,
    };

    // Fresh state; the stored backoff is not advanced by the rate limit.
    let mut retry = RetryState::new(RetryConfig::default());
    assert_eq!(retry.record_failure(&rate_limited), 300);
    assert_eq!(retry.current_delay(), 5);

    // After some prior backoff growth; the stored backoff stays where the
    // network failures left it.
    let mut retry = RetryState::new(RetryConfig::default());
    let network = FetchError::Network("connection refused".to_string());
    retry.record_failure(&network);
    retry.record_failure(&network);
    assert_eq!(retry.record_failure(&rate_limited), 300);
    assert_eq!(retry.current_delay(), 20);
}

#[test]
fn rate_limited_does_not_advance_backoff() {
    // A rate limit answered from a fresh state leaves the stored delay at
    // the minimum, so the next transient-network delay is one single step.
    let mut retry = RetryState::new(RetryConfig::default());
    let rate_limited = FetchError::RateLimited {
        message: "Too many requests".to_string(),
        retry_after: Some(60),
    };
    let network = FetchError::Network("connection refused".to_string());

    assert_eq!(retry.record_failure(&rate_limited), 300);
    assert_eq!(retry.record_failure(&network), 10);
}

#[test]
fn auth_and_parse_always_return_min_delay() {
    let auth = FetchError::Auth("bad credentials".to_string());
    let parse = FetchError::Parse("bad json".to_string());
    assert!(!auth.is_transient());
    assert!(!parse.is_transient());

    let mut retry = RetryState::new(RetryConfig::default());
    let network = FetchError::Network("connection refused".to_string());
    retry.record_failure(&network);
    retry.record_failure(&network);

    assert_eq!(retry.record_failure(&auth), 5);
    assert_eq!(retry.record_failure(&parse), 5);

    // The stored backoff was not disturbed by the permanent failures.
    assert_eq!(retry.current_delay(), 20);
}

#[test]
fn certificate_message_is_non_transient() {
    let error = FetchError::Network("certificate has expired".to_string());
    assert!(!error.is_transient());

    let generic = FetchError::Network("connection refused".to_string());
    assert!(generic.is_transient());
}

#[test]
fn parse_u64_accepts_digit_runs_only() {
    assert_eq!(parse_u64("0"), Some(0));
    assert_eq!(parse_u64("123"), Some(123));
    assert_eq!(parse_u64("000900"), Some(900));
    assert_eq!(parse_u64("18446744073709551615"), Some(u64::MAX));
    assert_eq!(parse_u64(""), None);
    assert_eq!(parse_u64("12a"), None);
    assert_eq!(parse_u64("-5"), None);
    assert_eq!(parse_u64(" 5"), None);
    assert_eq!(parse_u64("18446744073709551616"), None);
    assert_eq!(parse_u64("99999999999999999999999"), None);
}

#[test]
fn poller_config_overrides_apply_and_ignore_garbage() {
    let config = PollerConfig::with_overrides(
        Some("240"),
        Some("7200"),
        None,
        Some("oops"),
        Some("900"),
        None,
        Some("6"),
        Some("999"),
        None,
        Some("80"),
        None,
        None,
    );
    assert_eq!(config.min_interval_secs, 240);
    assert_eq!(config.max_interval_secs, 7200);
    assert_eq!(config.additive_increase_secs, 90);
    assert_eq!(config.recency_window_secs, 600); // unparseable: default kept
    assert_eq!(config.context_window_secs, 900);
    assert_eq!(config.idle_to_cold_secs, 1800);
    assert_eq!(config.six_hour_sustained_threshold, 6);
    assert_eq!(config.weekly_sustained_threshold, 2); // above 255: default kept
    assert_eq!(config.six_hour_recent_threshold, 2);
    assert_eq!(config.warm_multiplier_pct, 80);
    assert_eq!(config.hot_multiplier_pct, 40);
    assert_eq!(config.blazing_multiplier_pct, 25);
    assert!(config.is_valid());
}

#[test]
fn retry_config_overrides_apply_and_validate() {
    let config = RetryConfig::with_overrides(Some("7"), None, None);
    assert!(config.is_valid());
    let retry = RetryState::new(config);
    assert_eq!(retry.current_delay(), 7);

    // min above max is rejected by the validity check.
    let bad = RetryConfig::with_overrides(Some("500"), Some("5"), None);
    assert!(!bad.is_valid());

    // a multiplier at or below 1.0 is rejected too.
    let bad = RetryConfig::with_overrides(None, None, Some("10"));
    assert!(!bad.is_valid());
}

#[test]
fn app_state_tracks_success_error_and_staleness() {
    let mut state = AppState::new();
    assert!(state.last_success.is_none());
    assert!(!state.is_stale(10_000, 0));

    state.update_success(UsageMetrics::new(30, 40), 1000);
    let success = state.last_success.clone().unwrap();
    assert_eq!(success.timestamp_secs, 1000);
    assert_eq!(success.metrics.six_hour_pct(), 30);
    assert!(state.current_error.is_none());

    assert!(!state.is_stale(2800, 1800)); // exactly at the threshold: not stale
    assert!(state.is_stale(2801, 1800));
    assert!(!state.is_stale(500, 1800)); // clock earlier than the fetch

    state.update_error(FetchError::Network("offline".to_string()));
    assert!(state.current_error.is_some());
    assert!(state.last_success.is_some(), "last known good is kept");
}

#[test]
fn six_hour_jump_above_cap_contributes_nothing() {
    // A single-step six-hour jump above 10 points is discarded outright,
    // not truncated to 10; the uncapped weekly field keeps its full jump.
    let mut tracker = TimeWindowedTracker::new(3600);
    tracker.record_sample(UsageMetrics::new(10, 5), 1000);
    tracker.record_sample(UsageMetrics::new(30, 90), 1060);

    assert_eq!(tracker.calculate_six_hour_momentum(600, 1060), 0);
    assert_eq!(tracker.calculate_weekly_momentum(600, 1060), 85);

    // A jump of exactly 10 still counts.
    let mut tracker = TimeWindowedTracker::new(3600);
    tracker.record_sample(UsageMetrics::new(10, 5), 1000);
    tracker.record_sample(UsageMetrics::new(20, 5), 1060);
    assert_eq!(tracker.calculate_six_hour_momentum(600, 1060), 10);
}

#[test]
fn severity_classification_priority_order() {
    let config = PollerConfig::default();

    // Both metrics actively changing: Blazing.
    let mut tracker = TimeWindowedTracker::new(86_400);
    tracker.record_sample(UsageMetrics::new(10, 5), 0);
    tracker.record_sample(UsageMetrics::new(12, 6), 100);
    assert_eq!(tracker.detect_state(100, &config), TemperatureState::Blazing);

    // Weekly actively changing, six-hour quiet: Hot.
    let mut tracker = TimeWindowedTracker::new(86_400);
    tracker.record_sample(UsageMetrics::new(10, 5), 0);
    tracker.record_sample(UsageMetrics::new(10, 6), 100);
    assert_eq!(tracker.detect_state(100, &config), TemperatureState::Hot);

    // Six-hour active now and sustained over the context window, weekly
    // flat: Warm.
    let mut tracker = TimeWindowedTracker::new(86_400);
    tracker.record_sample(UsageMetrics::new(10, 5), 0);
    tracker.record_sample(UsageMetrics::new(12, 5), 2900);
    tracker.record_sample(UsageMetrics::new(14, 5), 3000);
    assert_eq!(tracker.detect_state(3000, &config), TemperatureState::Warm);

    // Some recent six-hour activity, but below every threshold: Cool.
    let mut tracker = TimeWindowedTracker::new(86_400);
    tracker.record_sample(UsageMetrics::new(10, 5), 2900);
    tracker.record_sample(UsageMetrics::new(11, 5), 3000);
    assert_eq!(tracker.detect_state(3000, &config), TemperatureState::Cool);
}

#[test]
fn activity_shrinks_interval_idleness_grows_it() {
    let config = PollerConfig::default();
    let mut poller = AdaptivePoller::new(config, 0);

    // Steady activity on both metrics drives the interval down toward the
    // minimum.
    let mut now: u64 = 0;
    let mut pct: u8 = 0;
    for _ in 0..20 {
        now += 120;
        pct += 2;
        poller.next_interval(UsageMetrics::new(pct, pct / 2), now);
    }
    assert_eq!(poller.current_state(), TemperatureState::Blazing);
    assert_eq!(poller.current_interval(), config.min_interval_secs);

    // A long quiet stretch climbs back up again.
    let mut grew = false;
    let frozen = UsageMetrics::new(pct, pct / 2);
    for _ in 0..20 {
        now += 3600;
        let before = poller.current_interval();
        poller.next_interval(frozen, now);
        if poller.current_interval() > before {
            grew = true;
        }
    }
    assert_eq!(poller.current_state(), TemperatureState::Cold);
    assert!(grew);
    assert!(poller.current_interval() > config.min_interval_secs);
}
