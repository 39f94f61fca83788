//! Configuration for the adaptive polling controller.
//!
//! All durations are whole seconds. The multiplicative-decrease factors and
//! the smoothing weights of the controller are exact rationals; here they are
//! stored as integer percentages (a factor of `0.7` is `70`).

use vstd::prelude::*;

use crate::text::{all_digits, decimal_value, parse_u64};

verus! {

pub open spec fn opt_str_view(o: Option<&str>) -> Option<Seq<char>> {
    match o {
        Some(s) => Some(s@),
        None => None,
    }
}

/// The value a configuration override yields: the override itself when it is
/// given and is a decimal integer that fits, the default otherwise
/// (unrecognized or unparseable overrides are ignored).
pub open spec fn override_u64(default: u64, o: Option<Seq<char>>) -> u64 {
    match o {
        Some(s) => {
            if s.len() > 0 && all_digits(s) && decimal_value(s) <= u64::MAX {
                decimal_value(s) as u64
            } else {
                default
            }
        },
        None => default,
    }
}

/// Apply one optional override string to a default value.
pub fn apply_override(default: u64, o: Option<&str>) -> (r: u64)
    ensures
        r == override_u64(default, opt_str_view(o)),
{
    match o {
        Some(s) => match parse_u64(s) {
            Some(v) => v,
            None => default,
        },
        None => default,
    }
}

/// As `override_u64`, for a field that must also fit in a `u8`.
pub open spec fn override_u8(default: u8, o: Option<Seq<char>>) -> u8 {
    if override_u64(default as u64, o) <= 255 {
        override_u64(default as u64, o) as u8
    } else {
        default
    }
}

/// Apply one optional override string to a default `u8` value; an override
/// above 255 is ignored like an unparseable one.
pub fn apply_override_u8(default: u8, o: Option<&str>) -> (r: u8)
    ensures
        r == override_u8(default, opt_str_view(o)),
{
    let v = apply_override(default as u64, o);
    if v <= 255 {
        v as u8
    } else {
        default
    }
}

/// Tuning knobs of the adaptive interval controller. Immutable after
/// construction.
#[derive(Debug, Clone, Copy)]
pub struct PollerConfig {
    // Interval bounds
    pub min_interval_secs: u64,
    pub max_interval_secs: u64,
    pub additive_increase_secs: u64,
    // Time windows for detection
    pub recency_window_secs: u64,
    pub context_window_secs: u64,
    pub idle_to_cold_secs: u64,
    // Change thresholds (percentage points)
    pub six_hour_sustained_threshold: u8,
    pub weekly_sustained_threshold: u8,
    pub six_hour_recent_threshold: u8,
    // AIMD multipliers, as percentages (all below 100, so they shrink)
    pub warm_multiplier_pct: u64,
    pub hot_multiplier_pct: u64,
    pub blazing_multiplier_pct: u64,
}

impl PollerConfig {
    /// Validity: interval bounds are ordered, multipliers shrink, and the
    /// interval arithmetic of the controller cannot overflow.
    pub open spec fn wf(&self) -> bool {
        &&& self.min_interval_secs <= self.max_interval_secs
        &&& self.max_interval_secs + self.additive_increase_secs <= u64::MAX
        &&& self.max_interval_secs <= u64::MAX / 100
        &&& self.warm_multiplier_pct < 100
        &&& self.hot_multiplier_pct < 100
        &&& self.blazing_multiplier_pct < 100
    }

    /// The default configuration.
    pub open spec fn spec_default() -> PollerConfig {
        PollerConfig {
            min_interval_secs: 180,  // 3 minutes
            max_interval_secs: 5400,  // 90 minutes
            additive_increase_secs: 90,  // 1.5 minutes
            recency_window_secs: 600,  // 10 minutes
            context_window_secs: 3600,  // 1 hour
            idle_to_cold_secs: 1800,  // 30 minutes
            six_hour_sustained_threshold: 4,
            weekly_sustained_threshold: 2,
            six_hour_recent_threshold: 2,
            warm_multiplier_pct: 70,
            hot_multiplier_pct: 40,
            blazing_multiplier_pct: 25,
        }
    }

    /// The default configuration, with any value replaced by an override
    /// that parses as a decimal integer (of seconds, percentage points, or
    /// percent, by field); an override that does not parse, or does not fit
    /// the field, is ignored.
    pub fn with_overrides(
        min_interval: Option<&str>,
        max_interval: Option<&str>,
        additive_increase: Option<&str>,
        recency_window: Option<&str>,
        context_window: Option<&str>,
        idle_to_cold: Option<&str>,
        six_hour_sustained_threshold: Option<&str>,
        weekly_sustained_threshold: Option<&str>,
        six_hour_recent_threshold: Option<&str>,
        warm_multiplier_pct: Option<&str>,
        hot_multiplier_pct: Option<&str>,
        blazing_multiplier_pct: Option<&str>,
    ) -> (r: Self)
        ensures
            r.min_interval_secs == override_u64(
                Self::spec_default().min_interval_secs,
                opt_str_view(min_interval),
            ),
            r.max_interval_secs == override_u64(
                Self::spec_default().max_interval_secs,
                opt_str_view(max_interval),
            ),
            r.additive_increase_secs == override_u64(
                Self::spec_default().additive_increase_secs,
                opt_str_view(additive_increase),
            ),
            r.recency_window_secs == override_u64(
                Self::spec_default().recency_window_secs,
                opt_str_view(recency_window),
            ),
            r.context_window_secs == override_u64(
                Self::spec_default().context_window_secs,
                opt_str_view(context_window),
            ),
            r.idle_to_cold_secs == override_u64(
                Self::spec_default().idle_to_cold_secs,
                opt_str_view(idle_to_cold),
            ),
            r.six_hour_sustained_threshold == override_u8(
                Self::spec_default().six_hour_sustained_threshold,
                opt_str_view(six_hour_sustained_threshold),
            ),
            r.weekly_sustained_threshold == override_u8(
                Self::spec_default().weekly_sustained_threshold,
                opt_str_view(weekly_sustained_threshold),
            ),
            r.six_hour_recent_threshold == override_u8(
                Self::spec_default().six_hour_recent_threshold,
                opt_str_view(six_hour_recent_threshold),
            ),
            r.warm_multiplier_pct == override_u64(
                Self::spec_default().warm_multiplier_pct,
                opt_str_view(warm_multiplier_pct),
            ),
            r.hot_multiplier_pct == override_u64(
                Self::spec_default().hot_multiplier_pct,
                opt_str_view(hot_multiplier_pct),
            ),
            r.blazing_multiplier_pct == override_u64(
                Self::spec_default().blazing_multiplier_pct,
                opt_str_view(blazing_multiplier_pct),
            ),
    {
        let mut config = PollerConfig::default();
        config.min_interval_secs = apply_override(config.min_interval_secs, min_interval);
        config.max_interval_secs = apply_override(config.max_interval_secs, max_interval);
        config.additive_increase_secs = apply_override(
            config.additive_increase_secs,
            additive_increase,
        );
        config.recency_window_secs = apply_override(config.recency_window_secs, recency_window);
        config.context_window_secs = apply_override(config.context_window_secs, context_window);
        config.idle_to_cold_secs = apply_override(config.idle_to_cold_secs, idle_to_cold);
        config.six_hour_sustained_threshold = apply_override_u8(
            config.six_hour_sustained_threshold,
            six_hour_sustained_threshold,
        );
        config.weekly_sustained_threshold = apply_override_u8(
            config.weekly_sustained_threshold,
            weekly_sustained_threshold,
        );
        config.six_hour_recent_threshold = apply_override_u8(
            config.six_hour_recent_threshold,
            six_hour_recent_threshold,
        );
        config.warm_multiplier_pct = apply_override(
            config.warm_multiplier_pct,
            warm_multiplier_pct,
        );
        config.hot_multiplier_pct = apply_override(config.hot_multiplier_pct, hot_multiplier_pct);
        config.blazing_multiplier_pct = apply_override(
            config.blazing_multiplier_pct,
            blazing_multiplier_pct,
        );
        config
    }

    /// Runtime validity check, for callers outside verified code.
    pub fn is_valid(&self) -> (r: bool)
        ensures
            r == self.wf(),
    {
        self.min_interval_secs <= self.max_interval_secs
            && self.additive_increase_secs <= u64::MAX - self.max_interval_secs
            && self.max_interval_secs <= u64::MAX / 100
            && self.warm_multiplier_pct < 100
            && self.hot_multiplier_pct < 100
            && self.blazing_multiplier_pct < 100
    }
}

impl Default for PollerConfig {
    fn default() -> (r: Self)
        ensures
            r == PollerConfig::spec_default(),
            r.wf(),
    {
        PollerConfig {
            min_interval_secs: 180,
            max_interval_secs: 5400,
            additive_increase_secs: 90,
            recency_window_secs: 600,
            context_window_secs: 3600,
            idle_to_cold_secs: 1800,
            six_hour_sustained_threshold: 4,
            weekly_sustained_threshold: 2,
            six_hour_recent_threshold: 2,
            warm_multiplier_pct: 70,
            hot_multiplier_pct: 40,
            blazing_multiplier_pct: 25,
        }
    }
}

} // verus!
