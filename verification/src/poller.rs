//! Adaptive polling engine with AIMD interval adjustment.
//!
//! On every cycle the poller records the fresh sample, reclassifies the
//! temperature state, computes a target interval (additive increase in quiet
//! states, multiplicative decrease in active ones), clamps it into the
//! configured bounds, and smooths the current interval toward the target.
//! All interval arithmetic is on whole seconds, truncating toward zero.

use vstd::arithmetic::div_mod::lemma_div_is_ordered;
use vstd::prelude::*;

use crate::config::PollerConfig;
use crate::metrics::UsageMetrics;
use crate::tracker::{
    sorted_strict, samples_in_window, spec_cutoff, spec_detect_state, spec_upsert, Sample,
    TemperatureState, TimeWindowedTracker,
};

verus! {

/// The target interval for a state: quiet states climb additively (Cool at
/// half speed), active states shrink multiplicatively, Blazing the most.
pub open spec fn spec_target_interval(
    current_secs: u64,
    state: TemperatureState,
    c: PollerConfig,
) -> int {
    match state {
        TemperatureState::Cold => current_secs + c.additive_increase_secs,
        TemperatureState::Cool => current_secs + c.additive_increase_secs / 2,
        TemperatureState::Warm => (current_secs * c.warm_multiplier_pct) / 100,
        TemperatureState::Hot => (current_secs * c.hot_multiplier_pct) / 100,
        TemperatureState::Blazing => (current_secs * c.blazing_multiplier_pct) / 100,
    }
}

pub open spec fn spec_clamp(x: int, lo: u64, hi: u64) -> u64 {
    if x < lo {
        lo
    } else if x > hi {
        hi
    } else {
        x as u64
    }
}

/// Smoothing weight, in tenths: hot states converge quickly, the rest damp
/// oscillation.
pub open spec fn spec_smoothing_factor_tenths(state: TemperatureState) -> u64 {
    match state {
        TemperatureState::Blazing => 7,
        TemperatureState::Hot => 5,
        _ => 3,
    }
}

/// Exponential smoothing `current * (1 - factor) + target * factor`,
/// truncated to whole seconds, with the factor in tenths.
pub open spec fn spec_smooth(current: u64, target: u64, factor_tenths: u64) -> int {
    (current * (10 - factor_tenths) + target * factor_tenths) / 10
}

/// The retention horizon of the history: the larger of the context window
/// and the idle-to-cold duration.
pub open spec fn spec_retention(c: PollerConfig) -> u64 {
    if c.context_window_secs >= c.idle_to_cold_secs {
        c.context_window_secs
    } else {
        c.idle_to_cold_secs
    }
}

/// A smoothed value of two values within bounds stays within those bounds.
proof fn lemma_smooth_bounds(current: u64, target: u64, factor_tenths: u64, lo: u64, hi: u64)
    requires
        factor_tenths <= 10,
        lo <= current <= hi,
        lo <= target <= hi,
    ensures
        lo <= spec_smooth(current, target, factor_tenths) <= hi,
{
    let f = factor_tenths as int;
    assert(lo * 10 <= current * (10 - f) + target * f <= hi * 10) by (nonlinear_arith)
        requires
            0 <= f <= 10,
            lo <= current <= hi,
            lo <= target <= hi,
    ;
    let num = current * (10 - f) + target * f;
    lemma_div_is_ordered(lo * 10, num, 10);
    lemma_div_is_ordered(num, hi * 10, 10);
    assert(lo * 10 / 10 == lo);
    assert(hi * 10 / 10 == hi);
}

/// Adaptive polling engine: owns the tracker, the current state, and the
/// current polling interval.
pub struct AdaptivePoller {
    current_interval_secs: u64,
    current_state: TemperatureState,
    tracker: TimeWindowedTracker,
    config: PollerConfig,
    state_entered_at: u64,
}

impl AdaptivePoller {
    pub closed spec fn spec_current_interval(&self) -> u64 {
        self.current_interval_secs
    }

    pub closed spec fn spec_current_state(&self) -> TemperatureState {
        self.current_state
    }

    pub closed spec fn spec_state_entered_at(&self) -> u64 {
        self.state_entered_at
    }

    pub closed spec fn spec_config(&self) -> PollerConfig {
        self.config
    }

    pub closed spec fn history(&self) -> Seq<Sample> {
        self.tracker.history()
    }

    pub closed spec fn spec_max_history(&self) -> u64 {
        self.tracker.spec_max_history()
    }

    pub open spec fn wf(&self) -> bool {
        &&& self.spec_config().wf()
        &&& self.spec_config().min_interval_secs <= self.spec_current_interval()
        &&& self.spec_current_interval() <= self.spec_config().max_interval_secs
        &&& self.spec_max_history() == spec_retention(self.spec_config())
        &&& sorted_strict(self.history())
    }

    pub fn new(config: PollerConfig, now: u64) -> (r: Self)
        requires
            config.wf(),
        ensures
            r.spec_config() == config,
            r.spec_current_state() == TemperatureState::Cold,
            r.spec_current_interval() == config.min_interval_secs,
            r.spec_state_entered_at() == now,
            r.history() == Seq::<Sample>::empty(),
            r.wf(),
    {
        let max_history = if config.context_window_secs >= config.idle_to_cold_secs {
            config.context_window_secs
        } else {
            config.idle_to_cold_secs
        };
        let current_interval_secs = config.min_interval_secs;
        Self {
            current_interval_secs,
            current_state: TemperatureState::Cold,
            tracker: TimeWindowedTracker::new(max_history),
            config,
            state_entered_at: now,
        }
    }

    /// The (unclamped) target interval for a state, from a given current
    /// interval.
    pub fn calculate_interval_for_state(
        current_interval_secs: u64,
        state: TemperatureState,
        config: &PollerConfig,
    ) -> (target: u64)
        requires
            current_interval_secs + config.additive_increase_secs <= u64::MAX,
            current_interval_secs <= u64::MAX / 100,
            config.warm_multiplier_pct < 100,
            config.hot_multiplier_pct < 100,
            config.blazing_multiplier_pct < 100,
        ensures
            target == spec_target_interval(current_interval_secs, state, *config),
    {
        proof {
            assert(current_interval_secs * 100 <= (u64::MAX / 100) * 100 <= u64::MAX)
                by (nonlinear_arith)
                requires
                    current_interval_secs <= u64::MAX / 100,
            ;
            vstd::arithmetic::mul::lemma_mul_inequality(
                config.warm_multiplier_pct as int,
                100,
                current_interval_secs as int,
            );
            vstd::arithmetic::mul::lemma_mul_inequality(
                config.hot_multiplier_pct as int,
                100,
                current_interval_secs as int,
            );
            vstd::arithmetic::mul::lemma_mul_inequality(
                config.blazing_multiplier_pct as int,
                100,
                current_interval_secs as int,
            );
        }
        match state {
            TemperatureState::Cold => current_interval_secs + config.additive_increase_secs,
            TemperatureState::Cool => current_interval_secs + config.additive_increase_secs / 2,
            TemperatureState::Warm => (current_interval_secs * config.warm_multiplier_pct) / 100,
            TemperatureState::Hot => (current_interval_secs * config.hot_multiplier_pct) / 100,
            TemperatureState::Blazing => (current_interval_secs * config.blazing_multiplier_pct)
                / 100,
        }
    }

    /// Smoothing weight for a state, in tenths.
    pub fn get_smoothing_factor(state: TemperatureState) -> (factor_tenths: u64)
        ensures
            factor_tenths == spec_smoothing_factor_tenths(state),
    {
        match state {
            TemperatureState::Blazing => 7,
            TemperatureState::Hot => 5,
            _ => 3,
        }
    }

    /// Move `current` toward `target` by the given weight (in tenths),
    /// truncating fractional seconds toward zero.
    pub fn apply_smoothing(current: u64, target: u64, factor_tenths: u64) -> (smoothed: u64)
        requires
            factor_tenths <= 10,
            current <= u64::MAX / 10,
            target <= u64::MAX / 10,
        ensures
            smoothed == spec_smooth(current, target, factor_tenths),
    {
        proof {
            assert(current * (10 - factor_tenths) + target * factor_tenths <= u64::MAX)
                by (nonlinear_arith)
                requires
                    factor_tenths <= 10,
                    current <= u64::MAX / 10,
                    target <= u64::MAX / 10,
            ;
        }
        (current * (10 - factor_tenths) + target * factor_tenths) / 10
    }

    /// One polling cycle: record the sample, reclassify, and adjust the
    /// interval toward the state's clamped target. Returns the new interval,
    /// which always stays within the configured bounds.
    pub fn next_interval(&mut self, metrics: UsageMetrics, now: u64) -> (interval_secs: u64)
        requires
            old(self).wf(),
            old(self).history().len() > 0 ==> old(self).history().last().ts <= now,
        ensures
            final(self).wf(),
            final(self).spec_config() == old(self).spec_config(),
            final(self).history() == samples_in_window(
                spec_upsert(old(self).history(), Sample { ts: now, metrics }),
                spec_cutoff(now, spec_retention(old(self).spec_config())),
            ),
            final(self).history().len() > 0,
            final(self).history().last() == (Sample { ts: now, metrics }),
            final(self).spec_current_state() == spec_detect_state(
                final(self).history(),
                now,
                old(self).spec_config(),
            ),
            final(self).spec_state_entered_at() == if final(self).spec_current_state() != old(
                self,
            ).spec_current_state() {
                now
            } else {
                old(self).spec_state_entered_at()
            },
            final(self).spec_current_interval() == spec_smooth(
                old(self).spec_current_interval(),
                spec_clamp(
                    spec_target_interval(
                        old(self).spec_current_interval(),
                        final(self).spec_current_state(),
                        old(self).spec_config(),
                    ),
                    old(self).spec_config().min_interval_secs,
                    old(self).spec_config().max_interval_secs,
                ),
                spec_smoothing_factor_tenths(final(self).spec_current_state()),
            ),
            interval_secs == final(self).spec_current_interval(),
            old(self).spec_config().min_interval_secs <= interval_secs <= old(
                self,
            ).spec_config().max_interval_secs,
    {
        self.tracker.record_sample(metrics, now);
        let new_state = self.tracker.detect_state(now, &self.config);

        if new_state != self.current_state {
            self.current_state = new_state;
            self.state_entered_at = now;
        }

        let target = Self::calculate_interval_for_state(
            self.current_interval_secs,
            self.current_state,
            &self.config,
        );
        let clamped = if target < self.config.min_interval_secs {
            self.config.min_interval_secs
        } else if target > self.config.max_interval_secs {
            self.config.max_interval_secs
        } else {
            target
        };
        let factor = Self::get_smoothing_factor(self.current_state);
        proof {
            assert(u64::MAX / 100 <= u64::MAX / 10);
            lemma_smooth_bounds(
                self.current_interval_secs,
                clamped,
                factor,
                self.config.min_interval_secs,
                self.config.max_interval_secs,
            );
        }
        self.current_interval_secs = Self::apply_smoothing(
            self.current_interval_secs,
            clamped,
            factor,
        );

        self.current_interval_secs
    }

    /// Get the current temperature state.
    #[verifier::when_used_as_spec(spec_current_state)]
    pub fn current_state(&self) -> (state: TemperatureState)
        ensures
            state == self.spec_current_state(),
    {
        self.current_state
    }

    /// Get the current interval, in whole seconds.
    #[verifier::when_used_as_spec(spec_current_interval)]
    pub fn current_interval(&self) -> (interval_secs: u64)
        ensures
            interval_secs == self.spec_current_interval(),
    {
        self.current_interval_secs
    }
}

} // verus!
