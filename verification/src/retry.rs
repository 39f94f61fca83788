//! Exponential-backoff retry controller for classified fetch failures.
//!
//! Transient network failures grow the stored delay multiplicatively within
//! the configured bounds; permanent failures are answered with the minimum
//! delay and a rate limit with the maximum delay outright, neither advancing
//! the stored backoff. The growth multiplier is an exact rational stored in
//! tenths (a multiplier of `2.0` is `20`).

use vstd::arithmetic::div_mod::{lemma_div_by_multiple, lemma_div_is_ordered};
use vstd::arithmetic::mul::lemma_mul_inequality;
use vstd::prelude::*;

use crate::config::{apply_override, opt_str_view, override_u64};
use crate::error::FetchError;

verus! {

/// Configuration for retry behavior. Immutable after construction.
#[derive(Debug, Clone, Copy)]
pub struct RetryConfig {
    min_delay_secs: u64,
    max_delay_secs: u64,
    multiplier_tenths: u64,
}

impl RetryConfig {
    pub closed spec fn spec_min_delay(&self) -> u64 {
        self.min_delay_secs
    }

    pub closed spec fn spec_max_delay(&self) -> u64 {
        self.max_delay_secs
    }

    pub closed spec fn spec_multiplier_tenths(&self) -> u64 {
        self.multiplier_tenths
    }

    /// Validity: delay bounds are ordered, the multiplier exceeds one, and
    /// the backoff arithmetic cannot overflow.
    pub open spec fn wf(&self) -> bool {
        &&& self.spec_min_delay() <= self.spec_max_delay()
        &&& self.spec_multiplier_tenths() > 10
        &&& self.spec_max_delay() * self.spec_multiplier_tenths() <= u64::MAX
    }

    /// The default configuration, with any of the three values replaced by
    /// an override that parses as a decimal integer; an override that does
    /// not parse is ignored.
    pub fn with_overrides(
        min_delay: Option<&str>,
        max_delay: Option<&str>,
        multiplier_tenths: Option<&str>,
    ) -> (r: Self)
        ensures
            r.spec_min_delay() == override_u64(5, opt_str_view(min_delay)),
            r.spec_max_delay() == override_u64(300, opt_str_view(max_delay)),
            r.spec_multiplier_tenths() == override_u64(20, opt_str_view(multiplier_tenths)),
    {
        RetryConfig {
            min_delay_secs: apply_override(5, min_delay),
            max_delay_secs: apply_override(300, max_delay),
            multiplier_tenths: apply_override(20, multiplier_tenths),
        }
    }

    /// Runtime validity check, for callers outside verified code.
    pub fn is_valid(&self) -> (r: bool)
        ensures
            r == self.wf(),
    {
        let no_overflow = self.max_delay_secs.checked_mul(self.multiplier_tenths).is_some();
        self.min_delay_secs <= self.max_delay_secs && self.multiplier_tenths > 10 && no_overflow
    }
}

impl Default for RetryConfig {
    fn default() -> (r: Self)
        ensures
            r.spec_min_delay() == 5,
            r.spec_max_delay() == 300,
            r.spec_multiplier_tenths() == 20,
            r.wf(),
    {
        RetryConfig { min_delay_secs: 5, max_delay_secs: 300, multiplier_tenths: 20 }
    }
}

/// The delay after one more transient failure: the current delay grown by
/// the multiplier (truncated to whole seconds) and clamped into the bounds.
pub open spec fn spec_next_backoff(c: RetryConfig, current_secs: u64) -> u64 {
    let grown = (current_secs * c.spec_multiplier_tenths()) / 10;
    if grown < c.spec_min_delay() {
        c.spec_min_delay()
    } else if grown > c.spec_max_delay() {
        c.spec_max_delay()
    } else {
        grown as u64
    }
}

/// Law: one backoff step never shortens the stored delay and never pushes
/// it past the configured maximum. Since `record_failure` sets the delay to
/// exactly `spec_next_backoff` on every transient network failure and leaves
/// it alone otherwise, a run of consecutive transient network failures
/// yields a non-decreasing delay sequence capped at the maximum (and
/// `record_success` resets it to the minimum).
pub proof fn lemma_backoff_monotone(c: RetryConfig, current_secs: u64)
    requires
        c.wf(),
        c.spec_min_delay() <= current_secs <= c.spec_max_delay(),
    ensures
        current_secs <= spec_next_backoff(c, current_secs) <= c.spec_max_delay(),
{
    let mt = c.spec_multiplier_tenths() as int;
    let cur = current_secs as int;
    lemma_mul_inequality(10, mt, cur);
    assert(cur * 10 <= cur * mt);
    lemma_div_is_ordered(cur * 10, cur * mt, 10);
    lemma_div_by_multiple(cur, 10);
    assert(cur * 10 / 10 == cur);
}

/// Tracks retry state with exponential backoff.
#[derive(Debug)]
pub struct RetryState {
    current_delay_secs: u64,
    consecutive_failures: u32,
    config: RetryConfig,
}

impl RetryState {
    pub closed spec fn spec_current_delay(&self) -> u64 {
        self.current_delay_secs
    }

    pub closed spec fn spec_consecutive_failures(&self) -> u32 {
        self.consecutive_failures
    }

    pub closed spec fn spec_config(&self) -> RetryConfig {
        self.config
    }

    pub open spec fn wf(&self) -> bool {
        &&& self.spec_config().wf()
        &&& self.spec_config().spec_min_delay() <= self.spec_current_delay()
        &&& self.spec_current_delay() <= self.spec_config().spec_max_delay()
    }

    pub fn new(config: RetryConfig) -> (r: Self)
        requires
            config.wf(),
        ensures
            r.spec_config() == config,
            r.spec_current_delay() == config.spec_min_delay(),
            r.spec_consecutive_failures() == 0,
            r.wf(),
    {
        let current_delay_secs = config.min_delay_secs;
        Self { current_delay_secs, consecutive_failures: 0, config }
    }

    /// Record a successful fetch - resets backoff.
    pub fn record_success(&mut self)
        requires
            old(self).wf(),
        ensures
            final(self).spec_config() == old(self).spec_config(),
            final(self).spec_current_delay() == old(self).spec_config().spec_min_delay(),
            final(self).spec_consecutive_failures() == 0,
            final(self).wf(),
    {
        self.current_delay_secs = self.config.min_delay_secs;
        self.consecutive_failures = 0;
    }

    /// Record a failure and calculate the next delay. A permanent failure is
    /// answered with the minimum delay; a rate limit is answered with the
    /// maximum delay outright; only a transient network failure grows the
    /// stored backoff, which it then returns. The stored backoff advances on
    /// no other kind of failure.
    pub fn record_failure(&mut self, error: &FetchError) -> (delay_secs: u64)
        requires
            old(self).wf(),
            old(self).spec_consecutive_failures() < u32::MAX,
        ensures
            final(self).wf(),
            final(self).spec_config() == old(self).spec_config(),
            final(self).spec_consecutive_failures() == old(self).spec_consecutive_failures() + 1,
            final(self).spec_current_delay() == if error.spec_is_transient() && !(
            error matches FetchError::RateLimited { .. }) {
                spec_next_backoff(old(self).spec_config(), old(self).spec_current_delay())
            } else {
                old(self).spec_current_delay()
            },
            delay_secs == if error matches FetchError::RateLimited { .. } {
                old(self).spec_config().spec_max_delay()
            } else if error.spec_is_transient() {
                final(self).spec_current_delay()
            } else {
                old(self).spec_config().spec_min_delay()
            },
    {
        self.consecutive_failures = self.consecutive_failures + 1;

        if !error.is_transient() {
            // Permanent errors: minimum delay (don't spam, but stay responsive)
            return self.config.min_delay_secs;
        }
        if matches!(error, FetchError::RateLimited { .. }) {
            // Rate limits jump straight to the most conservative cadence
            return self.config.max_delay_secs;
        }
        // Exponential backoff for transient network errors
        proof {
            lemma_mul_inequality(
                self.current_delay_secs as int,
                self.config.max_delay_secs as int,
                self.config.multiplier_tenths as int,
            );
        }
        let grown = (self.current_delay_secs * self.config.multiplier_tenths) / 10;
        let clamped = if grown < self.config.min_delay_secs {
            self.config.min_delay_secs
        } else if grown > self.config.max_delay_secs {
            self.config.max_delay_secs
        } else {
            grown
        };
        self.current_delay_secs = clamped;
        clamped
    }

    /// The currently stored backoff delay, in whole seconds.
    #[verifier::when_used_as_spec(spec_current_delay)]
    pub fn current_delay(&self) -> (delay_secs: u64)
        ensures
            delay_secs == self.spec_current_delay(),
    {
        self.current_delay_secs
    }
}

} // verus!
