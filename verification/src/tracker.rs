//! Time-windowed tracker for usage metrics history.
//!
//! The tracker keeps a bounded, time-ordered history of samples, computes
//! "momentum" (the sum of positive step-changes of a metric) over trailing
//! windows, measures the idle time since the last observed change, and
//! classifies the current activity into a temperature state.

use vstd::prelude::*;

use crate::config::PollerConfig;
use crate::metrics::UsageMetrics;

verus! {

/// Temperature-based activity states.
#[derive(Debug, Clone, Copy, PartialEq, Eq, Structural)]
pub enum TemperatureState {
    /// No changes detected for an extended period
    Cold,
    /// Recently had activity, now cooling down
    Cool,
    /// Six-hour metric showing sustained increases
    Warm,
    /// Weekly metric actively changing
    Hot,
    /// Both metrics actively changing
    Blazing,
}

/// Which of the two metric fields a momentum computation reads.
#[derive(Debug, Clone, Copy, PartialEq, Eq, Structural)]
pub enum MetricField {
    SixHour,
    Weekly,
}

/// A timestamped metrics observation. Timestamps are whole seconds on a
/// monotonic clock.
#[derive(Debug, Clone, Copy, PartialEq, Eq, Structural)]
pub struct Sample {
    pub ts: u64,
    pub metrics: UsageMetrics,
}

pub open spec fn field_of(m: UsageMetrics, field: MetricField) -> u8 {
    match field {
        MetricField::SixHour => m.spec_six_hour_pct(),
        MetricField::Weekly => m.spec_weekly_pct(),
    }
}

/// Timestamps strictly increase along the history, so each timestamp keys at
/// most one sample.
pub open spec fn sorted_strict(h: Seq<Sample>) -> bool {
    forall|i: int, j: int| 0 <= i < j < h.len() ==> h[i].ts < h[j].ts
}

/// The start of a trailing window: `now - window`, saturated at zero.
pub open spec fn spec_cutoff(now: u64, window: u64) -> u64 {
    if window > now {
        0
    } else {
        (now - window) as u64
    }
}

/// The values of `field` over the samples of `h` whose timestamp is at or
/// after `cutoff`, in history order.
pub open spec fn window_values(h: Seq<Sample>, cutoff: u64, field: MetricField) -> Seq<u8>
    decreases h.len(),
{
    if h.len() == 0 {
        Seq::empty()
    } else {
        let rest = window_values(h.drop_last(), cutoff, field);
        if h.last().ts >= cutoff {
            rest.push(field_of(h.last().metrics, field))
        } else {
            rest
        }
    }
}

/// The contribution of one adjacent pair of values: the increase, unless the
/// pair is no increase at all or the increase exceeds `max_change` (then the
/// pair contributes nothing — it is discarded, not truncated).
pub open spec fn step_increase(prev: u8, cur: u8, max_change: Option<u8>) -> int {
    if cur > prev {
        match max_change {
            Some(cap) => {
                if cur - prev <= cap {
                    cur - prev
                } else {
                    0
                }
            },
            None => cur - prev,
        }
    } else {
        0
    }
}

/// The sum of the contributions of all adjacent pairs; zero when fewer than
/// two values are present.
pub open spec fn momentum_total(vals: Seq<u8>, max_change: Option<u8>) -> int
    decreases vals.len(),
{
    if vals.len() < 2 {
        0
    } else {
        momentum_total(vals.drop_last(), max_change) + step_increase(
            vals[vals.len() - 2],
            vals.last(),
            max_change,
        )
    }
}

/// Momentum of `field` over the samples at or after `cutoff`, saturated at
/// the `u8` maximum (the executable total is accumulated in a `u8`).
pub open spec fn spec_momentum(
    h: Seq<Sample>,
    cutoff: u64,
    field: MetricField,
    max_change: Option<u8>,
) -> int {
    let total = momentum_total(window_values(h, cutoff, field), max_change);
    if total > 255 {
        255
    } else {
        total
    }
}

pub open spec fn metrics_differ(a: UsageMetrics, b: UsageMetrics) -> bool {
    a.spec_six_hour_pct() != b.spec_six_hour_pct() || a.spec_weekly_pct() != b.spec_weekly_pct()
}

/// The largest index of `h` whose metrics differ from `latest`, or -1 when
/// no sample differs.
pub open spec fn last_change_index(h: Seq<Sample>, latest: UsageMetrics) -> int
    decreases h.len(),
{
    if h.len() == 0 {
        -1
    } else if metrics_differ(h.last().metrics, latest) {
        h.len() - 1
    } else {
        last_change_index(h.drop_last(), latest)
    }
}

/// Idle time: `now` minus the timestamp of the most recent sample that
/// differs from the latest one in either field; `now` minus the oldest
/// timestamp when nothing ever differed; the infinite sentinel when fewer
/// than two samples exist.
pub open spec fn spec_time_since_any_change(h: Seq<Sample>, now: u64) -> u64 {
    if h.len() < 2 {
        u64::MAX
    } else {
        let k = last_change_index(h.drop_last(), h.last().metrics);
        if k >= 0 {
            now.saturating_sub(h[k].ts)
        } else {
            now.saturating_sub(h[0].ts)
        }
    }
}

proof fn lemma_window_values_constant(h: Seq<Sample>, cutoff: u64, field: MetricField, v: u8)
    requires
        forall|i: int| 0 <= i < h.len() ==> field_of(#[trigger] h[i].metrics, field) == v,
    ensures
        forall|k: int|
            0 <= k < window_values(h, cutoff, field).len() ==> window_values(h, cutoff, field)[k]
                == v,
    decreases h.len(),
{
    if h.len() > 0 {
        lemma_window_values_constant(h.drop_last(), cutoff, field, v);
        let rest = window_values(h.drop_last(), cutoff, field);
        assert(field_of(h[h.len() - 1].metrics, field) == v);
        let w = window_values(h, cutoff, field);
        assert forall|k: int| 0 <= k < w.len() implies w[k] == v by {
            if h.last().ts >= cutoff {
                assert(w == rest.push(v));
                if k < rest.len() {
                    assert(w[k] == rest[k]);
                }
            } else {
                assert(w == rest);
            }
        }
    }
}

proof fn lemma_momentum_total_constant(vals: Seq<u8>, v: u8, max_change: Option<u8>)
    requires
        forall|i: int| 0 <= i < vals.len() ==> vals[i] == v,
    ensures
        momentum_total(vals, max_change) == 0,
    decreases vals.len(),
{
    if vals.len() >= 2 {
        lemma_momentum_total_constant(vals.drop_last(), v, max_change);
    }
}

/// Law: a history whose samples all carry identical metrics (no change
/// across any two samples) has momentum zero over every window, for either
/// field and any cap.
pub proof fn lemma_no_change_zero_momentum(
    h: Seq<Sample>,
    cutoff: u64,
    field: MetricField,
    max_change: Option<u8>,
)
    requires
        forall|i: int| 0 <= i < h.len() ==> (#[trigger] h[i]).metrics == h[0].metrics,
    ensures
        spec_momentum(h, cutoff, field, max_change) == 0,
{
    if h.len() == 0 {
        assert(window_values(h, cutoff, field) =~= Seq::empty());
    } else {
        let v = field_of(h[0].metrics, field);
        lemma_window_values_constant(h, cutoff, field, v);
        lemma_momentum_total_constant(window_values(h, cutoff, field), v, max_change);
    }
}

/// Two-tier state detection. Tier 1, the recency gate: when both momenta
/// over the recency window are exactly zero, the state is Cold or Cool by
/// idle time alone. Tier 2 classifies severity over the context window, in
/// strict priority order.
pub open spec fn spec_detect_state(h: Seq<Sample>, now: u64, c: PollerConfig) -> TemperatureState {
    let recent_6h = spec_momentum(
        h,
        spec_cutoff(now, c.recency_window_secs),
        MetricField::SixHour,
        Some(10u8),
    );
    let recent_weekly = spec_momentum(
        h,
        spec_cutoff(now, c.recency_window_secs),
        MetricField::Weekly,
        None,
    );
    if recent_6h == 0 && recent_weekly == 0 {
        if spec_time_since_any_change(h, now) > c.idle_to_cold_secs {
            TemperatureState::Cold
        } else {
            TemperatureState::Cool
        }
    } else {
        let context_6h = spec_momentum(
            h,
            spec_cutoff(now, c.context_window_secs),
            MetricField::SixHour,
            Some(10u8),
        );
        let context_weekly = spec_momentum(
            h,
            spec_cutoff(now, c.context_window_secs),
            MetricField::Weekly,
            None,
        );
        let weekly_active_now = recent_weekly > 0;
        let six_hour_active_now = recent_6h >= c.six_hour_recent_threshold;
        let weekly_sustained = context_weekly >= c.weekly_sustained_threshold;
        let six_hour_sustained = context_6h >= c.six_hour_sustained_threshold;
        if weekly_active_now && six_hour_active_now {
            TemperatureState::Blazing
        } else if weekly_active_now || weekly_sustained {
            TemperatureState::Hot
        } else if six_hour_active_now && six_hour_sustained {
            TemperatureState::Warm
        } else {
            TemperatureState::Cool
        }
    }
}

/// Law (recency gate): when both momenta over the recency window are exactly
/// zero, the classified state is Cold precisely when the idle time exceeds
/// the idle-to-cold duration, and Cool otherwise — no further analysis
/// applies.
pub proof fn lemma_recency_gate(h: Seq<Sample>, now: u64, c: PollerConfig)
    requires
        spec_momentum(
            h,
            spec_cutoff(now, c.recency_window_secs),
            MetricField::SixHour,
            Some(10u8),
        ) == 0,
        spec_momentum(h, spec_cutoff(now, c.recency_window_secs), MetricField::Weekly, None) == 0,
    ensures
        spec_detect_state(h, now, c) == if spec_time_since_any_change(h, now)
            > c.idle_to_cold_secs {
            TemperatureState::Cold
        } else {
            TemperatureState::Cool
        },
{
}

/// The history after inserting a sample at `s.ts`: a sample already keyed by
/// the same timestamp is overwritten (last write wins).
pub open spec fn spec_upsert(h: Seq<Sample>, s: Sample) -> Seq<Sample> {
    if h.len() > 0 && h.last().ts == s.ts {
        h.drop_last().push(s)
    } else {
        h.push(s)
    }
}

/// The samples of `h` whose timestamp is at or after `cutoff`, in history
/// order: what an age-based trim retains.
pub open spec fn samples_in_window(h: Seq<Sample>, cutoff: u64) -> Seq<Sample>
    decreases h.len(),
{
    if h.len() == 0 {
        Seq::empty()
    } else {
        let rest = samples_in_window(h.drop_last(), cutoff);
        if h.last().ts >= cutoff {
            rest.push(h.last())
        } else {
            rest
        }
    }
}

/// Dropping a first sample that is older than the cutoff does not change the
/// windowed selection.
proof fn lemma_window_drop_first_low(h: Seq<Sample>, cutoff: u64)
    requires
        h.len() > 0,
        h[0].ts < cutoff,
    ensures
        samples_in_window(h, cutoff) == samples_in_window(h.drop_first(), cutoff),
    decreases h.len(),
{
    if h.len() == 1 {
        assert(samples_in_window(h.drop_last(), cutoff) =~= Seq::empty());
        assert(h.drop_first() =~= Seq::empty());
    } else {
        lemma_window_drop_first_low(h.drop_last(), cutoff);
        assert(h.drop_last().drop_first() =~= h.drop_first().drop_last());
        assert(h.drop_first().last() == h.last());
    }
}

/// When every sample is at or after the cutoff, the windowed selection is the
/// whole history.
proof fn lemma_window_all_kept(h: Seq<Sample>, cutoff: u64)
    requires
        forall|i: int| 0 <= i < h.len() ==> h[i].ts >= cutoff,
    ensures
        samples_in_window(h, cutoff) == h,
    decreases h.len(),
{
    if h.len() == 0 {
        assert(samples_in_window(h, cutoff) =~= h);
    } else {
        lemma_window_all_kept(h.drop_last(), cutoff);
        assert(samples_in_window(h, cutoff) =~= h);
    }
}

/// Retains a bounded, time-ordered history of timestamped metric samples.
pub struct TimeWindowedTracker {
    /// Time-ordered history of usage samples, oldest first.
    history: Vec<Sample>,
    max_history_duration_secs: u64,
}

impl TimeWindowedTracker {
    pub closed spec fn history(&self) -> Seq<Sample> {
        self.history@
    }

    pub closed spec fn spec_max_history(&self) -> u64 {
        self.max_history_duration_secs
    }

    pub open spec fn wf(&self) -> bool {
        sorted_strict(self.history())
    }

    pub fn new(max_duration_secs: u64) -> (r: Self)
        ensures
            r.history() == Seq::<Sample>::empty(),
            r.spec_max_history() == max_duration_secs,
            r.wf(),
    {
        Self { history: Vec::new(), max_history_duration_secs: max_duration_secs }
    }

    /// Insert (or overwrite) a sample at `now`, then drop every retained
    /// sample older than `now` minus the retention horizon.
    pub fn record_sample(&mut self, metrics: UsageMetrics, now: u64)
        requires
            old(self).wf(),
            old(self).history().len() > 0 ==> old(self).history().last().ts <= now,
        ensures
            final(self).history() == samples_in_window(
                spec_upsert(old(self).history(), Sample { ts: now, metrics }),
                spec_cutoff(now, old(self).spec_max_history()),
            ),
            final(self).spec_max_history() == old(self).spec_max_history(),
            final(self).history().len() > 0,
            final(self).history().last() == (Sample { ts: now, metrics }),
            final(self).wf(),
    {
        let sample = Sample { ts: now, metrics };
        let n = self.history.len();
        if n > 0 && self.history[n - 1].ts == now {
            self.history.pop();
        }
        self.history.push(sample);
        let ghost upserted = self.history@;
        proof {
            assert(upserted == spec_upsert(old(self).history(), sample));
            assert forall|i: int, j: int| 0 <= i < j < upserted.len() implies upserted[i].ts
                < upserted[j].ts by {
                if j + 1 == upserted.len() {
                    assert(upserted[i] == old(self).history()[i]);
                }
            }
            assert(sorted_strict(upserted));
        }
        let cutoff = now.saturating_sub(self.max_history_duration_secs);
        while self.history.len() > 0 && self.history[0].ts < cutoff
            invariant
                sorted_strict(self.history@),
                samples_in_window(self.history@, cutoff) == samples_in_window(upserted, cutoff),
                self.max_history_duration_secs == old(self).spec_max_history(),
                cutoff <= now,
                sample == (Sample { ts: now, metrics }),
                self.history@.len() > 0,
                self.history@.last() == sample,
            decreases self.history@.len(),
        {
            proof {
                lemma_window_drop_first_low(self.history@, cutoff);
                assert(self.history@.len() >= 2) by {
                    if self.history@.len() == 1 {
                        assert(self.history@.last() == self.history@[0]);
                    }
                }
            }
            let ghost before = self.history@;
            self.history.remove(0);
            proof {
                assert(self.history@ =~= before.drop_first());
            }
        }
        proof {
            assert forall|i: int| 0 <= i < self.history@.len() implies self.history@[i].ts
                >= cutoff by {
                if i > 0 {
                    assert(self.history@[0].ts < self.history@[i].ts);
                }
            }
            lemma_window_all_kept(self.history@, cutoff);
        }
    }

    /// Momentum of one metric field over the trailing `window_secs` before
    /// `now`: the sum of qualifying pairwise increases, saturated at 255.
    pub fn calculate_momentum(
        &self,
        window_secs: u64,
        now: u64,
        field: MetricField,
        max_change: Option<u8>,
    ) -> (momentum: u8)
        ensures
            momentum == spec_momentum(
                self.history(),
                spec_cutoff(now, window_secs),
                field,
                max_change,
            ),
    {
        let cutoff = now.saturating_sub(window_secs);
        let mut total: u8 = 0;
        let mut have_prev: bool = false;
        let mut prev: u8 = 0;
        let n = self.history.len();
        let mut i: usize = 0;
        while i < n
            invariant
                n == self.history@.len(),
                0 <= i <= n,
                cutoff == spec_cutoff(now, window_secs),
                have_prev <==> window_values(self.history@.take(i as int), cutoff, field).len()
                    > 0,
                have_prev ==> prev == window_values(
                    self.history@.take(i as int),
                    cutoff,
                    field,
                ).last(),
                ({
                    let t = momentum_total(
                        window_values(self.history@.take(i as int), cutoff, field),
                        max_change,
                    );
                    total == if t > 255 {
                        255int
                    } else {
                        t
                    }
                }),
            decreases n - i,
        {
            let s = self.history[i];
            let ghost pre = self.history@.take(i as int);
            let ghost post = self.history@.take(i + 1 as int);
            proof {
                assert(post.drop_last() =~= pre);
                assert(post.last() == self.history@[i as int]);
            }
            if s.ts >= cutoff {
                let v = match field {
                    MetricField::SixHour => s.metrics.six_hour_pct(),
                    MetricField::Weekly => s.metrics.weekly_pct(),
                };
                let ghost vals = window_values(pre, cutoff, field);
                proof {
                    assert(window_values(post, cutoff, field) == vals.push(v));
                }
                if have_prev {
                    proof {
                        assert(vals.push(v).drop_last() =~= vals);
                        assert(vals.push(v).last() == v);
                        assert(vals.push(v)[vals.push(v).len() - 2] == vals.last());
                        assert(momentum_total(vals.push(v), max_change) == momentum_total(
                            vals,
                            max_change,
                        ) + step_increase(prev, v, max_change));
                    }
                    if v > prev {
                        let change = v - prev;
                        let capped_ok = match max_change {
                            Some(cap) => change <= cap,
                            None => true,
                        };
                        if capped_ok {
                            total = total.saturating_add(change);
                        }
                    }
                } else {
                    proof {
                        assert(vals.push(v).len() == 1);
                        assert(momentum_total(vals.push(v), max_change) == 0);
                    }
                    have_prev = true;
                }
                prev = v;
            } else {
                proof {
                    assert(window_values(post, cutoff, field) == window_values(
                        pre,
                        cutoff,
                        field,
                    ));
                }
            }
            i = i + 1;
        }
        proof {
            assert(self.history@.take(n as int) =~= self.history@);
        }
        total
    }

    /// Momentum of the six-hour field, with single-step jumps above 10
    /// percentage points rejected as probable outliers.
    pub fn calculate_six_hour_momentum(&self, window_secs: u64, now: u64) -> (momentum: u8)
        ensures
            momentum == spec_momentum(
                self.history(),
                spec_cutoff(now, window_secs),
                MetricField::SixHour,
                Some(10u8),
            ),
    {
        self.calculate_momentum(window_secs, now, MetricField::SixHour, Some(10))
    }

    /// Momentum of the weekly field, uncapped: its increments are inherently
    /// small and slow-moving.
    pub fn calculate_weekly_momentum(&self, window_secs: u64, now: u64) -> (momentum: u8)
        ensures
            momentum == spec_momentum(
                self.history(),
                spec_cutoff(now, window_secs),
                MetricField::Weekly,
                None,
            ),
    {
        self.calculate_momentum(window_secs, now, MetricField::Weekly, None)
    }

    /// Time since the most recent sample whose metrics differ from the
    /// latest sample's, in either field.
    pub fn time_since_any_change(&self, now: u64) -> (r: u64)
        ensures
            r == spec_time_since_any_change(self.history(), now),
    {
        let n = self.history.len();
        if n < 2 {
            return u64::MAX;
        }
        let latest = self.history[n - 1];
        let ghost d = self.history@.drop_last();
        proof {
            assert(d =~= self.history@.take(n - 1));
        }
        let mut i: usize = n - 1;
        proof {
            assert(d.take((n - 1) as int) =~= d);
        }
        while i > 0
            invariant
                n == self.history@.len(),
                n >= 2,
                0 <= i <= n - 1,
                d == self.history@.drop_last(),
                latest == self.history@[n - 1],
                last_change_index(d.take(i as int), latest.metrics) == last_change_index(
                    d,
                    latest.metrics,
                ),
            decreases i,
        {
            i = i - 1;
            let s = self.history[i];
            let ghost dt = d.take(i + 1 as int);
            proof {
                assert(dt.last() == d[i as int]);
                assert(dt.drop_last() =~= d.take(i as int));
            }
            if s.metrics.six_hour_pct() != latest.metrics.six_hour_pct()
                || s.metrics.weekly_pct() != latest.metrics.weekly_pct() {
                proof {
                    assert(last_change_index(dt, latest.metrics) == i);
                }
                return now.saturating_sub(s.ts);
            }
            proof {
                assert(last_change_index(dt, latest.metrics) == last_change_index(
                    d.take(i as int),
                    latest.metrics,
                ));
            }
        }
        proof {
            assert(d.take(0) =~= Seq::<Sample>::empty());
            assert(last_change_index(d, latest.metrics) == -1);
        }
        let oldest = self.history[0];
        now.saturating_sub(oldest.ts)
    }

    /// Two-tier state detection: recency gate, then context analysis.
    pub fn detect_state(&self, now: u64, config: &PollerConfig) -> (state: TemperatureState)
        ensures
            state == spec_detect_state(self.history(), now, *config),
    {
        // TIER 1: Recency gate
        let recent_6h = self.calculate_six_hour_momentum(config.recency_window_secs, now);
        let recent_weekly = self.calculate_weekly_momentum(config.recency_window_secs, now);

        if recent_6h == 0 && recent_weekly == 0 {
            let idle_time = self.time_since_any_change(now);

            return if idle_time > config.idle_to_cold_secs {
                TemperatureState::Cold
            } else {
                TemperatureState::Cool
            };
        }
        // TIER 2: Recent activity detected - classify severity using context
        let context_6h = self.calculate_six_hour_momentum(config.context_window_secs, now);
        let context_weekly = self.calculate_weekly_momentum(config.context_window_secs, now);

        let weekly_active_now = recent_weekly > 0;
        let six_hour_active_now = recent_6h >= config.six_hour_recent_threshold;
        let weekly_sustained = context_weekly >= config.weekly_sustained_threshold;
        let six_hour_sustained = context_6h >= config.six_hour_sustained_threshold;

        if weekly_active_now && six_hour_active_now {
            TemperatureState::Blazing
        } else if weekly_active_now || weekly_sustained {
            TemperatureState::Hot
        } else if six_hour_active_now && six_hour_sustained {
            TemperatureState::Warm
        } else {
            TemperatureState::Cool
        }
    }
}

} // verus!
