//! Bounded usage metrics: a pair of integer percentages, validated at
//! construction and immutable afterwards.

use vstd::prelude::*;

verus! {

/// Usage metrics with 1% resolution: a short-observation-window percentage
/// and a long-observation-window percentage, both in `0..=100`.
#[derive(Debug, Clone, Copy, PartialEq, Eq, Structural)]
pub struct UsageMetrics {
    six_hour_pct: u8,
    weekly_pct: u8,
}

/// Error returned when a metrics value is outside `0..=100`; it carries the
/// offending field and value.
#[derive(Debug, Clone, Copy, PartialEq, Eq, Structural)]
pub enum UsageMetricsError {
    SixHourOutOfRange(u8),
    WeeklyOutOfRange(u8),
}

impl UsageMetrics {
    /// Both percentages are within `0..=100`.
    pub open spec fn wf(self) -> bool {
        self.spec_six_hour_pct() <= 100 && self.spec_weekly_pct() <= 100
    }

    pub closed spec fn spec_six_hour_pct(&self) -> u8 {
        self.six_hour_pct
    }

    pub closed spec fn spec_weekly_pct(&self) -> u8 {
        self.weekly_pct
    }

    /// Create new metrics, rejecting either percentage above 100 with an
    /// error naming the offending field (the six-hour field is reported
    /// first when both are out of range).
    pub fn try_new(six_hour_pct: u8, weekly_pct: u8) -> (r: Result<Self, UsageMetricsError>)
        ensures
            six_hour_pct > 100 ==> r == Result::<Self, UsageMetricsError>::Err(
                UsageMetricsError::SixHourOutOfRange(six_hour_pct),
            ),
            six_hour_pct <= 100 && weekly_pct > 100 ==> r == Result::<
                Self,
                UsageMetricsError,
            >::Err(UsageMetricsError::WeeklyOutOfRange(weekly_pct)),
            six_hour_pct <= 100 && weekly_pct <= 100 ==> (r matches Ok(m)
                && m.spec_six_hour_pct() == six_hour_pct && m.spec_weekly_pct() == weekly_pct
                && m.wf()),
    {
        if six_hour_pct > 100 {
            return Err(UsageMetricsError::SixHourOutOfRange(six_hour_pct));
        }
        if weekly_pct > 100 {
            return Err(UsageMetricsError::WeeklyOutOfRange(weekly_pct));
        }
        Ok(Self { six_hour_pct, weekly_pct })
    }

    /// Create new metrics from already-validated percentages; out-of-range
    /// input is a caller error and is excluded by precondition.
    pub fn new(six_hour_pct: u8, weekly_pct: u8) -> (r: Self)
        requires
            six_hour_pct <= 100,
            weekly_pct <= 100,
        ensures
            r.spec_six_hour_pct() == six_hour_pct,
            r.spec_weekly_pct() == weekly_pct,
            r.wf(),
    {
        Self { six_hour_pct, weekly_pct }
    }

    #[verifier::when_used_as_spec(spec_six_hour_pct)]
    pub fn six_hour_pct(&self) -> (r: u8)
        ensures
            r == self.spec_six_hour_pct(),
    {
        self.six_hour_pct
    }

    #[verifier::when_used_as_spec(spec_weekly_pct)]
    pub fn weekly_pct(&self) -> (r: u8)
        ensures
            r == self.spec_weekly_pct(),
    {
        self.weekly_pct
    }
}

} // verus!
