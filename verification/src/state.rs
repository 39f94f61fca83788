//! The application's data state: last-known-good fetch and current error.

use vstd::prelude::*;

use crate::error::FetchError;
use crate::metrics::UsageMetrics;

verus! {

/// A successful fetch: the metrics it yielded and when it happened, in whole
/// seconds on the caller's clock.
#[derive(Debug, Clone)]
pub struct SuccessfulFetch {
    pub metrics: UsageMetrics,
    pub timestamp_secs: u64,
}

/// The application's data state, with error tracking and last-known-good
/// support.
#[derive(Debug, Clone)]
pub struct AppState {
    /// Last successfully fetched data (None if never succeeded)
    pub last_success: Option<SuccessfulFetch>,
    /// Current error state (None if no active error)
    pub current_error: Option<FetchError>,
}

impl AppState {
    pub fn new() -> (r: Self)
        ensures
            r.last_success is None,
            r.current_error is None,
    {
        Self { last_success: None, current_error: None }
    }

    /// Record a successful fetch at `now_secs`: it becomes the last known
    /// good data and clears any active error.
    pub fn update_success(&mut self, metrics: UsageMetrics, now_secs: u64)
        ensures
            final(self).last_success matches Some(s) && s.metrics == metrics && s.timestamp_secs
                == now_secs,
            final(self).current_error is None,
    {
        self.last_success = Some(SuccessfulFetch { metrics, timestamp_secs: now_secs });
        self.current_error = None;
    }

    /// Record a failed fetch; the last known good data is kept.
    pub fn update_error(&mut self, error: FetchError)
        ensures
            final(self).current_error == Some(error),
            final(self).last_success == old(self).last_success,
    {
        self.current_error = Some(error);
    }

    /// Whether the last known good data is older than the threshold; never
    /// stale without any successful fetch, nor when the clock reads earlier
    /// than the fetch.
    pub fn is_stale(&self, now_secs: u64, threshold_secs: u64) -> (r: bool)
        ensures
            r == match self.last_success {
                Some(s) => now_secs >= s.timestamp_secs && now_secs - s.timestamp_secs
                    > threshold_secs,
                None => false,
            },
    {
        match &self.last_success {
            Some(s) => now_secs >= s.timestamp_secs && now_secs - s.timestamp_secs
                > threshold_secs,
            None => false,
        }
    }
}

impl Default for AppState {
    fn default() -> (r: Self)
        ensures
            r.last_success is None,
            r.current_error is None,
    {
        Self { last_success: None, current_error: None }
    }
}

} // verus!
