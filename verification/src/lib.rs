//! Adaptive polling controller for a remote usage-reporting endpoint.
//!
//! The crate decides how frequently to poll: it tracks a time-windowed
//! history of usage samples, derives "momentum" (net positive movement) from
//! it, classifies the current activity level into a temperature state, and
//! adjusts the polling interval with additive-increase / multiplicative-
//! decrease rules plus exponential smoothing. An independent retry controller
//! turns classified fetch failures into backoff delays.

pub mod config;
pub mod error;
pub mod events;
pub mod metrics;
pub mod poller;
pub mod retry;
pub mod state;
pub mod text;
pub mod tracker;

pub use config::PollerConfig;
pub use error::{ErrorIndicator, FetchError};
pub use events::{PollAction, SystemEvent};
pub use metrics::{UsageMetrics, UsageMetricsError};
pub use poller::AdaptivePoller;
pub use retry::{RetryConfig, RetryState};
pub use state::AppState;
pub use tracker::{TemperatureState, TimeWindowedTracker};
