//! Cross-platform system events for adaptive polling behavior.
//!
//! Platform-specific event detection and listening is implemented
//! separately. This enum provides a unified interface for system state
//! changes that affect polling behavior.

use vstd::prelude::*;

verus! {

/// A system state change that affects polling.
#[derive(Debug, Clone, Copy, PartialEq, Eq, Structural)]
pub enum SystemEvent {
    /// User logged into the system
    UserLogin,
    /// User logged out of the system
    UserLogout,
    /// Screen/display turned on
    ScreenOn,
    /// Screen/display turned off
    ScreenOff,
    /// User actively using the system (keyboard/mouse input)
    UserActive,
    /// User has been idle for the given duration
    UserIdle { duration_secs: u64 },
    /// System entering sleep/suspend state
    SystemSleep,
    /// System waking from sleep/suspend
    SystemWake,
}

/// Action to take in response to a system event.
#[derive(Debug, Clone, Copy, PartialEq, Eq, Structural)]
pub enum PollAction {
    /// Immediately fetch usage data (skip waiting for next interval)
    FetchImmediately,
    /// Pause all polling until further notice
    Pause,
    /// Continue normal polling behavior
    Continue,
}

impl SystemEvent {
    /// Events that begin an active session fetch immediately, events that
    /// end one pause polling, and activity/idle events change nothing.
    pub open spec fn spec_recommended_action(&self) -> PollAction {
        match self {
            SystemEvent::UserLogin | SystemEvent::SystemWake | SystemEvent::ScreenOn => {
                PollAction::FetchImmediately
            },
            SystemEvent::UserLogout | SystemEvent::SystemSleep | SystemEvent::ScreenOff => {
                PollAction::Pause
            },
            SystemEvent::UserActive | SystemEvent::UserIdle { .. } => PollAction::Continue,
        }
    }

    /// Determine what action should be taken for this event.
    pub fn recommended_action(&self) -> (action: PollAction)
        ensures
            action == self.spec_recommended_action(),
    {
        match self {
            SystemEvent::UserLogin | SystemEvent::SystemWake | SystemEvent::ScreenOn => {
                PollAction::FetchImmediately
            },
            SystemEvent::UserLogout | SystemEvent::SystemSleep | SystemEvent::ScreenOff => {
                PollAction::Pause
            },
            SystemEvent::UserActive | SystemEvent::UserIdle { .. } => PollAction::Continue,
        }
    }

    /// Check if this event indicates the system is entering an inactive
    /// state.
    pub fn is_inactive_state(&self) -> (r: bool)
        ensures
            r == (self matches SystemEvent::UserLogout || self matches SystemEvent::SystemSleep
                || self matches SystemEvent::ScreenOff),
    {
        matches!(
            self,
            SystemEvent::UserLogout | SystemEvent::SystemSleep | SystemEvent::ScreenOff
        )
    }

    /// Check if this event indicates the system is entering an active state.
    pub fn is_active_state(&self) -> (r: bool)
        ensures
            r == (self matches SystemEvent::UserLogin || self matches SystemEvent::SystemWake
                || self matches SystemEvent::ScreenOn),
    {
        matches!(self, SystemEvent::UserLogin | SystemEvent::SystemWake | SystemEvent::ScreenOn)
    }
}

} // verus!
