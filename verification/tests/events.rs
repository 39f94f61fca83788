use usage_poller::events::{PollAction, SystemEvent};

#[test]
fn events_test_recommended_actions() {
    assert_eq!(
        SystemEvent::UserLogin.recommended_action(),
        PollAction::FetchImmediately
    );
    assert_eq!(
        SystemEvent::UserLogout.recommended_action(),
        PollAction::Pause
    );
    assert_eq!(
        SystemEvent::UserActive.recommended_action(),
        PollAction::Continue
    );
}

#[test]
fn events_test_state_classification() {
    assert!(SystemEvent::UserLogin.is_active_state());
    assert!(SystemEvent::UserLogout.is_inactive_state());
    assert!(!SystemEvent::UserActive.is_active_state());
    assert!(!SystemEvent::UserActive.is_inactive_state());
}

#[test]
fn system_events_test_recommended_actions() {
    assert_eq!(
        SystemEvent::UserLogin.recommended_action(),
        PollAction::FetchImmediately
    );
    assert_eq!(
        SystemEvent::UserLogout.recommended_action(),
        PollAction::Pause
    );
    assert_eq!(
        SystemEvent::UserActive.recommended_action(),
        PollAction::Continue
    );
}

#[test]
fn system_events_test_state_classification() {
    assert!(SystemEvent::UserLogin.is_active_state());
    assert!(SystemEvent::UserLogout.is_inactive_state());
    assert!(!SystemEvent::UserActive.is_active_state());
    assert!(!SystemEvent::UserActive.is_inactive_state());
}

#[test]
fn events_remaining_actions() {
    assert_eq!(
        SystemEvent::SystemWake.recommended_action(),
        PollAction::FetchImmediately
    );
    assert_eq!(
        SystemEvent::ScreenOn.recommended_action(),
        PollAction::FetchImmediately
    );
    assert_eq!(
        SystemEvent::SystemSleep.recommended_action(),
        PollAction::Pause
    );
    assert_eq!(
        SystemEvent::ScreenOff.recommended_action(),
        PollAction::Pause
    );
    assert_eq!(
        SystemEvent::UserIdle { duration_secs: 90 }.recommended_action(),
        PollAction::Continue
    );
    assert!(SystemEvent::SystemSleep.is_inactive_state());
    assert!(SystemEvent::ScreenOff.is_inactive_state());
    assert!(SystemEvent::SystemWake.is_active_state());
    assert!(SystemEvent::ScreenOn.is_active_state());
    assert!(!SystemEvent::UserIdle { duration_secs: 90 }.is_active_state());
    assert!(!SystemEvent::UserIdle { duration_secs: 90 }.is_inactive_state());
}
