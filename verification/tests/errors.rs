use usage_poller::error::{classify_status, ErrorIndicator, FetchError, HttpStatusClass};

#[test]
fn test_fetch_error_properties() {
    let cases: Vec<(FetchError, bool, &str)> = vec![
        (
            FetchError::Network("Connection failed".to_string()),
            true,
            "Offline",
        ),
        (
            FetchError::Auth("Invalid credentials".to_string()),
            false,
            "Authentication Error",
        ),
        (
            FetchError::RateLimited {
                message: "Too many requests".to_string(),
                retry_after: Some(60),
            },
            true,
            "Rate Limited",
        ),
        (
            FetchError::Parse("Invalid JSON".to_string()),
            false,
            "Parse Error",
        ),
    ];
    for (error, expected_transient, expected_category) in cases {
        assert!(error.is_transient() == expected_transient);
        assert!(error.category() == expected_category);
    }
}

#[test]
fn test_network_denylist_non_transient() {
    // Configuration-class network failures are not retried.
    for msg in [
        "certificate verify failed",
        "bad cert chain",
        "SSL handshake failure",
        "TLS alert received",
        "DNS resolution failed",
        "invalid URL scheme",
        "malformed request",
        "invalid header value",
    ] {
        let error = FetchError::Network(msg.to_string());
        assert!(!error.is_transient(), "{msg} should be non-transient");
    }
}

#[test]
fn test_network_denylist_is_case_insensitive() {
    // The match runs on the lowercased message, so shouting still counts.
    let error = FetchError::Network("CERTIFICATE ERROR".to_string());
    assert!(!error.is_transient());
    let error = FetchError::Network("Tls HandShake".to_string());
    assert!(!error.is_transient());
}

#[test]
fn test_generic_network_failures_are_transient() {
    for msg in ["connection refused", "timed out", "Offline", ""] {
        let error = FetchError::Network(msg.to_string());
        assert!(error.is_transient(), "{msg} should be transient");
    }
}

#[test]
fn test_error_indicator_from_error() {
    assert_eq!(ErrorIndicator::from_error(None), ErrorIndicator::NoError);
    assert_eq!(
        ErrorIndicator::from_error(Some(&FetchError::Network("x".to_string()))),
        ErrorIndicator::Offline
    );
    assert_eq!(
        ErrorIndicator::from_error(Some(&FetchError::Auth("x".to_string()))),
        ErrorIndicator::AuthError
    );
    assert_eq!(
        ErrorIndicator::from_error(Some(&FetchError::Parse("x".to_string()))),
        ErrorIndicator::AuthError
    );
    assert_eq!(
        ErrorIndicator::from_error(Some(&FetchError::RateLimited {
            message: "x".to_string(),
            retry_after: None,
        })),
        ErrorIndicator::RateLimited
    );
}

#[test]
fn test_border_colors() {
    assert_eq!(ErrorIndicator::NoError.border_color(), None);
    assert_eq!(ErrorIndicator::Offline.border_color(), Some([128, 128, 128]));
    assert_eq!(ErrorIndicator::AuthError.border_color(), Some([255, 193, 7]));
    assert_eq!(
        ErrorIndicator::RateLimited.border_color(),
        Some([255, 152, 0])
    );
}

#[test]
fn test_classify_status() {
    assert_eq!(classify_status(200), HttpStatusClass::Success);
    assert_eq!(classify_status(204), HttpStatusClass::Success);
    assert_eq!(classify_status(299), HttpStatusClass::Success);
    assert_eq!(classify_status(429), HttpStatusClass::RateLimited);
    assert_eq!(classify_status(401), HttpStatusClass::AuthError);
    assert_eq!(classify_status(403), HttpStatusClass::AuthError);
    assert_eq!(classify_status(404), HttpStatusClass::ServerError);
    assert_eq!(classify_status(500), HttpStatusClass::ServerError);
    assert_eq!(classify_status(502), HttpStatusClass::ServerError);
    assert_eq!(classify_status(100), HttpStatusClass::ServerError);
}
