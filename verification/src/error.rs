//! Classified fetch failures, their transience, and the visual indicator
//! they map to.

use vstd::prelude::*;

use crate::text::{contains_seq, contains_str};

verus! {

/// A failure reported by the fetch collaborator.
#[derive(Debug, Clone)]
pub enum FetchError {
    Network(String),
    Parse(String),
    Auth(String),
    RateLimited { message: String, retry_after: Option<u64> },
}

/// What `str::to_lowercase` returns for a string with these characters.
pub uninterp spec fn lower_of(s: Seq<char>) -> Seq<char>;

/// Relies on str::to_lowercase: the result is a function of the characters
/// alone.
#[verifier::external_body]
fn to_lowercase(s: &str) -> (r: String)
    ensures
        r@ == lower_of(s@),
{
    s.to_lowercase()
}

/// The denylist of message substrings that mark a network failure as a
/// configuration-class (non-transient) one: certificate/SSL/TLS trouble, DNS
/// resolution, malformed or invalid URLs, invalid headers.
pub open spec fn spec_matches_denylist(s: Seq<char>) -> bool {
    ||| contains_seq(s, "certificate"@)
    ||| contains_seq(s, "cert"@)
    ||| contains_seq(s, "ssl"@)
    ||| contains_seq(s, "tls"@)
    ||| contains_seq(s, "dns"@)
    ||| contains_seq(s, "invalid url"@)
    ||| contains_seq(s, "malformed"@)
    ||| contains_seq(s, "invalid header"@)
}

/// Whether an already-lowercased message matches the non-transient denylist.
pub fn matches_denylist(s: &str) -> (m: bool)
    ensures
        m == spec_matches_denylist(s@),
{
    contains_str(s, "certificate") || contains_str(s, "cert") || contains_str(s, "ssl")
        || contains_str(s, "tls") || contains_str(s, "dns") || contains_str(s, "invalid url")
        || contains_str(s, "malformed") || contains_str(s, "invalid header")
}

impl FetchError {
    /// Transient failures are worth retrying with backoff: rate limits and
    /// network failures whose lowercased message avoids the denylist. Auth
    /// and parse failures are not transient.
    pub open spec fn spec_is_transient(&self) -> bool {
        match self {
            FetchError::Network(msg) => !spec_matches_denylist(lower_of(msg@)),
            FetchError::RateLimited { .. } => true,
            FetchError::Auth(_) => false,
            FetchError::Parse(_) => false,
        }
    }

    /// Returns true if the error is transient and should be retried.
    pub fn is_transient(&self) -> (r: bool)
        ensures
            r == self.spec_is_transient(),
    {
        match self {
            FetchError::Network(msg) => {
                let lowered = to_lowercase(msg.as_str());
                !matches_denylist(lowered.as_str())
            },
            FetchError::RateLimited { .. } => true,
            FetchError::Auth(_) => false,
            FetchError::Parse(_) => false,
        }
    }

    /// The user-facing category label of each failure kind.
    pub open spec fn spec_category(&self) -> Seq<char> {
        match self {
            FetchError::Network(_) => "Offline"@,
            FetchError::RateLimited { .. } => "Rate Limited"@,
            FetchError::Auth(_) => "Authentication Error"@,
            FetchError::Parse(_) => "Parse Error"@,
        }
    }

    /// Get a user-friendly error category for display.
    pub fn category(&self) -> (r: &'static str)
        ensures
            r@ == self.spec_category(),
    {
        match self {
            FetchError::Network(_) => "Offline",
            FetchError::RateLimited { .. } => "Rate Limited",
            FetchError::Auth(_) => "Authentication Error",
            FetchError::Parse(_) => "Parse Error",
        }
    }
}

/// The failure category an HTTP response status maps to.
#[derive(Debug, Clone, Copy, PartialEq, Eq, Structural)]
pub enum HttpStatusClass {
    /// A 2xx status: the body is usage data.
    Success,
    /// 429: the endpoint asked for restraint.
    RateLimited,
    /// 401 or 403: authentication or authorization failed.
    AuthError,
    /// Anything else (5xx and the rest): treated as a network-class failure.
    ServerError,
}

pub open spec fn spec_classify_status(status: u16) -> HttpStatusClass {
    if 200 <= status < 300 {
        HttpStatusClass::Success
    } else if status == 429 {
        HttpStatusClass::RateLimited
    } else if status == 401 || status == 403 {
        HttpStatusClass::AuthError
    } else {
        HttpStatusClass::ServerError
    }
}

/// Which failure kind an HTTP response status yields: 2xx carries data, 429
/// is a rate limit, 401/403 are authentication errors, and everything else
/// counts as a transient server/network failure.
pub fn classify_status(status: u16) -> (r: HttpStatusClass)
    ensures
        r == spec_classify_status(status),
{
    if 200 <= status && status < 300 {
        HttpStatusClass::Success
    } else if status == 429 {
        HttpStatusClass::RateLimited
    } else if status == 401 || status == 403 {
        HttpStatusClass::AuthError
    } else {
        HttpStatusClass::ServerError
    }
}

/// Error indicator for visual feedback: which border, if any, an icon gets.
#[derive(Debug, Clone, Copy, PartialEq, Eq, Structural)]
pub enum ErrorIndicator {
    NoError,
    /// Gray border - network/transient errors
    Offline,
    /// Yellow border - authentication (and parse) failures
    AuthError,
    /// Orange border - rate limiting
    RateLimited,
}

impl ErrorIndicator {
    pub open spec fn spec_from_error(error: Option<&FetchError>) -> ErrorIndicator {
        match error {
            Option::None => ErrorIndicator::NoError,
            Option::Some(e) => match e {
                FetchError::Network(_) => ErrorIndicator::Offline,
                FetchError::Auth(_) => ErrorIndicator::AuthError,
                FetchError::RateLimited { .. } => ErrorIndicator::RateLimited,
                FetchError::Parse(_) => ErrorIndicator::AuthError,
            },
        }
    }

    pub fn from_error(error: Option<&FetchError>) -> (r: Self)
        ensures
            r == Self::spec_from_error(error),
    {
        match error {
            Option::None => ErrorIndicator::NoError,
            Option::Some(FetchError::Network(_)) => ErrorIndicator::Offline,
            Option::Some(FetchError::Auth(_)) => ErrorIndicator::AuthError,
            Option::Some(FetchError::RateLimited { .. }) => ErrorIndicator::RateLimited,
            Option::Some(FetchError::Parse(_)) => ErrorIndicator::AuthError,
        }
    }

    /// The RGB border color drawn for this indicator; no border when there
    /// is no error.
    pub fn border_color(&self) -> (r: Option<[u8; 3]>)
        ensures
            match self {
                ErrorIndicator::NoError => r is None,
                ErrorIndicator::Offline => r matches Some(c) && c[0] == 128 && c[1] == 128 && c[2]
                    == 128,
                ErrorIndicator::AuthError => r matches Some(c) && c[0] == 255 && c[1] == 193 && c[2]
                    == 7,
                ErrorIndicator::RateLimited => r matches Some(c) && c[0] == 255 && c[1] == 152
                    && c[2] == 0,
            },
    {
        match self {
            ErrorIndicator::NoError => None,
            ErrorIndicator::Offline => Some([128, 128, 128]),
            ErrorIndicator::AuthError => Some([255, 193, 7]),
            ErrorIndicator::RateLimited => Some([255, 152, 0]),
        }
    }
}

} // verus!
