//! How a backend's answer is classified into the error taxonomy.

use vstd::prelude::*;
use crate::errors::ModelError;

verus! {

/// Retry hint given when a backend throttles without saying for how long.
pub const DEFAULT_RETRY_AFTER_MS: u64 = 1000;

/// The error for a backend's HTTP status: server errors and client errors
/// are upstream errors, except 429, which is throttling. `None` when the
/// body is to be read.
pub open spec fn status_error(status: u16) -> Option<ModelError> {
    if 500 <= status <= 599 {
        Some(ModelError::UpstreamModelError)
    } else if status == 429 {
        Some(ModelError::RateLimitExceeded(DEFAULT_RETRY_AFTER_MS))
    } else if 400 <= status <= 499 {
        Some(ModelError::UpstreamModelError)
    } else {
        None
    }
}

/// Classifies a backend's HTTP status.
pub fn classify_status(status: u16) -> (r: Option<ModelError>)
    ensures
        r == status_error(status),
{
    if 500 <= status && status <= 599 {
        Some(ModelError::UpstreamModelError)
    } else if status == 429 {
        Some(ModelError::RateLimitExceeded(DEFAULT_RETRY_AFTER_MS))
    } else if 400 <= status && status <= 499 {
        Some(ModelError::UpstreamModelError)
    } else {
        None
    }
}

/// The credential a backend needs, or `Other("Missing Auth")` without one.
pub fn require_secret(secret: Option<String>) -> (r: Result<String, ModelError>)
    ensures
        match secret {
            Some(s) => r == Ok::<String, ModelError>(s),
            None => r matches Err(ModelError::Other(m)) && m@ == "Missing Auth"@,
        },
{
    match secret {
        Some(s) => Ok(s),
        None => Err(ModelError::Other(String::from_str("Missing Auth"))),
    }
}

/// The last of the generations a backend returned; an upstream error when
/// it returned none.
pub fn last_generation(texts: Vec<String>) -> (r: Result<String, ModelError>)
    ensures
        texts@.len() == 0 ==> r == Err::<String, ModelError>(ModelError::UpstreamModelError),
        texts@.len() > 0 ==> r == Ok::<String, ModelError>(texts@.last()),
{
    let mut texts = texts;
    match texts.pop() {
        Some(t) => Ok(t),
        None => Err(ModelError::UpstreamModelError),
    }
}

} // verus!
