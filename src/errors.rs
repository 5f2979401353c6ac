//! The failure kinds shared by every backend, and how each is shown to callers.

use vstd::prelude::*;

verus! {

/// Every way an orchestration call can fail.
#[derive(Debug, Clone, PartialEq, Eq)]
pub enum ModelError {
    /// The requested model name has no registered backend.
    ModelNotFound,
    /// The backend failed in transport or on its side, or answered malformed.
    UpstreamModelError,
    /// A turn of the history has a prompt over the per-field limit; the count
    /// is the number of turns from that one back to the oldest.
    HistoryPromptTooLong(u64),
    /// The backend throttled the call; retry after this many milliseconds.
    RateLimitExceeded(u64),
    /// The prompt is over the per-field limit.
    PromptTooLong,
    /// The system text is over the per-field limit.
    SystemTooLong,
    /// Any other failure, with a message.
    Other(String),
}

/// What a `ModelError` holds, with the message of `Other` as its characters.
pub enum ErrorView {
    ModelNotFound,
    UpstreamModelError,
    HistoryPromptTooLong(u64),
    RateLimitExceeded(u64),
    PromptTooLong,
    SystemTooLong,
    Other(Seq<char>),
}

impl View for ModelError {
    type V = ErrorView;

    open spec fn view(&self) -> ErrorView {
        match *self {
            ModelError::ModelNotFound => ErrorView::ModelNotFound,
            ModelError::UpstreamModelError => ErrorView::UpstreamModelError,
            ModelError::HistoryPromptTooLong(n) => ErrorView::HistoryPromptTooLong(n),
            ModelError::RateLimitExceeded(n) => ErrorView::RateLimitExceeded(n),
            ModelError::PromptTooLong => ErrorView::PromptTooLong,
            ModelError::SystemTooLong => ErrorView::SystemTooLong,
            ModelError::Other(m) => ErrorView::Other(m@),
        }
    }
}

/// Body of an error reply: the reason, and for throttling the time to wait
/// before retrying, in milliseconds.
#[derive(Debug, Clone)]
pub struct ErrorResponse {
    pub error: String,
    pub retry_after_ms: Option<u64>,
}

/// Status code shown for each kind: not found, unprocessable input,
/// too many requests, or server error.
pub open spec fn status_of(e: ModelError) -> u16 {
    match e {
        ModelError::ModelNotFound => 404,
        ModelError::HistoryPromptTooLong(_) => 422,
        ModelError::PromptTooLong => 422,
        ModelError::SystemTooLong => 422,
        ModelError::RateLimitExceeded(_) => 429,
        ModelError::UpstreamModelError => 500,
        ModelError::Other(_) => 500,
    }
}

/// Short reason shown for each kind.
pub open spec fn reason_of(e: ModelError) -> Seq<char> {
    match e {
        ModelError::ModelNotFound => "Model not found"@,
        ModelError::HistoryPromptTooLong(_) => "Historical prompt too long"@,
        ModelError::PromptTooLong => "Prompt too long"@,
        ModelError::SystemTooLong => "System prompt too long"@,
        ModelError::RateLimitExceeded(_) => "Rate limit exceeded"@,
        ModelError::UpstreamModelError => "Upstream model error"@,
        ModelError::Other(_) => "Other error"@,
    }
}

impl ModelError {
    /// A copy of this error.
    pub fn duplicate(&self) -> (r: ModelError)
        ensures
            r == *self,
    {
        match self {
            ModelError::ModelNotFound => ModelError::ModelNotFound,
            ModelError::UpstreamModelError => ModelError::UpstreamModelError,
            ModelError::HistoryPromptTooLong(n) => ModelError::HistoryPromptTooLong(*n),
            ModelError::RateLimitExceeded(n) => ModelError::RateLimitExceeded(*n),
            ModelError::PromptTooLong => ModelError::PromptTooLong,
            ModelError::SystemTooLong => ModelError::SystemTooLong,
            ModelError::Other(m) => ModelError::Other(m.clone()),
        }
    }

    /// The status code under which this error is shown.
    pub fn status_code(&self) -> (r: u16)
        ensures
            r == status_of(*self),
    {
        match self {
            ModelError::ModelNotFound => 404,
            ModelError::HistoryPromptTooLong(_) => 422,
            ModelError::PromptTooLong => 422,
            ModelError::SystemTooLong => 422,
            ModelError::RateLimitExceeded(_) => 429,
            ModelError::UpstreamModelError => 500,
            ModelError::Other(_) => 500,
        }
    }

    /// The retry hint in milliseconds, carried by throttling alone.
    pub fn retry_after_ms(&self) -> (r: Option<u64>)
        ensures
            r == (match *self {
                ModelError::RateLimitExceeded(ms) => Some(ms),
                _ => None,
            }),
    {
        match self {
            ModelError::RateLimitExceeded(ms) => Some(*ms),
            _ => None,
        }
    }

    /// The body shown for this error; throttling carries its retry hint.
    pub fn error_response(&self) -> (r: ErrorResponse)
        ensures
            r.error@ == reason_of(*self),
            r.retry_after_ms == (match *self {
                ModelError::RateLimitExceeded(ms) => Some(ms),
                _ => None,
            }),
    {
        let reason: &str = match self {
            ModelError::ModelNotFound => "Model not found",
            ModelError::HistoryPromptTooLong(_) => "Historical prompt too long",
            ModelError::PromptTooLong => "Prompt too long",
            ModelError::SystemTooLong => "System prompt too long",
            ModelError::RateLimitExceeded(_) => "Rate limit exceeded",
            ModelError::UpstreamModelError => "Upstream model error",
            ModelError::Other(_) => "Other error",
        };
        ErrorResponse { error: String::from_str(reason), retry_after_ms: self.retry_after_ms() }
    }
}

} // verus!
