use vstd::prelude::*;

verus! {

/// A classified failure of a fetch attempt or of an extraction step.
///
/// Fetch outcomes fall into retryable classes (transport trouble, rate
/// limiting, server errors) and permanent ones (client errors and bodies so
/// short that a block or challenge page is suspected). Selector failures are
/// local to one field or one pattern table.
#[derive(Clone, Copy, Debug, PartialEq, Eq, Structural)]
pub enum ScrapeError {
    /// Network failure or timeout; retryable.
    TransportFailure,
    /// HTTP 429; retryable, and the next attempt should use a fresh proxy.
    RateLimited,
    /// HTTP 5xx; retryable. Carries the status code.
    ServerFailure(u16),
    /// HTTP 4xx other than 429; permanent. Carries the status code.
    ClientFailure(u16),
    /// A success status whose body length fell below the block-detection
    /// threshold; permanent. Carries the observed body length.
    ContentTooShort(usize),
    /// No candidate pattern matched; local to one field.
    SelectorExhausted,
    /// A malformed pattern in a static table; reported when tables are
    /// validated at startup.
    SelectorInvalid,
}

impl ScrapeError {
    /// Whether a fetch attempt that ended in this error may be retried.
    pub open spec fn spec_is_retryable(self) -> bool {
        match self {
            ScrapeError::TransportFailure => true,
            ScrapeError::RateLimited => true,
            ScrapeError::ServerFailure(_) => true,
            _ => false,
        }
    }

    pub fn is_retryable(&self) -> (r: bool)
        ensures
            r == self.spec_is_retryable(),
    {
        match self {
            ScrapeError::TransportFailure => true,
            ScrapeError::RateLimited => true,
            ScrapeError::ServerFailure(_) => true,
            _ => false,
        }
    }

    /// Whether the next attempt should rotate to a new proxy first.
    pub open spec fn spec_wants_proxy_rotation(self) -> bool {
        self is RateLimited
    }

    pub fn wants_proxy_rotation(&self) -> (r: bool)
        ensures
            r == self.spec_wants_proxy_rotation(),
    {
        match self {
            ScrapeError::RateLimited => true,
            _ => false,
        }
    }
}

} // verus!
