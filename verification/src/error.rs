use vstd::prelude::*;

verus! {

/// Errors reported by the contract logic in this crate.
#[derive(Clone, Copy, Debug, PartialEq, Eq, Structural)]
pub enum Error {
    /// The caller is not allowed to perform the action.
    Unauthorized,
    /// The market is still open (or not yet ended) for this operation.
    MarketClosed,
    /// The market already has a result.
    MarketResolved,
    /// The market has no winning outcomes yet.
    MarketNotResolved,
    /// The outcome is not one of the market's outcomes.
    InvalidOutcome,
    /// An argument or a stored value is out of range.
    InvalidInput,
    /// The market is in a state that forbids the operation.
    InvalidState,
    /// No oracle result is available.
    OracleUnavailable,
    /// Both the primary and the fallback oracle failed.
    FallbackOracleUnavailable,
    /// The oracle resolution window has closed.
    ResolutionTimeoutReached,
    /// The oracle callback came from an unauthorized caller.
    OracleCallbackUnauthorized,
    /// Circuit breaker misuse (already paused, not paused, missing data).
    CBError,
    /// The circuit breaker blocks the operation.
    CBOpen,
    /// The force-resolve idempotency key was already consumed.
    ForceResolveAlreadyUsed,
}

} // verus!
