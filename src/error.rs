//! The kinds of failure that a caller of the client observes.

use vstd::prelude::*;
use crate::classify::Failure;

verus! {

/// A failure as the caller sees it: an invalid request, one the service
/// rejected, or one that stayed unavailable through the retries.
#[derive(Clone, Copy, Debug, PartialEq, Eq)]
pub enum ClientError {
    /// The request's fields are missing or incompatible.
    Validation,
    /// The query was taken before it was built.
    QueryNotBuilt,
    /// The query was built before the request was validated.
    RequestNotValidated,
    /// The transport failed to reach the service.
    Transport,
    /// The service understood the request and declined it.
    RemoteRejection(Failure),
    /// The service signalled a temporary condition.
    TransientRemoteCondition(Failure),
    /// The response body did not parse.
    MalformedResponse,
    /// The retry schedule ran out; the last transient failure.
    RetryBudgetExhausted(Failure),
    /// The caller's deadline passed during the retries.
    CancelledOrTimedOut,
}

/// The error reported for a permanent failure.
pub open spec fn spec_permanent_error(f: Failure) -> ClientError {
    match f {
        Failure::Transport => ClientError::Transport,
        Failure::Malformed => ClientError::MalformedResponse,
        _ => ClientError::RemoteRejection(f),
    }
}

/// The error reported for a permanent failure.
pub fn permanent_error(f: Failure) -> (r: ClientError)
    ensures
        r == spec_permanent_error(f),
{
    match f {
        Failure::Transport => ClientError::Transport,
        Failure::Malformed => ClientError::MalformedResponse,
        _ => ClientError::RemoteRejection(f),
    }
}

impl ClientError {
    /// Whether resubmitting the same request may succeed.
    pub fn is_transient(&self) -> (r: bool)
        ensures
            r <==> (self is Transport || self is TransientRemoteCondition
                || self is RetryBudgetExhausted || self is CancelledOrTimedOut),
    {
        match self {
            ClientError::Transport | ClientError::TransientRemoteCondition(_) | ClientError::RetryBudgetExhausted(_)
            | ClientError::CancelledOrTimedOut => true,
            _ => false,
        }
    }
}

} // verus!
