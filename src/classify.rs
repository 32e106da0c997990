//! Classification of one attempt's outcome: success, a failure worth
//! retrying, or one that retrying will reproduce.

use vstd::prelude::*;

verus! {

/// The status that a service reports inside its response body.
#[derive(Clone, Copy, Debug, PartialEq, Eq)]
pub enum ServiceStatus {
    Okay,
    InvalidRequest,
    NotFound,
    OverDailyLimit,
    OverQueryLimit,
    RequestDenied,
    UnknownError,
    ZeroResults,
}

/// What the response parser made of a body.
#[derive(Clone, Copy, Debug, PartialEq, Eq)]
pub enum Envelope {
    /// The body parsed, with this service status.
    Parsed(ServiceStatus),
    /// The body did not parse.
    Malformed,
}

/// What one transport call came back with.
#[derive(Clone, Copy, Debug, PartialEq, Eq)]
pub enum TransportOutcome {
    /// No response: connection refused, timeout, name or TLS failure.
    Failed,
    /// A response with its HTTP status; the body as parsed, where the
    /// status is a success.
    Response { http_status: u16, body: Envelope },
}

/// Why an attempt did not succeed.
#[derive(Clone, Copy, Debug, PartialEq, Eq)]
pub enum Failure {
    Transport,
    Http(u16),
    Service(ServiceStatus),
    Malformed,
}

/// The verdict on one attempt.
#[derive(Clone, Copy, Debug, PartialEq, Eq)]
pub enum Classified {
    Success,
    Transient(Failure),
    Permanent(Failure),
}

pub open spec fn is_success_status(s: u16) -> bool {
    200 <= s <= 299
}

pub open spec fn is_retryable_status(s: u16) -> bool {
    (500 <= s <= 599) || s == 429
}

/// The verdict on an outcome.
pub open spec fn spec_classify(o: TransportOutcome) -> Classified {
    match o {
        TransportOutcome::Failed => Classified::Transient(Failure::Transport),
        TransportOutcome::Response { http_status, body } => {
            if is_success_status(http_status) {
                match body {
                    Envelope::Malformed => Classified::Permanent(Failure::Malformed),
                    Envelope::Parsed(ServiceStatus::Okay) => Classified::Success,
                    Envelope::Parsed(ServiceStatus::UnknownError) => Classified::Transient(
                        Failure::Service(ServiceStatus::UnknownError),
                    ),
                    Envelope::Parsed(s) => Classified::Permanent(Failure::Service(s)),
                }
            } else if is_retryable_status(http_status) {
                Classified::Transient(Failure::Http(http_status))
            } else {
                Classified::Permanent(Failure::Http(http_status))
            }
        },
    }
}

/// Classifies a transport outcome. A transport failure, a server error,
/// "too many requests" and the service's "unknown error" are transient; a
/// body that does not parse, any other status the service reports but `Okay`,
/// and any other HTTP status are permanent.
pub fn classify(o: TransportOutcome) -> (r: Classified)
    ensures
        r == spec_classify(o),
{
    match o {
        TransportOutcome::Failed => Classified::Transient(Failure::Transport),
        TransportOutcome::Response { http_status, body } => {
            if 200 <= http_status && http_status <= 299 {
                match body {
                    Envelope::Malformed => Classified::Permanent(Failure::Malformed),
                    Envelope::Parsed(s) => match s {
                        ServiceStatus::Okay => Classified::Success,
                        ServiceStatus::UnknownError => Classified::Transient(Failure::Service(s)),
                        _ => Classified::Permanent(Failure::Service(s)),
                    },
                }
            } else if (500 <= http_status && http_status <= 599) || http_status == 429 {
                Classified::Transient(Failure::Http(http_status))
            } else {
                Classified::Permanent(Failure::Http(http_status))
            }
        },
    }
}

} // verus!
