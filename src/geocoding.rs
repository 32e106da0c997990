//! Errors of geocoding requests, with the text shown to users.

use vstd::prelude::*;
use vstd::string::*;

verus! {

/// The status that the geocoding service reports.
#[derive(Clone, Copy, Debug, PartialEq, Eq)]
pub enum Status {
    InvalidRequest,
    Okay,
    OverDailyLimit,
    OverQueryLimit,
    RequestDenied,
    UnknownError,
    ZeroResults,
}

/// Errors of the geocoding client.
#[derive(Debug)]
pub enum GeocodingError {
    /// Forward geocoding requests (address to latlng) must specify an
    /// `address` or at least one `component`.
    AddressOrComponentsRequired,
    /// The service reported an error status, with its message if it gave one.
    GoogleMapsGeocodingServer(Status, Option<String>),
    /// The query string must be built before the request is sent.
    QueryNotBuilt,
    /// The request must be validated before a query string is built.
    RequestNotValidated,
    /// The HTTP client failed.
    Reqwest(reqwest::Error),
    /// The response did not deserialize.
    SerdeJson(serde_json::Error),
}

pub const ADDRESS_OR_COMPONENTS: &'static str = "Google Maps Geocoding API client library: \
    Forward geocoding requests must specify an `address` or at least one `component`. \
    Ensure that the with_address() and/or with_component methods are being called before run().";
pub const SERVER: &'static str = "Google Maps Geocoding API server: ";
pub const INVALID_REQUEST: &'static str = "Google Maps Geocoding API server: \
    Invalid request. \
    This may indicate that the query (address, components, or latlng) is missing, an invalid result type, or an invalid location type.";
pub const OKAY: &'static str = "Google Maps Geocoding server: \
    Ok. \
    The request was successful.";
pub const OVER_DAILY_LIMIT: &'static str = "Google Maps Geocoding API server: \
    Over daily limit. \
    Usage cap has been exceeded, API key is invalid, billing has not been enabled, or method of payment is no longer valid.";
pub const OVER_QUERY_LIMIT: &'static str = "Google Maps Geocoding API server: \
    Over query limit. \
    Requestor has exceeded quota.";
pub const REQUEST_DENIED: &'static str = "Google Maps Geocoding API server: \
    Request denied \
    Service did not complete the request.";
pub const UNKNOWN_ERROR: &'static str = "Google Maps Geocoding API server: \
    Unknown error.";
pub const ZERO_RESULTS: &'static str = "Google Maps Geocoding API server: \
    Zero results.
                        This may occur if the geocoder was passed a non-existent address.";
pub const NOT_VALIDATED: &'static str = "Google Maps Geocoding API client library: \
    The request must be validated before a query string may be built. \
    Ensure the validate() method is called before build().";
pub const NOT_BUILT: &'static str = "Google Maps Geocoding API client library: \
    The query string must be built before the request may be sent to the Google Cloud Maps Platform. \
    Ensure the build() method is called before run().";
pub const IN_REQWEST: &'static str = "Google Maps Geocoding API client in the Reqwest library: ";
pub const IN_SERDE_JSON: &'static str = "Google Maps Geocoding API client in the Serde JSON library: ";

/// The generic text of a service status.
pub open spec fn status_text(s: Status) -> Seq<char> {
    match s {
        Status::InvalidRequest => INVALID_REQUEST@,
        Status::Okay => OKAY@,
        Status::OverDailyLimit => OVER_DAILY_LIMIT@,
        Status::OverQueryLimit => OVER_QUERY_LIMIT@,
        Status::RequestDenied => REQUEST_DENIED@,
        Status::UnknownError => UNKNOWN_ERROR@,
        Status::ZeroResults => ZERO_RESULTS@,
    }
}

/// The text of an error, up to the part that an underlying library writes.
pub open spec fn message_head(e: &GeocodingError) -> Seq<char> {
    match e {
        GeocodingError::AddressOrComponentsRequired => ADDRESS_OR_COMPONENTS@,
        GeocodingError::GoogleMapsGeocodingServer(s, m) => match m {
            Some(text) => SERVER@ + text@,
            None => status_text(*s),
        },
        GeocodingError::QueryNotBuilt => NOT_BUILT@,
        GeocodingError::RequestNotValidated => NOT_VALIDATED@,
        GeocodingError::Reqwest(_) => IN_REQWEST@,
        GeocodingError::SerdeJson(_) => IN_SERDE_JSON@,
    }
}

impl GeocodingError {
    /// The text shown to users: the service's own message where it gave one,
    /// else a text for the status or the client-side error; an underlying
    /// library's error follows its library's name.
    pub fn message(&self) -> (r: String)
        ensures
            message_head(self).len() <= r@.len(),
            r@.subrange(0, message_head(self).len() as int) == message_head(self),
            !(self is Reqwest || self is SerdeJson) ==> r@ == message_head(self),
    {
        let r = match self {
            GeocodingError::AddressOrComponentsRequired => ADDRESS_OR_COMPONENTS.to_string(),
            GeocodingError::GoogleMapsGeocodingServer(s, m) => match m {
                Some(text) => {
                    let mut r = SERVER.to_string();
                    r.append(text.as_str());
                    r
                },
                None => match s {
                    Status::InvalidRequest => INVALID_REQUEST.to_string(),
                    Status::Okay => OKAY.to_string(),
                    Status::OverDailyLimit => OVER_DAILY_LIMIT.to_string(),
                    Status::OverQueryLimit => OVER_QUERY_LIMIT.to_string(),
                    Status::RequestDenied => REQUEST_DENIED.to_string(),
                    Status::UnknownError => UNKNOWN_ERROR.to_string(),
                    Status::ZeroResults => ZERO_RESULTS.to_string(),
                },
            },
            GeocodingError::QueryNotBuilt => NOT_BUILT.to_string(),
            GeocodingError::RequestNotValidated => NOT_VALIDATED.to_string(),
            GeocodingError::Reqwest(e) => {
                let mut r = IN_REQWEST.to_string();
                let detail = e.to_string();
                r.append(detail.as_str());
                r
            },
            GeocodingError::SerdeJson(e) => {
                let mut r = IN_SERDE_JSON.to_string();
                let detail = e.to_string();
                r.append(detail.as_str());
                r
            },
        };
        assert(r@.subrange(0, message_head(self).len() as int) =~= message_head(self));
        r
    }
}

impl From<reqwest::Error> for GeocodingError {
    fn from(error: reqwest::Error) -> (r: GeocodingError) {
        GeocodingError::Reqwest(error)
    }
}

impl vstd::std_specs::convert::FromSpecImpl<reqwest::Error> for GeocodingError {
    open spec fn obeys_from_spec() -> bool {
        true
    }

    open spec fn from_spec(v: reqwest::Error) -> GeocodingError {
        GeocodingError::Reqwest(v)
    }
}

impl From<serde_json::Error> for GeocodingError {
    fn from(error: serde_json::Error) -> (r: GeocodingError) {
        GeocodingError::SerdeJson(error)
    }
}

impl vstd::std_specs::convert::FromSpecImpl<serde_json::Error> for GeocodingError {
    open spec fn obeys_from_spec() -> bool {
        true
    }

    open spec fn from_spec(v: serde_json::Error) -> GeocodingError {
        GeocodingError::SerdeJson(v)
    }
}

} // verus!
