//! A client library for web-mapping services: request lifecycle, query
//! rendering, rate limiting, response classification and retry decisions.

pub mod text;
pub mod latlng;
pub mod elevation;
pub mod rate_limit;
pub mod classify;
pub mod error;
pub mod retry;
pub mod lifecycle;
pub mod directions;
pub mod places;
pub mod outside;
pub mod geocoding;

pub use crate::classify::{classify, Classified, Envelope, Failure, ServiceStatus, TransportOutcome};
pub use crate::directions::{Distance, Location, Request as DirectionsRequest};
pub use crate::elevation::{ElevationError, Locations, Request};
pub use crate::lifecycle::Stage;
pub use crate::error::ClientError;
pub use crate::geocoding::{GeocodingError, Status as GeocodingStatus};
pub use crate::latlng::LatLng;
pub use crate::places::{Region, Request as PlaceDetailsRequest};
pub use crate::rate_limit::{Api, Bucket, RateLimiter};
pub use crate::retry::{Retry, Schedule, Step};
