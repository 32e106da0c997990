//! Directions requests: origin and destination, their encoding into the
//! query, and the distances that come back.

use vstd::prelude::*;
use vstd::string::*;
use crate::lifecycle::Stage;
use crate::error::ClientError;
use crate::latlng::{LatLng, latlng_text};
use crate::lifecycle::Lifecycle;
use percent_encoding::{utf8_percent_encode, NON_ALPHANUMERIC};

verus! {

/// What `percent_encoding` makes of a text with the `NON_ALPHANUMERIC` set.
pub uninterp spec fn percent_encoded(s: Seq<char>) -> Seq<char>;

pub open spec fn is_ascii_alphanumeric(c: char) -> bool {
    ('0' <= c <= '9') || ('a' <= c <= 'z') || ('A' <= c <= 'Z')
}

/// Relies on `percent_encoding::utf8_percent_encode` with `NON_ALPHANUMERIC`:
/// each byte of the UTF-8 text that is not an ASCII letter or digit becomes
/// `%XX`, and the others are kept, so a text of letters and digits only
/// comes back as it is.
#[verifier::external_body]
fn percent_encode(s: &str) -> (r: String)
    ensures
        r@ == percent_encoded(s@),
        (forall|i: int| 0 <= i < s@.len() ==> is_ascii_alphanumeric(#[trigger] s@[i])) ==> r@
            == s@,
{
    utf8_percent_encode(s, NON_ALPHANUMERIC).to_string()
}

/// An origin or destination: an address, a coordinate pair, or a place ID.
#[derive(Clone, Debug)]
pub enum Location {
    Address(String),
    LatLng(LatLng),
    PlaceId(String),
}

/// The text of a location before encoding.
pub open spec fn location_text(l: Location) -> Seq<char> {
    match l {
        Location::Address(a) => a@,
        Location::LatLng(p) => latlng_text(p),
        Location::PlaceId(id) => "place_id:"@ + id@,
    }
}

impl Location {
    /// The location as a query value, percent-encoded.
    pub fn to_query_value(&self) -> (r: String)
        ensures
            r@ == percent_encoded(location_text(*self)),
    {
        match self {
            Location::Address(a) => percent_encode(a.as_str()),
            Location::LatLng(p) => {
                let t = p.to_query_text();
                percent_encode(t.as_str())
            },
            Location::PlaceId(id) => {
                let mut t = "place_id:".to_string();
                t.append(id.as_str());
                percent_encode(t.as_str())
            },
        }
    }
}

/// A distance as a display text and a number of meters.
#[derive(Clone, Debug, PartialEq, Eq)]
pub struct Distance {
    text: String,
    value: u32,
}

impl Distance {
    pub closed spec fn text_view(&self) -> Seq<char> {
        self.text@
    }

    pub closed spec fn meters(&self) -> u32 {
        self.value
    }

    pub fn new(text: String, value: u32) -> (r: Distance)
        ensures
            r.text_view() == text@,
            r.meters() == value,
    {
        Distance { text, value }
    }

    /// The display text, in the unit system of the request.
    pub fn text(&self) -> (r: &String)
        ensures
            r@ == self.text_view(),
    {
        &self.text
    }

    /// The distance in meters.
    pub fn value(&self) -> (r: u32)
        ensures
            r == self.meters(),
    {
        self.value
    }
}

/// The query string of a directions request, fields in a fixed order.
pub open spec fn directions_query(key: Seq<char>, origin: Location, destination: Location) -> Seq<
    char,
> {
    "key="@ + key + "&origin="@ + percent_encoded(location_text(origin)) + "&destination="@
        + percent_encoded(location_text(destination))
}

/// The service URL and output-format segment of directions requests.
pub open spec fn directions_prefix() -> Seq<char> {
    "https://maps.googleapis.com/maps/api/directions/json?"@
}

/// A directions request from an origin to a destination.
#[derive(Clone, Debug)]
pub struct Request {
    key: String,
    origin: Location,
    destination: Location,
    lifecycle: Lifecycle,
}

impl Request {
    pub closed spec fn wf(&self) -> bool {
        self.lifecycle.wf()
    }

    pub closed spec fn stage(&self) -> Stage {
        self.lifecycle.stage()
    }

    pub closed spec fn query_view(&self) -> Option<Seq<char>> {
        self.lifecycle.query_view()
    }

    pub closed spec fn key_view(&self) -> Seq<char> {
        self.key@
    }

    pub closed spec fn origin_view(&self) -> Location {
        self.origin
    }

    pub closed spec fn destination_view(&self) -> Location {
        self.destination
    }

    /// The query that this request's parameters build into.
    pub open spec fn spec_query(&self) -> Seq<char> {
        directions_query(self.key_view(), self.origin_view(), self.destination_view())
    }

    pub fn new(key: String, origin: Location, destination: Location) -> (r: Request)
        ensures
            r.wf(),
            r.stage() == Stage::Unvalidated,
            r.key_view() == key@,
            r.origin_view() == origin,
            r.destination_view() == destination,
    {
        Request { key, origin, destination, lifecycle: Lifecycle::new() }
    }

    /// Validates the request: an origin and a destination are all that it
    /// needs, and the constructor takes both.
    pub fn validate(&mut self) -> (r: Result<(), ClientError>)
        requires
            old(self).wf(),
        ensures
            final(self).wf(),
            r.is_ok(),
            final(self).spec_query() == old(self).spec_query(),
            final(self).query_view() == old(self).query_view(),
            final(self).stage() == (if old(self).stage() == Stage::Built {
                Stage::Built
            } else {
                Stage::Validated
            }),
    {
        self.lifecycle.validate(true)
    }

    /// Builds the query string of a validated request.
    pub fn build(&mut self) -> (r: Result<(), ClientError>)
        requires
            old(self).wf(),
        ensures
            final(self).wf(),
            final(self).spec_query() == old(self).spec_query(),
            r.is_err() <==> old(self).stage() != Stage::Validated,
            r.is_err() ==> r == Err::<(), ClientError>(ClientError::RequestNotValidated) && final(self).stage()
                == old(self).stage() && final(self).query_view() == old(self).query_view(),
            r.is_ok() ==> final(self).stage() == Stage::Built && final(self).query_view() == Some(
                old(self).spec_query(),
            ),
    {
        match self.lifecycle.current() {
            Stage::Validated => {},
            _ => return Err(ClientError::RequestNotValidated),
        }
        let mut q = "key=".to_string();
        q.append(self.key.as_str());
        q.append("&origin=");
        let o = self.origin.to_query_value();
        q.append(o.as_str());
        q.append("&destination=");
        let d = self.destination.to_query_value();
        q.append(d.as_str());
        self.lifecycle.build(q)
    }

    /// The built query; nothing changes.
    pub fn take_query(&self) -> (r: Result<String, ClientError>)
        ensures
            r.is_err() <==> self.stage() != Stage::Built,
            r.is_err() ==> r == Err::<String, ClientError>(ClientError::QueryNotBuilt),
            r.is_ok() ==> Some(r.unwrap()@) == self.query_view(),
    {
        self.lifecycle.take_query()
    }

    /// The address to send a built request to.
    pub fn url(&self) -> (r: Result<String, ClientError>)
        ensures
            r.is_err() <==> self.stage() != Stage::Built,
            r.is_err() ==> r == Err::<String, ClientError>(ClientError::QueryNotBuilt),
            r.is_ok() ==> r.unwrap()@ == directions_prefix() + self.query_view().unwrap(),
    {
        self.lifecycle.url("https://maps.googleapis.com/maps/api/directions/json?")
    }
}

} // verus!
