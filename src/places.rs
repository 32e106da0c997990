//! Place details requests.

use vstd::prelude::*;
use vstd::string::*;
use crate::lifecycle::Stage;
use crate::error::ClientError;
use crate::lifecycle::Lifecycle;

verus! {

/// A region, as its two-letter country-code top-level domain ("uk", "de").
#[derive(Clone, Debug, PartialEq, Eq)]
pub struct Region {
    code: String,
}

impl Region {
    pub closed spec fn view(&self) -> Seq<char> {
        self.code@
    }

    pub fn new(code: String) -> (r: Region)
        ensures
            r@ == code@,
    {
        Region { code }
    }

    /// The region code.
    pub fn code(&self) -> (r: &String)
        ensures
            r@ == self@,
    {
        &self.code
    }
}

/// The query string of a place details request, fields in a fixed order.
pub open spec fn details_query(key: Seq<char>, place_id: Seq<char>, region: Option<Seq<char>>) -> Seq<
    char,
> {
    let head = "key="@ + key + "&place_id="@ + place_id;
    match region {
        Some(r) => head + "&region="@ + r,
        None => head,
    }
}

/// The service URL and output-format segment of place details requests.
pub open spec fn details_prefix() -> Seq<char> {
    "https://maps.googleapis.com/maps/api/place/details/json?"@
}

/// A request for the details of one place.
#[derive(Clone, Debug)]
pub struct Request {
    key: String,
    place_id: String,
    region: Option<Region>,
    lifecycle: Lifecycle,
}

impl Request {
    pub closed spec fn wf(&self) -> bool {
        self.lifecycle.wf()
    }

    pub closed spec fn stage(&self) -> Stage {
        self.lifecycle.stage()
    }

    pub closed spec fn query_view(&self) -> Option<Seq<char>> {
        self.lifecycle.query_view()
    }

    pub closed spec fn key_view(&self) -> Seq<char> {
        self.key@
    }

    pub closed spec fn place_id_view(&self) -> Seq<char> {
        self.place_id@
    }

    pub closed spec fn region_view(&self) -> Option<Seq<char>> {
        match self.region {
            Some(r) => Some(r@),
            None => None,
        }
    }

    /// The query that this request's parameters build into.
    pub open spec fn spec_query(&self) -> Seq<char> {
        details_query(self.key_view(), self.place_id_view(), self.region_view())
    }

    pub fn new(key: String, place_id: String) -> (r: Request)
        ensures
            r.wf(),
            r.stage() == Stage::Unvalidated,
            r.key_view() == key@,
            r.place_id_view() == place_id@,
            r.region_view().is_none(),
    {
        Request { key, place_id, region: None, lifecycle: Lifecycle::new() }
    }

    /// Sets the region that results are biased towards.
    pub fn with_region(&mut self, region: Region) -> (r: &mut Request)
        requires
            old(self).wf(),
            old(self).stage() == Stage::Unvalidated,
        ensures
            r.wf(),
            r.stage() == Stage::Unvalidated,
            r.key_view() == old(self).key_view(),
            r.place_id_view() == old(self).place_id_view(),
            r.region_view() == Some(region@),
            *final(self) == *final(r),
    {
        self.region = Some(region);
        self
    }

    /// Validates the request: the place ID must not be empty.
    pub fn validate(&mut self) -> (r: Result<(), ClientError>)
        requires
            old(self).wf(),
        ensures
            final(self).wf(),
            final(self).spec_query() == old(self).spec_query(),
            final(self).query_view() == old(self).query_view(),
            r.is_ok() <==> (old(self).stage() != Stage::Unvalidated || old(self).place_id_view().len()
                > 0),
            r.is_err() ==> r == Err::<(), ClientError>(ClientError::Validation) && final(self).stage() == old(
                self,
            ).stage(),
            r.is_ok() ==> final(self).stage() == (if old(self).stage() == Stage::Built {
                Stage::Built
            } else {
                Stage::Validated
            }),
    {
        let rules_hold = self.place_id.as_str().unicode_len() > 0;
        self.lifecycle.validate(rules_hold)
    }

    /// Builds the query string of a validated request.
    pub fn build(&mut self) -> (r: Result<(), ClientError>)
        requires
            old(self).wf(),
        ensures
            final(self).wf(),
            final(self).spec_query() == old(self).spec_query(),
            r.is_err() <==> old(self).stage() != Stage::Validated,
            r.is_err() ==> r == Err::<(), ClientError>(ClientError::RequestNotValidated) && final(self).stage()
                == old(self).stage() && final(self).query_view() == old(self).query_view(),
            r.is_ok() ==> final(self).stage() == Stage::Built && final(self).query_view() == Some(
                old(self).spec_query(),
            ),
    {
        match self.lifecycle.current() {
            Stage::Validated => {},
            _ => return Err(ClientError::RequestNotValidated),
        }
        let mut q = "key=".to_string();
        q.append(self.key.as_str());
        q.append("&place_id=");
        q.append(self.place_id.as_str());
        match &self.region {
            Some(r) => {
                q.append("&region=");
                q.append(r.code().as_str());
            },
            None => {},
        }
        self.lifecycle.build(q)
    }

    /// The built query; nothing changes.
    pub fn take_query(&self) -> (r: Result<String, ClientError>)
        ensures
            r.is_err() <==> self.stage() != Stage::Built,
            r.is_err() ==> r == Err::<String, ClientError>(ClientError::QueryNotBuilt),
            r.is_ok() ==> Some(r.unwrap()@) == self.query_view(),
    {
        self.lifecycle.take_query()
    }

    /// The address to send a built request to.
    pub fn url(&self) -> (r: Result<String, ClientError>)
        ensures
            r.is_err() <==> self.stage() != Stage::Built,
            r.is_err() ==> r == Err::<String, ClientError>(ClientError::QueryNotBuilt),
            r.is_ok() ==> r.unwrap()@ == details_prefix() + self.query_view().unwrap(),
    {
        self.lifecycle.url("https://maps.googleapis.com/maps/api/place/details/json?")
    }
}

} // verus!
