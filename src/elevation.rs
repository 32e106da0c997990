//! Elevation requests: parameters, validation, and the query they build into.

use vstd::prelude::*;
use vstd::string::*;
use crate::latlng::{LatLng, latlng_text};
use crate::lifecycle::Stage;
use crate::text::{decimal, push_decimal};

verus! {

/// Where a request's elevation data is taken: coordinate pairs, or an
/// encoded polyline.
#[derive(Clone, Debug)]
pub enum Locations {
    LatLngs(Vec<LatLng>),
    Polyline(String),
}

/// What an elevation request can fail with before it is sent.
#[derive(Clone, Copy, Debug, PartialEq, Eq)]
pub enum ElevationError {
    /// Exactly one of a positional request and a sampled-path request must
    /// be made, and a path needs a sample count.
    EitherPositionalOrSampledPath,
    /// The query is taken before it was built.
    QueryNotBuilt,
    /// The query is built before the request was validated.
    RequestNotValidated,
}

/// Coordinate pairs joined by `|`.
pub open spec fn latlngs_text(s: Seq<LatLng>) -> Seq<char>
    decreases s.len(),
{
    if s.len() == 0 {
        Seq::empty()
    } else if s.len() == 1 {
        latlng_text(s[0])
    } else {
        latlngs_text(s.drop_last()) + seq!['|'] + latlng_text(s.last())
    }
}

/// The text of a `locations` or `path` value.
pub open spec fn locations_text(l: Locations) -> Seq<char> {
    match l {
        Locations::LatLngs(v) => latlngs_text(v@),
        Locations::Polyline(p) => seq!['e', 'n', 'c', ':'] + p@,
    }
}

/// The parameters name one kind of request: a positional one, or a sampled
/// path with its sample count.
pub open spec fn parameters_valid(
    locations: Option<Locations>,
    path: Option<Locations>,
    samples: Option<u8>,
) -> bool {
    ||| (locations.is_some() && path.is_none() && samples.is_none())
    ||| (locations.is_none() && path.is_some() && samples.is_some())
}

/// The query string of a parameter set, fields in a fixed order.
pub open spec fn query_text(
    key: Seq<char>,
    locations: Option<Locations>,
    path: Option<Locations>,
    samples: Option<u8>,
) -> Seq<char> {
    let head = seq!['k', 'e', 'y', '='] + key;
    match locations {
        Some(l) => head + seq!['&', 'l', 'o', 'c', 'a', 't', 'i', 'o', 'n', 's', '=']
            + locations_text(l),
        None => match path {
            Some(p) => {
                let s: nat = match samples {
                    Some(n) => n as nat,
                    None => 0,
                };
                head + seq!['&', 'p', 'a', 't', 'h', '='] + locations_text(p)
                    + seq!['&', 's', 'a', 'm', 'p', 'l', 'e', 's', '='] + decimal(s)
            },
            None => head,
        },
    }
}

/// Appends the text of `l` to `out`.
pub fn push_locations(out: &mut String, l: &Locations)
    ensures
        final(out)@ == old(out)@ + locations_text(*l),
{
    match l {
        Locations::LatLngs(v) => {
            let ghost start = out@;
            let mut i: usize = 0;
            while i < v.len()
                invariant
                    i <= v@.len(),
                    out@ == start + latlngs_text(v@.subrange(0, i as int)),
                decreases v@.len() - i,
            {
                if i > 0 {
                    proof { reveal_strlit("|"); }
                    out.append("|");
                }
                let t = v[i].to_query_text();
                out.append(t.as_str());
                proof {
                    let next = v@.subrange(0, i + 1);
                    assert(next.drop_last() =~= v@.subrange(0, i as int));
                    assert(next.last() == v@[i as int]);
                    if i == 0 {
                        assert(v@.subrange(0, 0) =~= Seq::<LatLng>::empty());
                        assert(out@ =~= start + latlngs_text(next));
                    } else {
                        assert(out@ =~= start + latlngs_text(next));
                    }
                }
                i = i + 1;
            }
            assert(v@.subrange(0, v@.len() as int) =~= v@);
        },
        Locations::Polyline(p) => {
            proof { reveal_strlit("enc:"); }
            out.append("enc:");
            out.append(p.as_str());
            assert(final(out)@ =~= old(out)@ + locations_text(*l));
        },
    }
}

/// An elevation request: positional, or along a sampled path.
#[derive(Clone, Debug)]
pub struct Request {
    key: String,
    locations: Option<Locations>,
    path: Option<Locations>,
    samples: Option<u8>,
    validated: bool,
    query: Option<String>,
}

impl Request {
    /// A query is only ever held by a validated request.
    pub closed spec fn wf(&self) -> bool {
        self.query.is_some() ==> self.validated
    }

    pub closed spec fn stage(&self) -> Stage {
        if self.query.is_some() {
            Stage::Built
        } else if self.validated {
            Stage::Validated
        } else {
            Stage::Unvalidated
        }
    }

    pub closed spec fn key_view(&self) -> Seq<char> {
        self.key@
    }

    pub closed spec fn locations_view(&self) -> Option<Locations> {
        self.locations
    }

    pub closed spec fn path_view(&self) -> Option<Locations> {
        self.path
    }

    pub closed spec fn samples_view(&self) -> Option<u8> {
        self.samples
    }

    /// The query that this request's parameters build into.
    pub open spec fn spec_query(&self) -> Seq<char> {
        query_text(self.key_view(), self.locations_view(), self.path_view(), self.samples_view())
    }

    /// The query held, once built.
    pub closed spec fn query_view(&self) -> Option<Seq<char>> {
        match self.query {
            Some(q) => Some(q@),
            None => None,
        }
    }

    /// A new request carrying the credential `key` and no parameters.
    pub fn new(key: String) -> (r: Request)
        ensures
            r.wf(),
            r.stage() == Stage::Unvalidated,
            r.key_view() == key@,
            r.locations_view().is_none(),
            r.path_view().is_none(),
            r.samples_view().is_none(),
    {
        Request { key, locations: None, path: None, samples: None, validated: false, query: None }
    }
    /// Makes this a positional request for `locations`.
    pub fn positional_request(&mut self, locations: Locations) -> (r: &mut Request)
        requires
            old(self).wf(),
            old(self).stage() == Stage::Unvalidated,
        ensures
            r.wf(),
            r.stage() == Stage::Unvalidated,
            r.key_view() == old(self).key_view(),
            r.locations_view() == Some(locations),
            r.path_view() == old(self).path_view(),
            r.samples_view() == old(self).samples_view(),
            *final(self) == *final(r),
    {
        self.locations = Some(locations);
        self
    }

    /// Makes this a request along `path`, sampled at `samples` points.
    pub fn sampled_path_request(&mut self, path: Locations, samples: u8) -> (r: &mut Request)
        requires
            old(self).wf(),
            old(self).stage() == Stage::Unvalidated,
        ensures
            r.wf(),
            r.stage() == Stage::Unvalidated,
            r.key_view() == old(self).key_view(),
            r.locations_view() == old(self).locations_view(),
            r.path_view() == Some(path),
            r.samples_view() == Some(samples),
            *final(self) == *final(r),
    {
        self.path = Some(path);
        self.samples = Some(samples);
        self
    }

    /// Checks the parameters. A request past validation is left as it is.
    pub fn validate(&mut self) -> (r: Result<(), ElevationError>)
        requires
            old(self).wf(),
        ensures
            final(self).wf(),
            final(self).key_view() == old(self).key_view(),
            final(self).locations_view() == old(self).locations_view(),
            final(self).path_view() == old(self).path_view(),
            final(self).samples_view() == old(self).samples_view(),
            final(self).query_view() == old(self).query_view(),
            r.is_ok() <==> (old(self).stage() != Stage::Unvalidated || parameters_valid(
                old(self).locations_view(),
                old(self).path_view(),
                old(self).samples_view(),
            )),
            r.is_err() ==> r == Err::<(), ElevationError>(ElevationError::EitherPositionalOrSampledPath)
                && final(self).stage() == old(self).stage(),
            r.is_ok() ==> final(self).stage() == (if old(self).stage() == Stage::Built {
                Stage::Built
            } else {
                Stage::Validated
            }),
    {
        if self.validated {
            return Ok(());
        }
        let ok = match (&self.locations, &self.path, &self.samples) {
            (Some(_), None, None) => true,
            (None, Some(_), Some(_)) => true,
            _ => false,
        };
        if ok {
            self.validated = true;
            Ok(())
        } else {
            Err(ElevationError::EitherPositionalOrSampledPath)
        }
    }

    /// Builds the query string from the parameters of a validated request.
    pub fn build(&mut self) -> (r: Result<(), ElevationError>)
        requires
            old(self).wf(),
        ensures
            final(self).wf(),
            final(self).key_view() == old(self).key_view(),
            final(self).locations_view() == old(self).locations_view(),
            final(self).path_view() == old(self).path_view(),
            final(self).samples_view() == old(self).samples_view(),
            r.is_err() <==> old(self).stage() != Stage::Validated,
            r.is_err() ==> r == Err::<(), ElevationError>(ElevationError::RequestNotValidated) && *final(self)
                == *old(self),
            r.is_ok() ==> final(self).stage() == Stage::Built && final(self).query_view() == Some(
                old(self).spec_query(),
            ),
    {
        if !self.validated || self.query.is_some() {
            return Err(ElevationError::RequestNotValidated);
        }
        let mut q = String::new();
        proof { reveal_strlit("key="); }
        q.append("key=");
        q.append(self.key.as_str());
        match &self.locations {
            Some(l) => {
                proof { reveal_strlit("&locations="); }
                q.append("&locations=");
                push_locations(&mut q, l);
            },
            None => match &self.path {
                Some(p) => {
                    proof { reveal_strlit("&path="); reveal_strlit("&samples="); }
                    q.append("&path=");
                    push_locations(&mut q, p);
                    q.append("&samples=");
                    let s: u64 = match self.samples {
                        Some(n) => n as u64,
                        None => 0,
                    };
                    push_decimal(&mut q, s);
                },
                None => {},
            },
        }
        assert(q@ =~= self.spec_query());
        self.query = Some(q);
        Ok(())
    }

    /// The built query string; the request is left as it is.
    pub fn take_query(&self) -> (r: Result<String, ElevationError>)
        ensures
            r.is_err() <==> self.stage() != Stage::Built,
            r.is_err() ==> r == Err::<String, ElevationError>(ElevationError::QueryNotBuilt),
            r.is_ok() ==> Some(r.unwrap()@) == self.query_view(),
    {
        match &self.query {
            Some(q) => Ok(q.clone()),
            None => Err(ElevationError::QueryNotBuilt),
        }
    }

    /// The address of a built request: the service URL, the output format
    /// and the query.
    pub fn url(&self) -> (r: Result<String, ElevationError>)
        ensures
            r.is_err() <==> self.stage() != Stage::Built,
            r.is_err() ==> r == Err::<String, ElevationError>(ElevationError::QueryNotBuilt),
            r.is_ok() ==> r.unwrap()@ == service_prefix() + self.query_view().unwrap(),
    {
        match &self.query {
            Some(q) => {
                let mut u = String::new();
                proof { reveal_strlit("https://maps.googleapis.com/maps/api/elevation/json?"); }
                u.append("https://maps.googleapis.com/maps/api/elevation/json?");
                u.append(q.as_str());
                Ok(u)
            },
            None => Err(ElevationError::QueryNotBuilt),
        }
    }
}

/// Building is deterministic: two requests with the same parameters build
/// into the same query string, character for character.
pub proof fn lemma_build_deterministic(a: Request, b: Request)
    requires
        a.key_view() == b.key_view(),
        a.locations_view() == b.locations_view(),
        a.path_view() == b.path_view(),
        a.samples_view() == b.samples_view(),
    ensures
        a.spec_query() == b.spec_query(),
{
}

/// The service URL and output-format segment, up to the `?`.
pub open spec fn service_prefix() -> Seq<char> {
    "https://maps.googleapis.com/maps/api/elevation/json?"@
}

} // verus!
