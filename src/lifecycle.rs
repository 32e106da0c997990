//! The Unvalidated → Validated → Built ordering that every request goes
//! through before it may be sent.

use vstd::prelude::*;
use vstd::string::*;
use crate::error::ClientError;

verus! {

/// The stages that a request goes through, in order.
#[derive(Clone, Copy, Debug, PartialEq, Eq)]
pub enum Stage {
    Unvalidated,
    Validated,
    Built,
}

/// A request's progress: whether it was validated, and its query once built.
#[derive(Clone, Debug)]
pub struct Lifecycle {
    validated: bool,
    query: Option<String>,
}

impl Lifecycle {
    /// A query is only ever held after validation.
    pub closed spec fn wf(&self) -> bool {
        self.query.is_some() ==> self.validated
    }

    pub closed spec fn stage(&self) -> Stage {
        if self.query.is_some() {
            Stage::Built
        } else if self.validated {
            Stage::Validated
        } else {
            Stage::Unvalidated
        }
    }

    pub closed spec fn query_view(&self) -> Option<Seq<char>> {
        match self.query {
            Some(q) => Some(q@),
            None => None,
        }
    }

    pub fn new() -> (r: Lifecycle)
        ensures
            r.wf(),
            r.stage() == Stage::Unvalidated,
            r.query_view().is_none(),
    {
        Lifecycle { validated: false, query: None }
    }

    /// The stage reached.
    pub fn current(&self) -> (r: Stage)
        ensures
            r == self.stage(),
    {
        if self.query.is_some() {
            Stage::Built
        } else if self.validated {
            Stage::Validated
        } else {
            Stage::Unvalidated
        }
    }

    /// Validation with the verdict `rules_hold` of the request's own rules.
    /// Past validation it succeeds and changes nothing.
    pub fn validate(&mut self, rules_hold: bool) -> (r: Result<(), ClientError>)
        requires
            old(self).wf(),
        ensures
            final(self).wf(),
            final(self).query_view() == old(self).query_view(),
            r.is_ok() <==> (old(self).stage() != Stage::Unvalidated || rules_hold),
            r.is_err() ==> r == Err::<(), ClientError>(ClientError::Validation) && final(self).stage()
                == old(self).stage(),
            r.is_ok() ==> final(self).stage() == (if old(self).stage() == Stage::Built {
                Stage::Built
            } else {
                Stage::Validated
            }),
    {
        if self.validated {
            Ok(())
        } else if rules_hold {
            self.validated = true;
            Ok(())
        } else {
            Err(ClientError::Validation)
        }
    }

    /// Stores `query` as the built query of a validated request.
    pub fn build(&mut self, query: String) -> (r: Result<(), ClientError>)
        requires
            old(self).wf(),
        ensures
            final(self).wf(),
            r.is_err() <==> old(self).stage() != Stage::Validated,
            r.is_err() ==> r == Err::<(), ClientError>(ClientError::RequestNotValidated) && final(self).stage()
                == old(self).stage() && final(self).query_view() == old(self).query_view(),
            r.is_ok() ==> final(self).stage() == Stage::Built && final(self).query_view() == Some(
                query@,
            ),
    {
        if !self.validated || self.query.is_some() {
            Err(ClientError::RequestNotValidated)
        } else {
            self.query = Some(query);
            Ok(())
        }
    }

    /// The built query; nothing changes.
    pub fn take_query(&self) -> (r: Result<String, ClientError>)
        ensures
            r.is_err() <==> self.stage() != Stage::Built,
            r.is_err() ==> r == Err::<String, ClientError>(ClientError::QueryNotBuilt),
            r.is_ok() ==> Some(r.unwrap()@) == self.query_view(),
    {
        match &self.query {
            Some(q) => Ok(q.clone()),
            None => Err(ClientError::QueryNotBuilt),
        }
    }

    /// `prefix` followed by the built query.
    pub fn url(&self, prefix: &str) -> (r: Result<String, ClientError>)
        ensures
            r.is_err() <==> self.stage() != Stage::Built,
            r.is_err() ==> r == Err::<String, ClientError>(ClientError::QueryNotBuilt),
            r.is_ok() ==> r.unwrap()@ == prefix@ + self.query_view().unwrap(),
    {
        match &self.query {
            Some(q) => {
                let mut u = prefix.to_string();
                u.append(q.as_str());
                Ok(u)
            },
            None => Err(ClientError::QueryNotBuilt),
        }
    }
}

} // verus!
