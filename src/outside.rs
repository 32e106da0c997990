//! Types of outside crates that the library carries without looking inside.

use vstd::prelude::*;

verus! {

/// An error of the HTTP client, carried as the cause of a failure.
#[verifier::external_type_specification]
#[verifier::external_body]
pub struct ExReqwestError(reqwest::Error);

/// An error of the JSON deserializer, carried as the cause of a failure.
#[verifier::external_type_specification]
#[verifier::external_body]
pub struct ExJsonError(serde_json::Error);

} // verus!
