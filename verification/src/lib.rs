//! Temporary cloud credential generation.
//!
//! The library classifies the outcome of a "get session token" call to a
//! security token service, validates the returned credential bundle, and
//! renders the HTTP response body for the credential-serving endpoint.
//! The network calls themselves are made by the surrounding application,
//! which hands their outcomes to this library as plain values.
use vstd::prelude::*;

pub mod credentials;
pub mod error;
pub mod generator;
pub mod response;

verus! {

/// The duration in seconds for which temporary credentials should be valid.
pub const VALIDITY: i32 = 15 * 60;

/// The requested validity duration is exactly 900 seconds (15 minutes).
pub proof fn lemma_validity_is_900()
    ensures
        VALIDITY == 900,
{
}

} // verus!
