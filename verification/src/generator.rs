//! Classification of a session-token call's outcome.
//!
//! The surrounding application performs the network call and reduces what
//! came back to a [`SessionTokenOutcome`]; everything the generator decides
//! from that point on is verified here.
use vstd::prelude::*;

use crate::credentials::CredentialBundle;
use crate::error::GenerateTemporaryCredentialsError;

verus! {

/// The raw credential fields carried by a session-token response, exactly
/// as the service returned them, before any validation.
#[derive(Debug, PartialEq, Eq)]
pub struct SessionTokenCredentials {
    pub access_key_id: String,
    pub secret_access_key: String,
    pub session_token: String,
    pub expiration: String,
}

/// The outcome of one "get session token" call, reduced to the plain
/// values that classification reads: whether the call completed, whether a
/// credential payload was carried, and, for a failed call, whether the
/// service signaled a disabled region.
#[derive(Debug, PartialEq, Eq)]
pub enum SessionTokenOutcome {
    /// The call completed; the response carried the given payload, if any.
    Completed { credentials: Option<SessionTokenCredentials> },
    /// The call failed before a response could be unwrapped.
    Failed { region_disabled: bool },
}

/// The raw credential fields are complete when all four are non-empty.
pub open spec fn complete(c: SessionTokenCredentials) -> bool {
    &&& c.access_key_id@.len() > 0
    &&& c.secret_access_key@.len() > 0
    &&& c.session_token@.len() > 0
    &&& c.expiration@.len() > 0
}

/// What credential generation returns for each outcome of the call:
/// a failed call classifies as `RegionDisabled` or `Unknown`; a completed
/// call without a usable credential payload classifies as
/// `CredentialsNotReturned`; a completed call with a complete payload
/// yields the bundle.
pub open spec fn spec_generate(outcome: SessionTokenOutcome) -> Result<
    CredentialBundle,
    GenerateTemporaryCredentialsError,
> {
    match outcome {
        SessionTokenOutcome::Failed { region_disabled } => if region_disabled {
            Err(GenerateTemporaryCredentialsError::RegionDisabled)
        } else {
            Err(GenerateTemporaryCredentialsError::Unknown)
        },
        SessionTokenOutcome::Completed { credentials: None } => Err(
            GenerateTemporaryCredentialsError::CredentialsNotReturned,
        ),
        SessionTokenOutcome::Completed { credentials: Some(c) } => if complete(c) {
            Ok(
                CredentialBundle {
                    access_key_id: c.access_key_id,
                    secret_access_key: c.secret_access_key,
                    session_token: c.session_token,
                    expiration: c.expiration,
                },
            )
        } else {
            Err(GenerateTemporaryCredentialsError::CredentialsNotReturned)
        },
    }
}

/// Turns the outcome of a session-token call into the generated bundle or
/// a classified error. Every bundle returned is well formed: all four of
/// its fields are non-empty.
pub fn credentials_from_outcome(outcome: SessionTokenOutcome) -> (r: Result<
    CredentialBundle,
    GenerateTemporaryCredentialsError,
>)
    ensures
        r == spec_generate(outcome),
        r matches Ok(b) ==> b.well_formed(),
{
    match outcome {
        SessionTokenOutcome::Failed { region_disabled } => Err(
            GenerateTemporaryCredentialsError::classify_service_error(region_disabled),
        ),
        SessionTokenOutcome::Completed { credentials: None } => Err(
            GenerateTemporaryCredentialsError::CredentialsNotReturned,
        ),
        SessionTokenOutcome::Completed { credentials: Some(c) } => match CredentialBundle::new(
            c.access_key_id,
            c.secret_access_key,
            c.session_token,
            c.expiration,
        ) {
            Some(b) => Ok(b),
            None => Err(GenerateTemporaryCredentialsError::CredentialsNotReturned),
        },
    }
}

/// A completed call that carried no credential payload classifies as
/// `CredentialsNotReturned`, never as the catch-all `Unknown`.
pub proof fn lemma_missing_credentials_classification()
    ensures
        spec_generate(SessionTokenOutcome::Completed { credentials: None }) == Err::<
            CredentialBundle,
            GenerateTemporaryCredentialsError,
        >(GenerateTemporaryCredentialsError::CredentialsNotReturned),
{
}

/// A failed call whose service error signals a disabled region classifies
/// as `RegionDisabled`, taking priority over the generic handling.
pub proof fn lemma_region_disabled_priority()
    ensures
        spec_generate(SessionTokenOutcome::Failed { region_disabled: true }) == Err::<
            CredentialBundle,
            GenerateTemporaryCredentialsError,
        >(GenerateTemporaryCredentialsError::RegionDisabled),
{
}

/// Every other failed call classifies as `Unknown`.
pub proof fn lemma_other_failures_classify_unknown(region_disabled: bool)
    requires
        !region_disabled,
    ensures
        spec_generate(SessionTokenOutcome::Failed { region_disabled }) == Err::<
            CredentialBundle,
            GenerateTemporaryCredentialsError,
        >(GenerateTemporaryCredentialsError::Unknown),
{
}

} // verus!
