//! Classified failure reasons for credential generation.
use vstd::prelude::*;

verus! {

/// Represents errors that can occur when generating temporary credentials.
#[derive(Clone, Copy, Debug, Hash, PartialEq, Eq, PartialOrd, Ord, Structural)]
pub enum GenerateTemporaryCredentialsError {
    /// An unknown error occurred.
    Unknown,
    /// The region is disabled.
    RegionDisabled,
    /// The credentials were not returned.
    CredentialsNotReturned,
}

impl Default for GenerateTemporaryCredentialsError {
    /// The default classification is the catch-all `Unknown`.
    fn default() -> (r: Self)
        ensures
            r == GenerateTemporaryCredentialsError::Unknown,
    {
        GenerateTemporaryCredentialsError::Unknown
    }
}

impl GenerateTemporaryCredentialsError {
    /// A short message naming the failure, for reporting to a library
    /// consumer.
    pub fn message(&self) -> (r: &'static str)
        ensures
            *self is Unknown ==> r@ == "unknown"@,
            *self is RegionDisabled ==> r@ == "region disabled"@,
            *self is CredentialsNotReturned ==> r@ == "credentials not returned"@,
    {
        match self {
            GenerateTemporaryCredentialsError::Unknown => "unknown",
            GenerateTemporaryCredentialsError::RegionDisabled => "region disabled",
            GenerateTemporaryCredentialsError::CredentialsNotReturned => "credentials not returned",
        }
    }

    /// Classifies a failed session-token call. A service error that signals
    /// a disabled region maps to `RegionDisabled`, taking priority over the
    /// generic handling; every other failure maps to `Unknown`.
    pub fn classify_service_error(region_disabled: bool) -> (r: Self)
        ensures
            region_disabled ==> r == GenerateTemporaryCredentialsError::RegionDisabled,
            !region_disabled ==> r == GenerateTemporaryCredentialsError::Unknown,
    {
        if region_disabled {
            GenerateTemporaryCredentialsError::RegionDisabled
        } else {
            GenerateTemporaryCredentialsError::Unknown
        }
    }
}

} // verus!
