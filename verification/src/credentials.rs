//! The temporary credential bundle and its validity invariant.
use vstd::prelude::*;

verus! {

/// A temporary credential bundle: access key identifier, secret key
/// material, session token, and the expiration timestamp rendered as a
/// string. A bundle is only ever constructed with all four fields
/// non-empty, and is immutable once returned.
#[derive(Debug, PartialEq, Eq)]
pub struct CredentialBundle {
    pub access_key_id: String,
    pub secret_access_key: String,
    pub session_token: String,
    pub expiration: String,
}

impl CredentialBundle {
    /// A bundle is well formed when all four of its fields are non-empty.
    pub open spec fn well_formed(self) -> bool {
        &&& self.access_key_id@.len() > 0
        &&& self.secret_access_key@.len() > 0
        &&& self.session_token@.len() > 0
        &&& self.expiration@.len() > 0
    }

    /// Builds a bundle from the four raw fields. Returns `None` exactly
    /// when one of the fields is empty, so that every bundle handed out
    /// is well formed.
    pub fn new(
        access_key_id: String,
        secret_access_key: String,
        session_token: String,
        expiration: String,
    ) -> (r: Option<CredentialBundle>)
        ensures
            r is Some <==> (access_key_id@.len() > 0 && secret_access_key@.len() > 0
                && session_token@.len() > 0 && expiration@.len() > 0),
            r matches Some(b) ==> b.access_key_id == access_key_id
                && b.secret_access_key == secret_access_key
                && b.session_token == session_token
                && b.expiration == expiration
                && b.well_formed(),
    {
        if !access_key_id.as_str().is_empty() && !secret_access_key.as_str().is_empty()
            && !session_token.as_str().is_empty() && !expiration.as_str().is_empty() {
            Some(CredentialBundle { access_key_id, secret_access_key, session_token, expiration })
        } else {
            None
        }
    }
}

} // verus!
