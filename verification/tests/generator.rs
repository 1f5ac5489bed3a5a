use aws_tmp_cred_gen::credentials::CredentialBundle;
use aws_tmp_cred_gen::error::GenerateTemporaryCredentialsError;
use aws_tmp_cred_gen::generator::credentials_from_outcome;
use aws_tmp_cred_gen::generator::SessionTokenCredentials;
use aws_tmp_cred_gen::generator::SessionTokenOutcome;
use aws_tmp_cred_gen::VALIDITY;

fn sample_credentials() -> SessionTokenCredentials {
    SessionTokenCredentials {
        access_key_id: String::from("AKIDEXAMPLE"),
        secret_access_key: String::from("secret-key-material"),
        session_token: String::from("session-token-material"),
        expiration: String::from("2026-01-01T00:00:00Z"),
    }
}

#[test]
fn requested_validity_is_900() {
    assert_eq!(VALIDITY, 900);
}

#[test]
fn default_error_is_unknown() {
    assert_eq!(
        GenerateTemporaryCredentialsError::default(),
        GenerateTemporaryCredentialsError::Unknown
    );
}

#[test]
fn error_messages_name_each_failure() {
    assert_eq!(GenerateTemporaryCredentialsError::Unknown.message(), "unknown");
    assert_eq!(
        GenerateTemporaryCredentialsError::RegionDisabled.message(),
        "region disabled"
    );
    assert_eq!(
        GenerateTemporaryCredentialsError::CredentialsNotReturned.message(),
        "credentials not returned"
    );
}

#[test]
fn region_disabled_service_error_classifies_region_disabled() {
    assert_eq!(
        GenerateTemporaryCredentialsError::classify_service_error(true),
        GenerateTemporaryCredentialsError::RegionDisabled
    );
}

#[test]
fn other_service_error_classifies_unknown() {
    assert_eq!(
        GenerateTemporaryCredentialsError::classify_service_error(false),
        GenerateTemporaryCredentialsError::Unknown
    );
}

#[test]
fn successful_outcome_yields_bundle_with_all_fields() {
    let outcome = SessionTokenOutcome::Completed { credentials: Some(sample_credentials()) };
    let bundle = credentials_from_outcome(outcome).expect("bundle");
    assert_eq!(bundle.access_key_id, "AKIDEXAMPLE");
    assert_eq!(bundle.secret_access_key, "secret-key-material");
    assert_eq!(bundle.session_token, "session-token-material");
    assert_eq!(bundle.expiration, "2026-01-01T00:00:00Z");
    assert!(!bundle.access_key_id.is_empty());
    assert!(!bundle.secret_access_key.is_empty());
    assert!(!bundle.session_token.is_empty());
    assert!(!bundle.expiration.is_empty());
}

#[test]
fn missing_credentials_classify_credentials_not_returned() {
    let outcome = SessionTokenOutcome::Completed { credentials: None };
    assert_eq!(
        credentials_from_outcome(outcome),
        Err(GenerateTemporaryCredentialsError::CredentialsNotReturned)
    );
}

#[test]
fn empty_credential_field_classifies_credentials_not_returned() {
    let mut credentials = sample_credentials();
    credentials.session_token = String::new();
    let outcome = SessionTokenOutcome::Completed { credentials: Some(credentials) };
    assert_eq!(
        credentials_from_outcome(outcome),
        Err(GenerateTemporaryCredentialsError::CredentialsNotReturned)
    );
}

#[test]
fn region_disabled_failure_classifies_region_disabled() {
    let outcome = SessionTokenOutcome::Failed { region_disabled: true };
    assert_eq!(
        credentials_from_outcome(outcome),
        Err(GenerateTemporaryCredentialsError::RegionDisabled)
    );
}

#[test]
fn other_failure_classifies_unknown() {
    let outcome = SessionTokenOutcome::Failed { region_disabled: false };
    assert_eq!(
        credentials_from_outcome(outcome),
        Err(GenerateTemporaryCredentialsError::Unknown)
    );
}

#[test]
fn bundle_new_rejects_each_empty_field() {
    let full = sample_credentials();
    let empty = String::new();
    assert!(CredentialBundle::new(
        empty.clone(),
        full.secret_access_key.clone(),
        full.session_token.clone(),
        full.expiration.clone(),
    )
    .is_none());
    assert!(CredentialBundle::new(
        full.access_key_id.clone(),
        empty.clone(),
        full.session_token.clone(),
        full.expiration.clone(),
    )
    .is_none());
    assert!(CredentialBundle::new(
        full.access_key_id.clone(),
        full.secret_access_key.clone(),
        empty.clone(),
        full.expiration.clone(),
    )
    .is_none());
    assert!(CredentialBundle::new(
        full.access_key_id.clone(),
        full.secret_access_key.clone(),
        full.session_token.clone(),
        empty,
    )
    .is_none());
}

#[test]
fn bundle_new_accepts_full_fields() {
    let full = sample_credentials();
    let bundle = CredentialBundle::new(
        full.access_key_id,
        full.secret_access_key,
        full.session_token,
        full.expiration,
    )
    .expect("bundle");
    assert_eq!(bundle.access_key_id, "AKIDEXAMPLE");
}
