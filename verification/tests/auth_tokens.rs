//! Session tokens: sign-then-validate, the validity window, and rejection of
//! every altered field.

use vault::account::auth::{Auth, Authenticator};

const DAY_MILLIS: u64 = 86_400_000;

#[test]
fn sign_then_validate_succeeds() {
    let authenticator = Authenticator::new([7; 64]);
    let auth = authenticator.sign("alice".to_owned(), DAY_MILLIS);
    assert!(authenticator.validate(&auth));
    assert_eq!(auth.username(&authenticator).unwrap(), "alice");
}

#[test]
fn validity_window_is_exact() {
    let authenticator = Authenticator::new([7; 64]);
    let auth = authenticator.sign_at("alice".to_owned(), 1_000, 50_000);
    assert!(authenticator.validate_at(&auth, 50_000));
    assert!(authenticator.validate_at(&auth, 50_999));
    assert!(!authenticator.validate_at(&auth, 51_000));
    assert!(!authenticator.validate_at(&auth, 60_000));
    assert!(!authenticator.validate_at(&auth, 49_999));
}

#[test]
fn altered_username_is_rejected() {
    let authenticator = Authenticator::new([7; 64]);
    let auth = authenticator.sign_at("alice".to_owned(), 1_000, 50_000);
    let altered = Auth::from_parts(
        "alicf".to_owned(),
        auth.generated_at(),
        auth.valid_for(),
        auth.auth_code(),
    );
    assert!(!authenticator.validate_at(&altered, 50_000));
    assert!(altered.username(&authenticator).is_err());
}

#[test]
fn altered_issue_time_is_rejected() {
    let authenticator = Authenticator::new([7; 64]);
    let auth = authenticator.sign_at("alice".to_owned(), 1_000, 50_000);
    let altered = Auth::from_parts(
        "alice".to_owned(),
        auth.generated_at() + 1,
        auth.valid_for(),
        auth.auth_code(),
    );
    assert!(!authenticator.validate_at(&altered, 50_001));
}

#[test]
fn altered_validity_span_is_rejected() {
    let authenticator = Authenticator::new([7; 64]);
    let auth = authenticator.sign_at("alice".to_owned(), 1_000, 50_000);
    let altered = Auth::from_parts(
        "alice".to_owned(),
        auth.generated_at(),
        auth.valid_for() + DAY_MILLIS,
        auth.auth_code(),
    );
    assert!(!authenticator.validate_at(&altered, 50_000));
}

#[test]
fn altered_tag_is_rejected() {
    let authenticator = Authenticator::new([7; 64]);
    let auth = authenticator.sign_at("alice".to_owned(), 1_000, 50_000);
    let mut code = auth.auth_code();
    code[0] ^= 1;
    let altered = Auth::from_parts("alice".to_owned(), auth.generated_at(), auth.valid_for(), code);
    assert!(!authenticator.validate_at(&altered, 50_000));
}

#[test]
fn other_key_rejects_the_token() {
    let signer = Authenticator::new([7; 64]);
    let other = Authenticator::new([8; 64]);
    let auth = signer.sign_at("alice".to_owned(), 1_000, 50_000);
    assert!(!other.validate_at(&auth, 50_000));
    assert!(signer.validate_at(&auth, 50_000));
}

#[test]
fn token_fields_survive_the_wire() {
    let authenticator = Authenticator::new([7; 64]);
    let auth = authenticator.sign_at("alice".to_owned(), 1_000, 50_000);
    let rebuilt = Auth::from_parts(
        auth.raw_username().clone(),
        auth.generated_at(),
        auth.valid_for(),
        auth.auth_code(),
    );
    assert!(authenticator.validate_at(&rebuilt, 50_000));
}
