//! The end-to-end account story: create an account, derive the vault, encrypt
//! a folder name, log in later from the stored salt and verifier, and recover
//! the folder name under a freshly re-derived vault.

use vault::account::{create_account, login, CreateAccountError, LoginError};
use vault::account::auth::Authenticator;
use vault::db::token;
use vault::vault::{Cipher, FolderName, Password, PasswordHash, Salt, Secret, Vault};

const DAY_MILLIS: u64 = 86_400_000;

#[test]
fn end_to_end_account_flow() {
    // Account creation: generate the salt, compute the verifier, store both.
    let salt = Salt::generate().unwrap();
    let stored_salt: [u8; 32] = salt.to_db(token());
    let verifier = Password::new("correct horse".to_owned()).hash(&salt);
    let stored_verifier: [u8; 64] = verifier.to_db(token());

    let authenticator = Authenticator::new([9; 64]);
    let created = create_account("alice".to_owned(), false, &authenticator, DAY_MILLIS).unwrap();
    assert!(created.folder_names.is_empty());
    assert!(authenticator.validate(&created.auth));

    // Derive the vault and encrypt a folder name.
    let vault = Vault::new(
        Password::new("correct horse".to_owned()),
        Salt::from_db(stored_salt, token()),
    )
    .unwrap();
    let cipher = vault
        .encrypt(&Secret::conceal(FolderName { name: "Receipts".to_owned() }))
        .unwrap();
    let stored_cipher = cipher.as_bytes().to_vec();

    // Later: fetch the salt, recompute the hash, and log in.
    let fetched_salt = Salt::from_db(stored_salt, token());
    let presented = Password::new("correct horse".to_owned()).hash(&fetched_salt);
    let stored = PasswordHash::from_db(stored_verifier, token());
    assert!(presented.matches(&stored));

    let data = login(
        "alice".to_owned(),
        &presented,
        Some(&stored),
        vec![Cipher::from_bytes(stored_cipher)],
        &authenticator,
        DAY_MILLIS,
    )
    .unwrap();
    assert!(authenticator.validate(&data.auth));
    assert_eq!(data.auth.raw_username().as_str(), "alice");

    // Re-derive the vault from the same password and salt; it recovers the
    // folder name exactly.
    let rederived = Vault::new(
        Password::new("correct horse".to_owned()),
        Salt::from_db(stored_salt, token()),
    )
    .unwrap();
    let recovered = rederived.decrypt(&data.folder_names[0]).unwrap();
    assert_eq!(recovered.reveal_secret().name, "Receipts");
}

#[test]
fn login_rejects_unknown_user() {
    let authenticator = Authenticator::new([9; 64]);
    let salt = Salt::generate().unwrap();
    let presented = Password::new("pw".to_owned()).hash(&salt);
    let result = login("bob".to_owned(), &presented, None, Vec::new(), &authenticator, DAY_MILLIS);
    assert!(matches!(result, Err(LoginError::UnknownUser)));
}

#[test]
fn login_rejects_incorrect_password() {
    let authenticator = Authenticator::new([9; 64]);
    let salt = Salt::generate().unwrap();
    let stored = Password::new("correct horse".to_owned()).hash(&salt);
    let presented = Password::new("incorrect horse".to_owned()).hash(&salt);
    let result = login(
        "alice".to_owned(),
        &presented,
        Some(&stored),
        Vec::new(),
        &authenticator,
        DAY_MILLIS,
    );
    assert!(matches!(result, Err(LoginError::IncorrectPassword)));
}

#[test]
fn create_account_rejects_taken_username() {
    let authenticator = Authenticator::new([9; 64]);
    let result = create_account("alice".to_owned(), true, &authenticator, DAY_MILLIS);
    assert!(matches!(result, Err(CreateAccountError::UsernameTaken)));
}
