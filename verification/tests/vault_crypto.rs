//! Key derivation and authenticated encryption: round trips, nonce freshness,
//! tamper detection, and the separation of the verifier from the vault key.

use vault::vault::{
    Cipher, CipherSecret, DecryptionError, FileContent, FileInfo, FolderName, Password, Salt,
    Secret, Vault,
};

fn vault_for(password: &str, salt: &Salt) -> Vault {
    Vault::new(Password::new(password.to_owned()), salt.clone()).unwrap()
}

#[test]
fn encrypt_decrypt_round_trip() {
    let salt = Salt::generate().unwrap();
    let vault = vault_for("correct horse", &salt);
    let secret = Secret::conceal(FolderName { name: "Receipts".to_owned() });
    let cipher = vault.encrypt(&secret).unwrap();
    let recovered = vault.decrypt(&cipher).unwrap();
    assert_eq!(recovered.reveal_secret().name, "Receipts");
}

#[test]
fn derivation_is_deterministic_across_vaults() {
    let salt = Salt::generate().unwrap();
    let vault1 = vault_for("correct horse", &salt);
    let secret = Secret::conceal(FileInfo {
        name: "notes.txt".to_owned(),
        mime_type: "text/plain".to_owned(),
    });
    let cipher = vault1.encrypt(&secret).unwrap();

    let vault2 = vault_for("correct horse", &salt);
    let recovered = vault2.decrypt(&cipher).unwrap().into_revealed_secret();
    assert_eq!(recovered.name, "notes.txt");
    assert_eq!(recovered.mime_type, "text/plain");
}

#[test]
fn bit_flips_fail_authentication() {
    let salt = Salt::generate().unwrap();
    let vault = vault_for("correct horse", &salt);
    let secret = Secret::conceal(FileContent { data: vec![42, 43] });
    let cipher = vault.encrypt(&secret).unwrap();
    let bytes = cipher.as_bytes().to_vec();
    let mut byte_index = 0;
    while byte_index < bytes.len() {
        let mut bit = 0;
        while bit < 8 {
            let mut flipped = bytes.clone();
            flipped[byte_index] ^= 1 << bit;
            let tampered: Cipher<FileContent> = Cipher::from_bytes(flipped);
            let result = vault.decrypt(&tampered);
            assert!(matches!(result, Err(DecryptionError::ChaChaError)));
            bit += 1;
        }
        byte_index += 1;
    }
}

#[test]
fn truncated_cipher_fails_as_tampered() {
    let salt = Salt::generate().unwrap();
    let vault = vault_for("correct horse", &salt);
    let tampered: Cipher<FolderName> = Cipher::from_bytes(vec![7; 10]);
    assert!(matches!(vault.decrypt(&tampered), Err(DecryptionError::ChaChaError)));
}

#[test]
fn authentic_but_malformed_plaintext_is_a_decode_error() {
    // Seal bytes that are too short to be a file descriptor, then present the
    // ciphertext as one: the tag verifies, so the failure must be the decode
    // error, reported distinctly from tampering.
    let salt = Salt::generate().unwrap();
    let vault = vault_for("correct horse", &salt);
    let content = Secret::conceal(FileContent { data: vec![1, 2, 3] });
    let cipher = vault.encrypt(&content).unwrap();
    let reinterpreted: Cipher<FileInfo> = Cipher::from_bytes(cipher.as_bytes().to_vec());
    let result = vault.decrypt(&reinterpreted);
    assert!(matches!(result, Err(DecryptionError::UnexpectedEndOfBytes)));
}

#[test]
fn repeated_encryption_uses_fresh_nonces() {
    let salt = Salt::generate().unwrap();
    let vault = vault_for("correct horse", &salt);
    let secret = Secret::conceal(FolderName { name: "Receipts".to_owned() });
    let cipher1 = vault.encrypt(&secret).unwrap();
    let cipher2 = vault.encrypt(&secret).unwrap();
    assert_ne!(cipher1.as_bytes(), cipher2.as_bytes());
    assert!(cipher1 != cipher2);
    assert_eq!(vault.decrypt(&cipher1).unwrap().reveal_secret().name, "Receipts");
    assert_eq!(vault.decrypt(&cipher2).unwrap().reveal_secret().name, "Receipts");
}

#[test]
fn wrong_password_cannot_decrypt() {
    let salt = Salt::generate().unwrap();
    let vault = vault_for("correct horse", &salt);
    let secret = Secret::conceal(FolderName { name: "Receipts".to_owned() });
    let cipher = vault.encrypt(&secret).unwrap();
    let other = vault_for("incorrect horse", &salt);
    assert!(matches!(other.decrypt(&cipher), Err(DecryptionError::ChaChaError)));
}

#[test]
fn wrong_salt_cannot_decrypt() {
    let salt1 = Salt::generate().unwrap();
    let salt2 = Salt::generate().unwrap();
    let vault1 = vault_for("correct horse", &salt1);
    let vault2 = vault_for("correct horse", &salt2);
    let cipher = vault1
        .encrypt(&Secret::conceal(FolderName { name: "Receipts".to_owned() }))
        .unwrap();
    assert!(matches!(vault2.decrypt(&cipher), Err(DecryptionError::ChaChaError)));
}

#[test]
fn verifier_is_deterministic_and_salted() {
    let salt1 = Salt::generate().unwrap();
    let salt2 = Salt::generate().unwrap();
    let hash1 = Password::new("pw".to_owned()).hash(&salt1);
    let hash2 = Password::new("pw".to_owned()).hash(&salt1);
    let hash3 = Password::new("pw".to_owned()).hash(&salt2);
    let hash4 = Password::new("pw2".to_owned()).hash(&salt1);
    assert!(hash1.matches(&hash2));
    assert!(!hash1.matches(&hash3));
    assert!(!hash1.matches(&hash4));
}

#[test]
fn cipher_equality_and_clone_track_bytes() {
    let cipher1: Cipher<FileContent> = Cipher::from_bytes(vec![1, 2, 3]);
    let cipher2: Cipher<FileContent> = Cipher::from_bytes(vec![1, 2, 3]);
    let cipher3: Cipher<FileContent> = Cipher::from_bytes(vec![1, 2, 4]);
    assert!(cipher1 == cipher2);
    assert!(cipher1 != cipher3);
    assert!(cipher1 == cipher1.clone());
    assert_eq!(cipher1.as_bytes(), &[1, 2, 3]);
}

#[test]
fn redacted_renderings_never_show_bytes() {
    let salt = Salt::generate().unwrap();
    let password = Password::new("correct horse".to_owned());
    let hash = password.hash(&salt);
    let vault = vault_for("correct horse", &salt);
    let secret = Secret::conceal(FolderName { name: "Receipts".to_owned() });
    assert_eq!(salt.redacted(), "Salt(...)");
    assert_eq!(password.redacted(), "Password(...)");
    assert_eq!(hash.redacted(), "PasswordHash(...)");
    assert_eq!(vault.redacted(), "Vault(...)");
    assert_eq!(secret.redacted(), "Secret(...)");
}
