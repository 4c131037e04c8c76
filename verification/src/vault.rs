//! The cryptographic data-protection layer: password-derived symmetric keys,
//! authenticated encryption of typed secrets, and the byte encodings of the
//! secret kinds.

use vstd::prelude::*;

pub mod cipher_secret;
pub mod db_access;
pub(crate) mod secure;
pub mod types;

pub use cipher_secret::{lemma_codec_round_trip, Cipher, CipherSecret, Secret};
pub use secure::{
    argon2_key_of, lemma_derivation_deterministic, open_of, seal_of, sha512_of, spec_decrypt,
    Password, Vault, NONCE_LEN,
};
pub use types::{FileContent, FileInfo, FileInfoView, FolderName};

verus! {

/// Why an encryption attempt failed.
#[derive(Clone, Copy, PartialEq, Eq, Structural, Debug)]
pub enum EncryptionError {
    /// The entropy source could not produce a random nonce.
    NonceGenerationError,
    /// The underlying cipher reported a failure.
    ChaChaError,
}

/// Why a decryption attempt failed.
#[derive(Clone, Copy, PartialEq, Eq, Structural, Debug)]
pub enum DecryptionError {
    /// The opened plaintext held a text field that is not valid UTF-8.
    ParseUtf8Error,
    /// The opened plaintext ended before a required field was complete.
    UnexpectedEndOfBytes,
    /// The ciphertext did not authenticate: it was tampered with, corrupted,
    /// or too short to carry a nonce and a tag.
    ChaChaError,
}

/// The entropy source failed to produce random bytes.
#[derive(Clone, Copy, PartialEq, Eq, Structural, Debug)]
pub struct EntropyError;

/// The key-derivation function rejected its configuration; an unexpected,
/// fatal condition rather than a user-facing error.
#[derive(Clone, Copy, PartialEq, Eq, Structural, Debug)]
pub struct KeyDerivationError;

/// Per-account public randomness, mixed into both the password verifier and
/// the vault key so that equal passwords on different accounts yield
/// unrelated keys.
pub struct Salt {
    data: [u8; 32],
}

impl View for Salt {
    type V = Seq<u8>;

    closed spec fn view(&self) -> Seq<u8> {
        self.data@
    }
}

impl Salt {
    /// The number of bytes in a salt.
    pub open spec fn spec_len() -> nat {
        32
    }

    /// A redacted placeholder: rendering a salt never shows its bytes.
    pub fn redacted(&self) -> (r: String)
        ensures
            r@ == "Salt(...)"@,
    {
        "Salt(...)".to_owned()
    }
}

impl Clone for Salt {
    fn clone(&self) -> (r: Self)
        ensures
            r@ == self@,
    {
        Salt { data: self.data }
    }
}

/// The fixed-width password verifier stored server-side and compared at
/// login. Derived with a keyed hash, not with the vault's key-derivation
/// function, so that a stolen verifier does not yield the encryption key.
pub struct PasswordHash {
    data: [u8; 64],
}

impl View for PasswordHash {
    type V = Seq<u8>;

    closed spec fn view(&self) -> Seq<u8> {
        self.data@
    }
}

impl PasswordHash {
    /// A redacted placeholder: rendering a verifier never shows its bytes.
    pub fn redacted(&self) -> (r: String)
        ensures
            r@ == "PasswordHash(...)"@,
    {
        "PasswordHash(...)".to_owned()
    }

    /// Compares two verifiers byte for byte.
    pub fn matches(&self, other: &PasswordHash) -> (r: bool)
        ensures
            r == (self@ == other@),
    {
        crate::bytes_eq(self.data.as_slice(), other.data.as_slice())
    }
}

impl Clone for PasswordHash {
    fn clone(&self) -> (r: Self)
        ensures
            r@ == self@,
    {
        PasswordHash { data: self.data }
    }
}

} // verus!
