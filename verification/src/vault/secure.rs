//! Key derivation, authenticated encryption, and the trusted wrappers around
//! the outside cryptographic primitives they compose.

use chacha20poly1305::aead::Aead;
use chacha20poly1305::{KeyInit, XChaCha20Poly1305};
use sha2::Digest;
use vstd::prelude::*;
use vstd::string::StrSliceExecFns;

use crate::vault::{
    Cipher, CipherSecret, DecryptionError, EncryptionError, EntropyError, KeyDerivationError,
    PasswordHash, Salt, Secret,
};

verus! {

/// The nonce width in bytes. At 24 bytes (192 bits), randomly drawn nonces
/// collide with negligible probability over any realistic number of
/// encryptions under one key.
pub const NONCE_LEN: usize = 24;

/// The key that the memory-hard key-derivation function produces from a
/// password and a salt. Deterministic in its arguments and nothing else.
pub uninterp spec fn argon2_key_of(password: Seq<u8>, salt: Seq<u8>) -> Seq<u8>;

/// The 64-byte digest of the keyed hash used for password verifiers.
pub uninterp spec fn sha512_of(data: Seq<u8>) -> Seq<u8>;

/// The authenticated ciphertext (including its tag) that sealing a plaintext
/// under a key and nonce produces.
pub uninterp spec fn seal_of(key: Seq<u8>, nonce: Seq<u8>, plain: Seq<u8>) -> Seq<u8>;

/// What opening a ciphertext under a key and nonce yields: the plaintext when
/// the tag authenticates, nothing otherwise.
pub uninterp spec fn open_of(key: Seq<u8>, nonce: Seq<u8>, ciphertext: Seq<u8>) -> Option<Seq<u8>>;

/// Relies on getrandom::getrandom: fills the buffer with random bytes from
/// the operating system, reporting failure instead of panicking. Nothing can
/// be promised about the bytes themselves.
#[verifier::external_body]
pub(crate) fn fill_random(buf: &mut Vec<u8>) -> (ok: bool)
    ensures
        final(buf)@.len() == old(buf)@.len(),
{
    getrandom::getrandom(buf.as_mut_slice()).is_ok()
}

/// Relies on argon2::Argon2::hash_password_into with the default parameters:
/// a memory-hard function of the password and salt alone. With a 32-byte salt
/// and a 32-byte output the call only fails on an over-long password or on
/// memory exhaustion, reported here as None.
#[verifier::external_body]
fn derive_key(password: &[u8], salt: &[u8; 32]) -> (r: Option<[u8; 32]>)
    ensures
        r matches Some(key) ==> key@ == argon2_key_of(password@, salt@),
{
    let mut key = [0u8; 32];
    match argon2::Argon2::default().hash_password_into(password, salt, &mut key) {
        Ok(()) => Some(key),
        Err(_) => None,
    }
}

/// Relies on sha2::Sha512: the digest is a function of the input bytes alone.
#[verifier::external_body]
fn sha512(data: &[u8]) -> (r: [u8; 64])
    ensures
        r@ == sha512_of(data@),
{
    let digest = sha2::Sha512::new().chain_update(data).finalize();
    digest.into()
}

/// Relies on chacha20poly1305::XChaCha20Poly1305 (an AEAD): sealing is a
/// function of key, nonce and plaintext, and opening the sealed bytes under
/// the same key and nonce yields the plaintext back. Fails only when the
/// cipher rejects the plaintext (over-long input), reported here as None.
#[verifier::external_body]
fn aead_seal(key: &[u8; 32], nonce: &[u8], plain: &[u8]) -> (r: Option<Vec<u8>>)
    requires
        nonce@.len() == NONCE_LEN,
    ensures
        r matches Some(sealed) ==> sealed@ == seal_of(key@, nonce@, plain@),
        r matches Some(sealed) ==> open_of(key@, nonce@, sealed@) == Some(plain@),
{
    let cipher = XChaCha20Poly1305::new(key.into());
    let nonce_arr: &chacha20poly1305::XNonce = nonce.try_into().expect("nonce is 24 bytes");
    cipher.encrypt(nonce_arr, plain).ok()
}

/// Relies on chacha20poly1305::XChaCha20Poly1305 (an AEAD): opening is a
/// function of key, nonce and ciphertext; it yields a plaintext exactly when
/// the authentication tag verifies.
#[verifier::external_body]
fn aead_open(key: &[u8; 32], nonce: &[u8], ciphertext: &[u8]) -> (r: Option<Vec<u8>>)
    requires
        nonce@.len() == NONCE_LEN,
    ensures
        match r {
            Some(plain) => open_of(key@, nonce@, ciphertext@) == Some(plain@),
            None => open_of(key@, nonce@, ciphertext@) is None,
        },
{
    let cipher = XChaCha20Poly1305::new(key.into());
    let nonce_arr: &chacha20poly1305::XNonce = nonce.try_into().expect("nonce is 24 bytes");
    cipher.decrypt(nonce_arr, ciphertext).ok()
}

/// Relies on std's String::from_utf8: yields a string exactly when the bytes
/// are valid UTF-8, and the string's encoding is those bytes.
#[verifier::external_body]
pub(crate) fn string_from_utf8(bytes: Vec<u8>) -> (r: Option<String>)
    ensures
        match r {
            Some(s) => vstd::utf8::valid_utf8(bytes@) && vstd::utf8::encode_utf8(s@) == bytes@,
            None => !vstd::utf8::valid_utf8(bytes@),
        },
{
    String::from_utf8(bytes).ok()
}

impl Salt {
    /// Draws a fresh 32-byte salt from the entropy source.
    pub fn generate() -> (r: Result<Self, EntropyError>)
        ensures
            r matches Ok(salt) ==> salt@.len() == Salt::spec_len(),
    {
        match random_array_32() {
            Some(data) => Ok(Salt { data }),
            None => Err(EntropyError),
        }
    }
}

/// Draws 32 random bytes as an array.
fn random_array_32() -> (r: Option<[u8; 32]>) {
    let mut buf: Vec<u8> = vec![0u8; 32];
    if !fill_random(&mut buf) {
        return None;
    }
    let mut data = [0u8; 32];
    let mut i: usize = 0;
    while i < 32
        invariant
            0 <= i <= 32,
            buf@.len() == 32,
        decreases 32 - i,
    {
        data[i] = buf[i];
        i += 1;
    }
    Some(data)
}

/// A plaintext password, held only long enough to derive the verifier and the
/// vault key. It offers no serialization, and rendering it shows a redacted
/// placeholder.
pub struct Password {
    plain_text: String,
}

impl View for Password {
    type V = Seq<char>;

    closed spec fn view(&self) -> Seq<char> {
        self.plain_text@
    }
}

impl Password {
    /// Wraps the plaintext password.
    pub fn new(plain_text: String) -> (r: Self)
        ensures
            r@ == plain_text@,
    {
        Password { plain_text }
    }

    /// The password verifier: the keyed hash of the password bytes followed
    /// by the salt. Fast by design, and computed with a different primitive
    /// than the vault key, so neither can be derived from the other.
    pub fn hash(&self, salt: &Salt) -> (r: PasswordHash)
        ensures
            r@ == sha512_of(vstd::utf8::encode_utf8(self@) + salt@),
    {
        let mut buf = self.plain_text.as_str().as_bytes_vec();
        buf.extend_from_slice(salt.data.as_slice());
        proof {
            assert(buf@ =~= vstd::utf8::encode_utf8(self@) + salt@);
        }
        PasswordHash { data: sha512(buf.as_slice()) }
    }

    /// A redacted placeholder: rendering a password never shows its text.
    pub fn redacted(&self) -> (r: String)
        ensures
            r@ == "Password(...)"@,
    {
        "Password(...)".to_owned()
    }
}

/// What decrypting `data` of kind `T` under `key` yields: the nonce is split
/// off, the remainder is opened, and the plaintext is decoded as the kind's
/// encoding. Each failure carries the error the implementation reports.
pub open spec fn spec_decrypt<T: CipherSecret>(key: Seq<u8>, data: Seq<u8>) -> Result<
    T::V,
    DecryptionError,
> {
    if data.len() < NONCE_LEN {
        Err(DecryptionError::ChaChaError)
    } else {
        match open_of(
            key,
            data.subrange(0, NONCE_LEN as int),
            data.subrange(NONCE_LEN as int, data.len() as int),
        ) {
            Some(plain) => T::spec_decode(plain),
            None => Err(DecryptionError::ChaChaError),
        }
    }
}

/// A password-derived symmetric key together with the cipher built from it.
/// Held only in memory for a session; never transmitted or persisted.
pub struct Vault {
    key: [u8; 32],
}

impl View for Vault {
    type V = Seq<u8>;

    closed spec fn view(&self) -> Seq<u8> {
        self.key@
    }
}

impl Vault {
    /// Derives the vault from a password and the account's salt with the
    /// memory-hard key-derivation function. Deterministic: the same password
    /// and salt always yield the same vault.
    pub fn new(password: Password, salt: Salt) -> (r: Result<Self, KeyDerivationError>)
        ensures
            r matches Ok(v) ==> v@ == argon2_key_of(
                vstd::utf8::encode_utf8(password@),
                salt@,
            ),
    {
        let password_bytes = password.plain_text.as_str().as_bytes_vec();
        match derive_key(password_bytes.as_slice(), &salt.data) {
            Some(key) => Ok(Vault { key }),
            None => Err(KeyDerivationError),
        }
    }

    /// Encrypts a secret: encodes it, draws a fresh random nonce, seals the
    /// encoding, and returns nonce followed by ciphertext. The produced
    /// cipher decrypts under this vault's key back to the secret.
    pub fn encrypt<T: CipherSecret>(&self, secret: &Secret<T>) -> (r: Result<
        Cipher<T>,
        EncryptionError,
    >)
        ensures
            r matches Ok(c) ==> spec_decrypt::<T>(self@, c@) == Ok::<T::V, DecryptionError>(
                secret@,
            ),
            r matches Ok(c) ==> c@.len() >= NONCE_LEN && c@.subrange(
                NONCE_LEN as int,
                c@.len() as int,
            ) == seal_of(self@, c@.subrange(0, NONCE_LEN as int), T::spec_encode(secret@)),
    {
        let plain = secret.reveal_secret().as_bytes();
        let mut nonce: Vec<u8> = vec![0u8; NONCE_LEN];
        if !fill_random(&mut nonce) {
            return Err(EncryptionError::NonceGenerationError);
        }
        let sealed = match aead_seal(&self.key, nonce.as_slice(), plain.as_slice()) {
            Some(sealed) => sealed,
            None => {
                return Err(EncryptionError::ChaChaError);
            },
        };
        let cipher = Cipher::new(nonce.as_slice(), sealed.as_slice());
        proof {
            T::lemma_encode_decode(secret@);
            assert(cipher@.subrange(0, NONCE_LEN as int) =~= nonce@);
            assert(cipher@.subrange(NONCE_LEN as int, cipher@.len() as int) =~= sealed@);
        }
        Ok(cipher)
    }

    /// Decrypts a cipher of kind `T`: splits off the nonce, opens the sealed
    /// bytes, and decodes the plaintext as the kind's encoding. Fails with
    /// `ChaChaError` exactly when the bytes are too short or do not
    /// authenticate, and with the kind's decode error exactly when the
    /// authentic plaintext is malformed.
    pub fn decrypt<T: CipherSecret>(&self, cipher: &Cipher<T>) -> (r: Result<
        Secret<T>,
        DecryptionError,
    >)
        ensures
            r matches Ok(s) ==> spec_decrypt::<T>(self@, cipher@) == Ok::<T::V, DecryptionError>(
                s@,
            ),
            r matches Err(e) ==> spec_decrypt::<T>(self@, cipher@) == Err::<T::V, DecryptionError>(
                e,
            ),
    {
        if cipher.as_bytes().len() < NONCE_LEN {
            return Err(DecryptionError::ChaChaError);
        }
        let plain = match aead_open(&self.key, cipher.nonce(), cipher.ciphertext()) {
            Some(plain) => plain,
            None => {
                return Err(DecryptionError::ChaChaError);
            },
        };
        match T::from_bytes(plain) {
            Ok(value) => Ok(Secret::conceal(value)),
            Err(e) => Err(e),
        }
    }

    /// A redacted placeholder: rendering a vault never shows its key.
    pub fn redacted(&self) -> (r: String)
        ensures
            r@ == "Vault(...)"@,
    {
        "Vault(...)".to_owned()
    }
}

/// Law: key derivation is deterministic. Two vaults derived from the same
/// password and salt hold the same key, so whatever decrypts to a value under
/// one decrypts to that value under the other: a fresh derivation recovers
/// what an earlier one encrypted.
pub proof fn lemma_derivation_deterministic<T: CipherSecret>(
    password: Seq<char>,
    salt: Seq<u8>,
    key1: Seq<u8>,
    key2: Seq<u8>,
    data: Seq<u8>,
    v: T::V,
)
    requires
        key1 == argon2_key_of(vstd::utf8::encode_utf8(password), salt),
        key2 == argon2_key_of(vstd::utf8::encode_utf8(password), salt),
        spec_decrypt::<T>(key1, data) == Ok::<T::V, DecryptionError>(v),
    ensures
        key1 == key2,
        spec_decrypt::<T>(key2, data) == Ok::<T::V, DecryptionError>(v),
{
}

} // verus!
