//! The typed plaintext/ciphertext envelope: a `Secret<T>` is a revealed
//! plaintext value of kind `T`, a `Cipher<T>` is the opaque ciphertext it
//! encrypts to. The kind travels in the type, so a ciphertext can only be
//! decrypted back into the kind it was produced from.

use core::marker::PhantomData;
use vstd::prelude::*;

use crate::vault::DecryptionError;

verus! {

/// A kind of secret payload, with its canonical, self-delimiting byte
/// encoding. The set of kinds is closed: every implementation lives in this
/// crate, so each new kind of secret requires an explicit, reviewed
/// encode/decode pair.
pub trait CipherSecret: View + Sized {
    /// The values of the kind's mathematical view that an in-memory value can
    /// take; encodings are only claimed to round-trip for these.
    spec fn wf(v: Self::V) -> bool;

    /// The canonical byte encoding of a value of this kind.
    spec fn spec_encode(v: Self::V) -> Seq<u8>;

    /// What decoding a byte sequence yields: the encoded value, or the error
    /// that the malformed input is rejected with.
    spec fn spec_decode(bytes: Seq<u8>) -> Result<Self::V, DecryptionError>;

    /// Law: decoding inverts encoding on every well-formed value.
    proof fn lemma_encode_decode(v: Self::V)
        requires
            Self::wf(v),
        ensures
            Self::spec_decode(Self::spec_encode(v)) == Ok::<Self::V, DecryptionError>(v),
    ;

    /// Encodes the value. Every in-memory value is well formed.
    fn as_bytes(&self) -> (r: Vec<u8>)
        ensures
            r@ == Self::spec_encode(self@),
            Self::wf(self@),
    ;

    /// Decodes a byte sequence, rejecting exactly the inputs that
    /// `spec_decode` rejects, with the same error.
    fn from_bytes(bytes: Vec<u8>) -> (r: Result<Self, DecryptionError>)
        ensures
            match Self::spec_decode(bytes@) {
                Ok(v) => r matches Ok(x) && x@ == v,
                Err(e) => r matches Err(e2) && e2 == e,
            },
    ;
}

/// Law: for every kind and every well-formed value, decoding an encoding
/// yields the value back.
pub proof fn lemma_codec_round_trip<T: CipherSecret>(v: T::V)
    requires
        T::wf(v),
    ensures
        T::spec_decode(T::spec_encode(v)) == Ok::<T::V, DecryptionError>(v),
{
    T::lemma_encode_decode(v);
}

/// An in-memory plaintext value of kind `T`. It exists only where plaintext
/// is legitimately needed; it offers no serialization, and rendering it shows
/// a redacted placeholder, never the value.
#[derive(Clone)]
pub struct Secret<T: CipherSecret> {
    inner: T,
}

impl<T: CipherSecret> View for Secret<T> {
    type V = T::V;

    closed spec fn view(&self) -> T::V {
        self.inner@
    }
}

impl<T: CipherSecret> Secret<T> {
    /// Wraps a plaintext value as a secret.
    pub fn conceal(value: T) -> (r: Self)
        ensures
            r@ == value@,
    {
        Secret { inner: value }
    }

    /// Grants access to the plaintext; the name makes every use searchable.
    pub fn reveal_secret(&self) -> (r: &T)
        ensures
            r@ == self@,
    {
        &self.inner
    }

    /// Unwraps the plaintext; the name makes every use searchable.
    pub fn into_revealed_secret(self) -> (r: T)
        ensures
            r@ == self@,
    {
        self.inner
    }

    /// A redacted placeholder: rendering a secret never shows the value.
    pub fn redacted(&self) -> (r: String)
        ensures
            r@ == "Secret(...)"@,
    {
        "Secret(...)".to_owned()
    }
}

/// Opaque ciphertext of kind `T`: a fresh random nonce followed by the
/// authenticated ciphertext of the kind's encoding. Freely storable and
/// comparable; two ciphers are equal exactly when their bytes are.
pub struct Cipher<T: CipherSecret> {
    data: Vec<u8>,
    _phantom_data: PhantomData<T>,
}

impl<T: CipherSecret> View for Cipher<T> {
    type V = Seq<u8>;

    closed spec fn view(&self) -> Seq<u8> {
        self.data@
    }
}

impl<T: CipherSecret> Cipher<T> {
    /// Assembles a cipher from a nonce and the sealed bytes.
    pub(crate) fn new(nonce: &[u8], ciphertext: &[u8]) -> (r: Self)
        ensures
            r@ == nonce@ + ciphertext@,
    {
        let mut data: Vec<u8> = Vec::new();
        data.extend_from_slice(nonce);
        data.extend_from_slice(ciphertext);
        proof {
            assert(data@ =~= nonce@ + ciphertext@);
        }
        Cipher { data, _phantom_data: PhantomData }
    }

    /// The nonce the cipher was sealed with.
    pub(crate) fn nonce(&self) -> (r: &[u8])
        requires
            self@.len() >= crate::vault::NONCE_LEN,
        ensures
            r@ == self@.subrange(0, crate::vault::NONCE_LEN as int),
    {
        vstd::slice::slice_subrange(self.data.as_slice(), 0, crate::vault::NONCE_LEN)
    }

    /// The sealed bytes that follow the nonce.
    pub(crate) fn ciphertext(&self) -> (r: &[u8])
        requires
            self@.len() >= crate::vault::NONCE_LEN,
        ensures
            r@ == self@.subrange(crate::vault::NONCE_LEN as int, self@.len() as int),
    {
        vstd::slice::slice_subrange(self.data.as_slice(), crate::vault::NONCE_LEN, self.data.len())
    }

    /// The raw stored form: nonce followed by ciphertext.
    pub fn as_bytes(&self) -> (r: &[u8])
        ensures
            r@ == self@,
    {
        self.data.as_slice()
    }

    /// Rebuilds a cipher from its stored form. The bytes are not validated
    /// here: only decryption can tell genuine ciphertext from noise.
    pub fn from_bytes(data: Vec<u8>) -> (r: Self)
        ensures
            r@ == data@,
    {
        Cipher { data, _phantom_data: PhantomData }
    }
}

impl<T: CipherSecret> Clone for Cipher<T> {
    fn clone(&self) -> (r: Self)
        ensures
            r@ == self@,
    {
        let mut data: Vec<u8> = Vec::new();
        data.extend_from_slice(self.data.as_slice());
        proof {
            assert(data@ =~= self.data@);
        }
        Cipher { data, _phantom_data: PhantomData }
    }
}

impl<T: CipherSecret> PartialEq for Cipher<T> {
    fn eq(&self, other: &Self) -> (r: bool) {
        crate::bytes_eq(self.data.as_slice(), other.data.as_slice())
    }
}

impl<T: CipherSecret> Eq for Cipher<T> {}

impl<T: CipherSecret> vstd::std_specs::cmp::PartialEqSpecImpl for Cipher<T> {
    open spec fn obeys_eq_spec() -> bool {
        true
    }

    open spec fn eq_spec(&self, other: &Self) -> bool {
        self@ == other@
    }
}

} // verus!
