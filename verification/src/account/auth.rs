//! Time-boxed, MAC-protected session tokens. A token carries a username, its
//! issue time, its validity span, and a keyed MAC over those three fields;
//! validity is re-derived from the token itself and the server's static key,
//! so the server keeps no per-session state.

use hmac::{KeyInit, Mac};
use vstd::bytes::{lemma_auto_spec_u64_to_from_le_bytes, spec_u64_to_le_bytes, u64_to_le_bytes};
use vstd::prelude::*;
use vstd::string::StrSliceExecFns;
use vstd::utf8::{encode_utf8, encode_utf8_decode_utf8};

verus! {

/// The single opaque outcome of every failed validation: expiry, clock skew
/// and MAC mismatch are deliberately indistinguishable to the caller.
#[derive(Clone, Copy, PartialEq, Eq, Structural, Debug)]
pub struct AuthError;

/// The tag that the keyed hash produces over a key and a message.
/// Deterministic in its arguments and nothing else.
pub uninterp spec fn hmac_sha256_of(key: Seq<u8>, msg: Seq<u8>) -> Seq<u8>;

/// Relies on hmac::Hmac over sha2::Sha256: the 32-byte tag is a function of
/// the key and the message alone. Keys of any length are accepted.
#[verifier::external_body]
fn hmac_sha256(key: &[u8; 64], msg: &[u8]) -> (r: [u8; 32])
    ensures
        r@ == hmac_sha256_of(key@, msg@),
{
    let mut mac = <hmac::Hmac<sha2::Sha256> as KeyInit>::new_from_slice(key.as_slice())
        .expect("HMAC accepts keys of any length");
    mac.update(msg);
    mac.finalize().into_bytes().into()
}

/// Relies on hmac::Hmac over sha2::Sha256 and its constant-time verify: the
/// check succeeds exactly when the carried tag equals the tag the key
/// produces over the message, without a timing side channel on the bytes.
#[verifier::external_body]
fn hmac_sha256_verify(key: &[u8; 64], msg: &[u8], tag: &[u8; 32]) -> (r: bool)
    ensures
        r == (tag@ == hmac_sha256_of(key@, msg@)),
{
    let mut mac = <hmac::Hmac<sha2::Sha256> as KeyInit>::new_from_slice(key.as_slice())
        .expect("HMAC accepts keys of any length");
    mac.update(msg);
    mac.verify_slice(tag.as_slice()).is_ok()
}

/// Relies on std's SystemTime: the wall-clock time in milliseconds since the
/// epoch. Nothing can be promised about the value.
#[verifier::external_body]
fn now_millis() -> u64 {
    match std::time::SystemTime::now().duration_since(std::time::UNIX_EPOCH) {
        Ok(elapsed) => {
            let millis = elapsed.as_millis();
            if millis > u64::MAX as u128 {
                u64::MAX
            } else {
                millis as u64
            }
        },
        Err(_) => 0,
    }
}

/// The canonical bytes that a token's MAC covers: the username prefixed with
/// its byte length, then the issue time, then the validity span, each as
/// eight little-endian bytes. The length prefix keeps distinct field values
/// from sharing an encoding.
pub open spec fn mac_message(username: Seq<char>, generated_at: u64, valid_for: u64) -> Seq<u8> {
    spec_u64_to_le_bytes(encode_utf8(username).len() as u64) + encode_utf8(username)
        + spec_u64_to_le_bytes(generated_at) + spec_u64_to_le_bytes(valid_for)
}

/// Builds the canonical MAC input for a token's fields.
fn mac_message_bytes(username: &String, generated_at: u64, valid_for: u64) -> (r: Vec<u8>)
    ensures
        r@ == mac_message(username@, generated_at, valid_for),
{
    let name_bytes = username.as_str().as_bytes_vec();
    let mut bytes = u64_to_le_bytes(name_bytes.len() as u64);
    bytes.extend_from_slice(name_bytes.as_slice());
    let mut issued = u64_to_le_bytes(generated_at);
    bytes.append(&mut issued);
    let mut span = u64_to_le_bytes(valid_for);
    bytes.append(&mut span);
    proof {
        assert(bytes@ =~= mac_message(username@, generated_at, valid_for));
    }
    bytes
}

/// The mathematical value of a token.
pub struct AuthView {
    pub username: Seq<char>,
    pub generated_at: u64,
    pub valid_for: u64,
    pub auth_code: Seq<u8>,
}

/// A session token: a username, the time it was issued (milliseconds since
/// the epoch), how long it stays valid (milliseconds), and the MAC tag over
/// those fields.
pub struct Auth {
    username: String,
    generated_at: u64,
    valid_for: u64,
    auth_code: [u8; 32],
}

impl View for Auth {
    type V = AuthView;

    closed spec fn view(&self) -> AuthView {
        AuthView {
            username: self.username@,
            generated_at: self.generated_at,
            valid_for: self.valid_for,
            auth_code: self.auth_code@,
        }
    }
}

impl Clone for Auth {
    fn clone(&self) -> (r: Self)
        ensures
            r@ == self@,
    {
        Auth {
            username: self.username.clone(),
            generated_at: self.generated_at,
            valid_for: self.valid_for,
            auth_code: self.auth_code,
        }
    }
}

/// True when a token's carried tag is the MAC that `key` produces over its
/// own fields: the token was signed by a holder of `key` and no field was
/// altered since.
pub open spec fn mac_ok(key: Seq<u8>, a: AuthView) -> bool {
    a.auth_code == hmac_sha256_of(key, mac_message(a.username, a.generated_at, a.valid_for))
}

/// The token that signing produces at a given time.
pub open spec fn spec_sign(
    key: Seq<u8>,
    username: Seq<char>,
    generated_at: u64,
    valid_for: u64,
) -> AuthView {
    AuthView {
        username,
        generated_at,
        valid_for,
        auth_code: hmac_sha256_of(key, mac_message(username, generated_at, valid_for)),
    }
}

/// Whether a token passes validation at time `now`: it was issued no later
/// than `now`, its validity span has not elapsed, and its MAC is intact.
pub open spec fn spec_validate(key: Seq<u8>, a: AuthView, now: u64) -> bool {
    &&& a.generated_at <= now
    &&& now - a.generated_at < a.valid_for
    &&& mac_ok(key, a)
}

/// The issuer and validator of session tokens, holding the server's single
/// static, high-entropy key.
pub struct Authenticator {
    key: [u8; 64],
}

impl View for Authenticator {
    type V = Seq<u8>;

    closed spec fn view(&self) -> Seq<u8> {
        self.key@
    }
}

impl Clone for Authenticator {
    fn clone(&self) -> (r: Self)
        ensures
            r@ == self@,
    {
        Authenticator { key: self.key }
    }
}

impl Authenticator {
    /// Wraps the server's static signing key.
    pub fn new(key: [u8; 64]) -> (r: Self)
        ensures
            r@ == key@,
    {
        Authenticator { key }
    }

    /// A redacted placeholder: rendering an authenticator never shows its key.
    pub fn redacted(&self) -> (r: String)
        ensures
            r@ == "Authenticator(...)"@,
    {
        "Authenticator(...)".to_owned()
    }

    /// Signs a token for `username` as of the given time.
    pub fn sign_at(&self, username: String, valid_for: u64, generated_at: u64) -> (r: Auth)
        ensures
            r@ == spec_sign(self@, username@, generated_at, valid_for),
    {
        let msg = mac_message_bytes(&username, generated_at, valid_for);
        let auth_code = hmac_sha256(&self.key, msg.as_slice());
        Auth { username, generated_at, valid_for, auth_code }
    }

    /// Signs a token for `username` as of the current wall-clock time.
    pub fn sign(&self, username: String, valid_for: u64) -> (r: Auth)
        ensures
            r@ == spec_sign(self@, username@, r@.generated_at, valid_for),
    {
        let generated_at = now_millis();
        self.sign_at(username, valid_for, generated_at)
    }

    /// Validates a token against the given time: true exactly when the token
    /// is within its validity window and its MAC is intact.
    pub fn validate_at(&self, auth: &Auth, now: u64) -> (r: bool)
        ensures
            r == spec_validate(self@, auth@, now),
    {
        if now < auth.generated_at {
            return false;
        }
        let elapsed = now - auth.generated_at;
        if elapsed >= auth.valid_for {
            return false;
        }
        let msg = mac_message_bytes(&auth.username, auth.generated_at, auth.valid_for);
        hmac_sha256_verify(&self.key, msg.as_slice(), &auth.auth_code)
    }

    /// Validates a token against the current wall-clock time. A token is
    /// accepted only if its MAC is intact; when it is accepted or rejected on
    /// grounds of time depends on the clock.
    pub fn validate(&self, auth: &Auth) -> (r: bool)
        ensures
            r ==> mac_ok(self@, auth@),
    {
        let now = now_millis();
        self.validate_at(auth, now)
    }
}

impl Auth {
    /// Reassembles a token from its wire fields. The fields are claims, not
    /// facts: nothing is checked here, and only validation tells a genuine
    /// token from a forged or altered one.
    pub fn from_parts(
        username: String,
        generated_at: u64,
        valid_for: u64,
        auth_code: [u8; 32],
    ) -> (r: Self)
        ensures
            r@ == (AuthView { username: username@, generated_at, valid_for, auth_code: auth_code@ }),
    {
        Auth { username, generated_at, valid_for, auth_code }
    }

    /// The username field as carried, an unauthenticated claim; `username`
    /// hands it out only after validation.
    pub fn raw_username(&self) -> (r: &String)
        ensures
            r@ == self@.username,
    {
        &self.username
    }

    /// The carried MAC tag.
    pub fn auth_code(&self) -> (r: [u8; 32])
        ensures
            r@ == self@.auth_code,
    {
        self.auth_code
    }

    /// The username the token vouches for, granted only if the token
    /// validates against the given authenticator at the current time.
    pub fn username(&self, authenticator: &Authenticator) -> (r: Result<&String, AuthError>)
        ensures
            r matches Ok(u) ==> u@ == self@.username && mac_ok(authenticator@, self@),
    {
        if authenticator.validate(self) {
            Ok(&self.username)
        } else {
            Err(AuthError)
        }
    }

    /// The time the token was issued, in milliseconds since the epoch.
    pub fn generated_at(&self) -> (r: u64)
        ensures
            r == self@.generated_at,
    {
        self.generated_at
    }

    /// How long past its issue time the token stays valid, in milliseconds.
    pub fn valid_for(&self) -> (r: u64)
        ensures
            r == self@.valid_for,
    {
        self.valid_for
    }
}

/// Law: a token signed for a window validates exactly within that window.
/// Validating a freshly signed token succeeds (any `now` in
/// `generated_at <= now < generated_at + valid_for`), and validation fails
/// once `generated_at + valid_for` has elapsed or when the clock reads
/// earlier than the issue time.
pub proof fn lemma_sign_validate_window(
    key: Seq<u8>,
    username: Seq<char>,
    generated_at: u64,
    valid_for: u64,
    now: u64,
)
    ensures
        spec_validate(key, spec_sign(key, username, generated_at, valid_for), now) == (
        generated_at <= now < generated_at + valid_for),
{
}

/// Law: validation never accepts a token whose carried tag is not the key's
/// MAC over the token's own fields; altering any field invalidates the token
/// unless the tag is forged to match.
pub proof fn lemma_validate_rejects_wrong_code(key: Seq<u8>, a: AuthView, now: u64)
    requires
        a.auth_code != hmac_sha256_of(key, mac_message(a.username, a.generated_at, a.valid_for)),
    ensures
        !spec_validate(key, a, now),
{
}

/// The canonical MAC input determines the token fields: two field triples
/// with the same bytes are the same triple.
pub proof fn lemma_mac_message_injective(
    u1: Seq<char>,
    g1: u64,
    v1: u64,
    u2: Seq<char>,
    g2: u64,
    v2: u64,
)
    requires
        encode_utf8(u1).len() <= u64::MAX,
        encode_utf8(u2).len() <= u64::MAX,
        mac_message(u1, g1, v1) == mac_message(u2, g2, v2),
    ensures
        u1 == u2,
        g1 == g2,
        v1 == v2,
{
    lemma_auto_spec_u64_to_from_le_bytes();
    let m = mac_message(u1, g1, v1);
    let e1 = encode_utf8(u1);
    let e2 = encode_utf8(u2);
    let n1 = e1.len() as int;
    let n2 = e2.len() as int;
    assert(m.subrange(0, 8) =~= spec_u64_to_le_bytes(e1.len() as u64));
    assert(mac_message(u2, g2, v2).subrange(0, 8) =~= spec_u64_to_le_bytes(e2.len() as u64));
    assert(e1.len() as u64 == e2.len() as u64);
    assert(n1 == n2);
    assert(e1 =~= m.subrange(8, 8 + n1));
    assert(e2 =~= mac_message(u2, g2, v2).subrange(8, 8 + n2));
    encode_utf8_decode_utf8(u1);
    encode_utf8_decode_utf8(u2);
    assert(spec_u64_to_le_bytes(g1) =~= m.subrange(8 + n1, 16 + n1));
    assert(spec_u64_to_le_bytes(g2) =~= mac_message(u2, g2, v2).subrange(8 + n2, 16 + n2));
    assert(spec_u64_to_le_bytes(v1) =~= m.subrange(16 + n1, 24 + n1));
    assert(spec_u64_to_le_bytes(v2) =~= mac_message(u2, g2, v2).subrange(16 + n2, 24 + n2));
}

/// Law: a token altered after signing — its tag copied from the genuine token
/// but some field changed — validates only if the keyed hash collides on two
/// distinct messages, which the hash is chosen to make infeasible.
pub proof fn lemma_altered_token_needs_mac_collision(
    key: Seq<u8>,
    username: Seq<char>,
    generated_at: u64,
    valid_for: u64,
    a: AuthView,
    now: u64,
)
    requires
        encode_utf8(username).len() <= u64::MAX,
        encode_utf8(a.username).len() <= u64::MAX,
        a.auth_code == spec_sign(key, username, generated_at, valid_for).auth_code,
        a.username != username || a.generated_at != generated_at || a.valid_for != valid_for,
        spec_validate(key, a, now),
    ensures
        mac_message(a.username, a.generated_at, a.valid_for) != mac_message(
            username,
            generated_at,
            valid_for,
        ),
        hmac_sha256_of(key, mac_message(a.username, a.generated_at, a.valid_for))
            == hmac_sha256_of(key, mac_message(username, generated_at, valid_for)),
{
    if mac_message(a.username, a.generated_at, a.valid_for) == mac_message(
        username,
        generated_at,
        valid_for,
    ) {
        lemma_mac_message_injective(
            a.username,
            a.generated_at,
            a.valid_for,
            username,
            generated_at,
            valid_for,
        );
    }
}

} // verus!
