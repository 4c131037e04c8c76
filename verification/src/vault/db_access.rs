//! Raw byte access to stored credentials, gated by the storage capability
//! token.

use vstd::prelude::*;

use crate::db::Token;
use crate::vault::{PasswordHash, Salt};

verus! {

impl Salt {
    /// Rebuilds a salt from its stored bytes.
    pub fn from_db(data: [u8; 32], _token: Token) -> (r: Self)
        ensures
            r@ == data@,
    {
        Salt { data }
    }

    /// The salt's bytes, for storage.
    pub fn to_db(&self, _token: Token) -> (r: [u8; 32])
        ensures
            r@ == self@,
    {
        self.data
    }
}

impl PasswordHash {
    /// Rebuilds a verifier from its stored bytes.
    pub fn from_db(data: [u8; 64], _token: Token) -> (r: Self)
        ensures
            r@ == data@,
    {
        PasswordHash { data }
    }

    /// The verifier's bytes, for storage.
    pub fn to_db(&self, _token: Token) -> (r: [u8; 64])
        ensures
            r@ == self@,
    {
        self.data
    }
}

} // verus!
