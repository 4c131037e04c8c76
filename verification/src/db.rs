//! The capability token that gates raw access to stored credentials. Only
//! code that talks to the metadata store should extract the raw bytes of a
//! `Salt` or `PasswordHash`; holding a `Token` marks that intent at the type
//! level.

use vstd::prelude::*;

verus! {

/// A capability for moving credential bytes in and out of storage.
pub struct Token(());

/// Grants a storage capability.
pub fn token() -> Token {
    Token(())
}

} // verus!
