//! An encrypted personal file vault: a symmetric key is derived from a user
//! password and a per-account salt, and every user-visible value (folder
//! names, file metadata, file contents) is encrypted with it before it leaves
//! the client. The server side only ever stores opaque ciphertext and a
//! password verifier.

use vstd::prelude::*;

pub mod account;
pub mod db;
pub mod file_store;
pub mod files;
pub mod utils;
pub mod vault;

verus! {

/// Compares two byte slices for equality of their contents.
pub fn bytes_eq(a: &[u8], b: &[u8]) -> (r: bool)
    ensures
        r == (a@ == b@),
{
    if a.len() != b.len() {
        assert(a@ != b@);
        return false;
    }
    let mut i: usize = 0;
    while i < a.len()
        invariant
            0 <= i <= a@.len(),
            a@.len() == b@.len(),
            forall|j: int| 0 <= j < i ==> a@[j] == b@[j],
        decreases a@.len() - i,
    {
        if a[i] != b[i] {
            return false;
        }
        i += 1;
    }
    proof {
        assert(a@ =~= b@);
    }
    true
}

} // verus!
