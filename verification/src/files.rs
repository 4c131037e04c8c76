//! Storage of uploaded ciphertext blobs: collision-free identifier
//! allocation, the crash-safe write transaction, and the errors the file
//! routes report.

use core::str::FromStr;
use vstd::prelude::*;

pub mod directory;
pub mod new_file_transaction;

pub use directory::Directory;
pub use new_file_transaction::{
    create_id, is_id_byte, is_id_char, lemma_abort_leaves_no_trace, lemma_distinct_identifiers,
    FileTransactionError, NewFileTransaction,
};

use crate::vault::{Cipher, FileContent};

verus! {

/// Why a file route refused a request.
#[derive(Clone, Copy, PartialEq, Eq, Structural, Debug)]
pub enum FilesError {
    /// No stored file matches the request.
    NotFound,
    /// The request carried no valid session token.
    NotAuthenticated,
}

impl FilesError {
    /// The error's wire text.
    pub fn as_text(&self) -> (r: &'static str)
        ensures
            self is NotFound ==> r@ == "Not Found"@,
            self is NotAuthenticated ==> r@ == "Not Authenticated"@,
    {
        match self {
            FilesError::NotFound => "Not Found",
            FilesError::NotAuthenticated => "Not Authenticated",
        }
    }
}

impl FromStr for FilesError {
    type Err = ();

    fn from_str(s: &str) -> Result<Self, Self::Err> {
        if crate::bytes_eq(s.as_bytes(), "Not Found".as_bytes()) {
            Ok(Self::NotFound)
        } else if crate::bytes_eq(s.as_bytes(), "Not Authenticated".as_bytes()) {
            Ok(Self::NotAuthenticated)
        } else {
            Err(())
        }
    }
}

/// Stores an uploaded ciphertext blob: opens a write transaction, which
/// allocates a fresh identifier, and commits the blob's bytes under it. The
/// caller records the returned identifier in the metadata store.
pub fn store_file(dir: &mut Directory, content: &Cipher<FileContent>) -> (r: Result<
    String,
    FileTransactionError,
>)
    requires
        old(dir).wf(),
    ensures
        final(dir).wf(),
        match r {
            Ok(id) => !old(dir)@.dom().contains(id@) && final(dir)@ == old(dir)@.insert(
                id@,
                content@,
            ),
            Err(_) => *final(dir) == *old(dir),
        },
{
    let transaction = match NewFileTransaction::open_file(dir) {
        Ok(transaction) => transaction,
        Err(e) => {
            return Err(e);
        },
    };
    let id = transaction.id().to_owned();
    transaction.write_data(dir, content.as_bytes());
    proof {
        assert(dir@ =~= old(dir)@.insert(id@, content@));
    }
    Ok(id)
}

/// Serves a stored blob back by its identifier.
pub fn fetch_file(dir: &Directory, file_id: &String) -> (r: Result<
    Cipher<FileContent>,
    FilesError,
>)
    requires
        dir.wf(),
    ensures
        match r {
            Ok(c) => dir@.dom().contains(file_id@) && c@ == dir@[file_id@],
            Err(e) => e is NotFound && !dir@.dom().contains(file_id@),
        },
{
    match dir.read(file_id) {
        Some(data) => Ok(Cipher::from_bytes(data)),
        None => Err(FilesError::NotFound),
    }
}

} // verus!
