//! The client-side cache of a folder's files: entries added locally while an
//! upload is in flight coexist with the listing fetched from the server, and
//! the two are merged exactly once when the remote listing arrives.

use vstd::prelude::*;

pub mod folder_state;

pub use folder_state::FolderState;

use crate::vault::{
    spec_decrypt, Cipher, DecryptionError, EncryptionError, FileContent, FileInfo, FileInfoView,
    Secret, Vault,
};

verus! {

/// One file as the client shows it: the encrypted descriptor that identifies
/// it to the server, and the revealed descriptor for display.
pub struct FileData {
    pub id: Cipher<FileInfo>,
    pub info: Secret<FileInfo>,
}

/// The descriptors in a fetched listing that decrypt under `key`, in order;
/// corrupt entries are dropped.
pub open spec fn spec_readable_listing(key: Seq<u8>, ids: Seq<Seq<u8>>) -> Seq<Seq<u8>>
    decreases ids.len(),
{
    if ids.len() == 0 {
        Seq::empty()
    } else {
        let rest = spec_readable_listing(key, ids.drop_last());
        if spec_decrypt::<FileInfo>(key, ids.last()) is Ok {
            rest.push(ids.last())
        } else {
            rest
        }
    }
}

/// Decrypts a fetched folder listing: keeps, in order, exactly the
/// descriptors that decrypt under the vault's key, each paired with its
/// revealed descriptor; corrupt entries are dropped.
pub fn decrypt_file_listing(vault: &Vault, files: Vec<Cipher<FileInfo>>) -> (r: (
    Vec<FileData>,
    usize,
))
    ensures
        r.0@.map_values(|fd: FileData| fd.id@) == spec_readable_listing(
            vault@,
            files@.map_values(|c: Cipher<FileInfo>| c@),
        ),
        forall|k: int|
            0 <= k < r.0@.len() ==> spec_decrypt::<FileInfo>(vault@, (#[trigger] r.0@[k]).id@)
                == Ok::<FileInfoView, DecryptionError>(r.0@[k].info@),
        r.0@.len() + r.1 == files@.len(),
{
    let ghost all = files@.map_values(|c: Cipher<FileInfo>| c@);
    let mut out: Vec<FileData> = Vec::new();
    let mut dropped: usize = 0;
    let mut i: usize = 0;
    while i < files.len()
        invariant
            0 <= i <= files@.len(),
            all == files@.map_values(|c: Cipher<FileInfo>| c@),
            out@.map_values(|fd: FileData| fd.id@) == spec_readable_listing(
                vault@,
                all.subrange(0, i as int),
            ),
            forall|k: int|
                0 <= k < out@.len() ==> spec_decrypt::<FileInfo>(vault@, (#[trigger] out@[k]).id@)
                    == Ok::<FileInfoView, DecryptionError>(out@[k].info@),
            out@.len() + dropped == i,
        decreases files@.len() - i,
    {
        let id = files[i].clone();
        match vault.decrypt(&id) {
            Ok(info) => {
                out.push(FileData { id, info });
            },
            Err(_) => {
                dropped += 1;
            },
        }
        proof {
            assert(all.subrange(0, i + 1).drop_last() =~= all.subrange(0, i as int));
            assert(all.subrange(0, i + 1).last() == all[i as int]);
        }
        i += 1;
    }
    proof {
        assert(all.subrange(0, files@.len() as int) =~= all);
    }
    (out, dropped)
}

/// Encrypts a batch of new files for upload: each descriptor and each content
/// blob is sealed, and each produced cipher decrypts under the same vault
/// back to the value it was made from. Fails only when the cipher or the
/// entropy source does.
pub fn encrypt_new_files(vault: &Vault, new_files: Vec<(Secret<FileInfo>, Secret<FileContent>)>)
    -> (r: Result<Vec<(FileData, Cipher<FileContent>)>, EncryptionError>)
    ensures
        r matches Ok(out) ==> {
            &&& out@.len() == new_files@.len()
            &&& forall|k: int|
                0 <= k < out@.len() ==> {
                    &&& spec_decrypt::<FileInfo>(vault@, (#[trigger] out@[k]).0.id@) == Ok::<
                        FileInfoView,
                        DecryptionError,
                    >(new_files@[k].0@)
                    &&& out@[k].0.info@ == new_files@[k].0@
                    &&& spec_decrypt::<FileContent>(vault@, out@[k].1@) == Ok::<
                        Seq<u8>,
                        DecryptionError,
                    >(new_files@[k].1@)
                }
        },
{
    let mut out: Vec<(FileData, Cipher<FileContent>)> = Vec::new();
    let mut remaining = new_files;
    let ghost original = remaining@;
    let ghost mut i: int = 0;
    while remaining.len() > 0
        invariant
            0 <= i,
            out@.len() == i,
            i + remaining@.len() == original.len(),
            remaining@ == original.subrange(i, original.len() as int),
            forall|k: int|
                0 <= k < out@.len() ==> {
                    &&& spec_decrypt::<FileInfo>(vault@, (#[trigger] out@[k]).0.id@) == Ok::<
                        FileInfoView,
                        DecryptionError,
                    >(original[k].0@)
                    &&& out@[k].0.info@ == original[k].0@
                    &&& spec_decrypt::<FileContent>(vault@, out@[k].1@) == Ok::<
                        Seq<u8>,
                        DecryptionError,
                    >(original[k].1@)
                },
        decreases remaining@.len(),
    {
        let (info, content) = remaining.remove(0);
        let id = match vault.encrypt(&info) {
            Ok(id) => id,
            Err(e) => {
                return Err(e);
            },
        };
        let sealed_content = match vault.encrypt(&content) {
            Ok(sealed) => sealed,
            Err(e) => {
                return Err(e);
            },
        };
        out.push((FileData { id, info }, sealed_content));
        proof {
            assert(original.subrange(i, original.len() as int)[0] == original[i]);
            assert(original.subrange(i, original.len() as int).subrange(1, original.len() - i)
                =~= original.subrange(i + 1, original.len() as int));
            i = i + 1;
        }
    }
    Ok(out)
}

} // verus!
