//! A folder's cache entry: files added locally while the server listing is
//! still loading, then the merged, loaded listing.

use vstd::prelude::*;

use crate::file_store::FileData;

verus! {

/// The lifecycle of a folder's cached file list. `Loading` holds files added
/// locally before the server listing arrived; `Loaded` holds the merged list.
pub enum FolderState {
    Loading(Vec<FileData>),
    Loaded(Vec<FileData>),
}

impl FolderState {
    /// The cached files, in either state.
    pub open spec fn files(&self) -> Seq<FileData> {
        match self {
            FolderState::Loading(files) => files@,
            FolderState::Loaded(files) => files@,
        }
    }

    /// Appends locally added files, keeping the loading status.
    pub fn add_local_files(&mut self, new_files: Vec<FileData>)
        ensures
            (*final(self) is Loading) == (*old(self) is Loading),
            final(self).files() == old(self).files() + new_files@,
    {
        let mut incoming = new_files;
        match self {
            FolderState::Loading(files) => files.append(&mut incoming),
            FolderState::Loaded(files) => files.append(&mut incoming),
        }
    }

    /// Merges the listing fetched from the server in front of the locally
    /// added files and marks the folder loaded. The listing arrives exactly
    /// once, so the folder must still be loading.
    pub fn add_remote_files(&mut self, new_files: Vec<FileData>)
        requires
            *old(self) is Loading,
        ensures
            *final(self) is Loaded,
            final(self).files() == new_files@ + old(self).files(),
    {
        let mut merged = new_files;
        match self {
            FolderState::Loading(files) => {
                merged.append(files);
                *self = FolderState::Loaded(merged);
            },
            FolderState::Loaded(_) => {
                proof {
                    assert(false);
                }
            },
        }
    }

    /// The files once the folder is loaded; nothing while it still loads.
    pub fn loaded_files(self) -> (r: Option<Vec<FileData>>)
        ensures
            match r {
                Some(files) => self is Loaded && files@ == self.files(),
                None => self is Loading,
            },
    {
        match self {
            FolderState::Loading(_) => None,
            FolderState::Loaded(files) => Some(files),
        }
    }
}

impl Default for FolderState {
    /// A fresh folder entry: loading, with no files yet.
    fn default() -> (r: Self)
        ensures
            r is Loading,
            r.files() == Seq::<FileData>::empty(),
    {
        FolderState::Loading(Vec::new())
    }
}

} // verus!
