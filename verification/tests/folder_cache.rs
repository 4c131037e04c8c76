//! The folder cache entry: local additions survive the arrival of the remote
//! listing, which is merged exactly once.

use vault::file_store::{decrypt_file_listing, encrypt_new_files, FileData, FolderState};
use vault::vault::{Cipher, FileContent, FileInfo, Password, Salt, Secret, Vault};

fn file_data(tag: u8, name: &str) -> FileData {
    FileData {
        id: Cipher::from_bytes(vec![tag]),
        info: Secret::conceal(FileInfo { name: name.to_owned(), mime_type: "text/plain".to_owned() }),
    }
}

#[test]
fn fresh_entry_is_loading_and_empty() {
    let state = FolderState::default();
    assert!(state.loaded_files().is_none());
}

#[test]
fn local_files_keep_loading_status() {
    let mut state = FolderState::default();
    state.add_local_files(vec![file_data(1, "a.txt")]);
    assert!(state.loaded_files().is_none());
}

#[test]
fn remote_files_merge_in_front_of_local_ones() {
    let mut state = FolderState::default();
    state.add_local_files(vec![file_data(1, "local.txt")]);
    state.add_remote_files(vec![file_data(2, "remote.txt"), file_data(3, "other.txt")]);
    let files = state.loaded_files().unwrap();
    assert_eq!(files.len(), 3);
    assert_eq!(files[0].info.reveal_secret().name, "remote.txt");
    assert_eq!(files[1].info.reveal_secret().name, "other.txt");
    assert_eq!(files[2].info.reveal_secret().name, "local.txt");
}

#[test]
fn local_files_append_after_loading() {
    let mut state = FolderState::default();
    state.add_remote_files(vec![file_data(1, "remote.txt")]);
    state.add_local_files(vec![file_data(2, "upload.txt")]);
    let files = state.loaded_files().unwrap();
    assert_eq!(files.len(), 2);
    assert_eq!(files[0].info.reveal_secret().name, "remote.txt");
    assert_eq!(files[1].info.reveal_secret().name, "upload.txt");
}

#[test]
fn listing_decrypts_in_order_and_drops_corrupt_entries() {
    let salt = Salt::generate().unwrap();
    let vault = Vault::new(Password::new("pw".to_owned()), salt).unwrap();
    let make = |name: &str| {
        vault
            .encrypt(&Secret::conceal(FileInfo {
                name: name.to_owned(),
                mime_type: "text/plain".to_owned(),
            }))
            .unwrap()
    };
    let first = make("one.txt");
    let second = make("two.txt");
    let mut corrupt_bytes = make("three.txt").as_bytes().to_vec();
    corrupt_bytes[30] ^= 0x40;
    let corrupt = Cipher::from_bytes(corrupt_bytes);

    let (files, dropped) = decrypt_file_listing(&vault, vec![first, corrupt, second]);
    assert_eq!(dropped, 1);
    assert_eq!(files.len(), 2);
    assert_eq!(files[0].info.reveal_secret().name, "one.txt");
    assert_eq!(files[1].info.reveal_secret().name, "two.txt");
}

#[test]
fn upload_batch_encrypts_every_pair() {
    let salt = Salt::generate().unwrap();
    let vault = Vault::new(Password::new("pw".to_owned()), salt).unwrap();
    let batch = vec![
        (
            Secret::conceal(FileInfo { name: "a.txt".to_owned(), mime_type: "text/plain".to_owned() }),
            Secret::conceal(FileContent { data: vec![1, 2] }),
        ),
        (
            Secret::conceal(FileInfo { name: "b.txt".to_owned(), mime_type: "text/plain".to_owned() }),
            Secret::conceal(FileContent { data: vec![3] }),
        ),
    ];
    let out = encrypt_new_files(&vault, batch).unwrap();
    assert_eq!(out.len(), 2);
    assert_eq!(out[0].0.info.reveal_secret().name, "a.txt");
    let info0 = vault.decrypt(&out[0].0.id).unwrap();
    assert_eq!(info0.reveal_secret().name, "a.txt");
    let content1 = vault.decrypt(&out[1].1).unwrap();
    assert_eq!(content1.reveal_secret().data, vec![3]);
}
