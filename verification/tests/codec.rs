//! Byte-encoding round trips and malformed-input rejection for the secret
//! kinds.

use vault::vault::{CipherSecret, DecryptionError, FileContent, FileInfo, FolderName};

#[test]
fn folder_name_round_trip() {
    let original = FolderName { name: "Receipts".to_owned() };
    let bytes = original.as_bytes();
    let decoded = FolderName::from_bytes(bytes).unwrap();
    assert_eq!(decoded.name, "Receipts");
}

#[test]
fn folder_name_round_trip_multibyte() {
    let original = FolderName { name: "Grü\u{1F4BE}e".to_owned() };
    let bytes = original.as_bytes();
    let decoded = FolderName::from_bytes(bytes).unwrap();
    assert_eq!(decoded.name, original.name);
}

#[test]
fn folder_name_rejects_invalid_utf8() {
    let result = FolderName::from_bytes(vec![0x52, 0xFF, 0xFE]);
    assert!(matches!(result, Err(DecryptionError::ParseUtf8Error)));
}

#[test]
fn file_info_round_trip() {
    let original = FileInfo { name: "photo.png".to_owned(), mime_type: "image/png".to_owned() };
    let bytes = original.as_bytes();
    let decoded = FileInfo::from_bytes(bytes).unwrap();
    assert_eq!(decoded.name, "photo.png");
    assert_eq!(decoded.mime_type, "image/png");
}

#[test]
fn file_info_round_trip_empty_fields() {
    let original = FileInfo { name: String::new(), mime_type: String::new() };
    let bytes = original.as_bytes();
    assert_eq!(bytes.len(), 8);
    let decoded = FileInfo::from_bytes(bytes).unwrap();
    assert_eq!(decoded.name, "");
    assert_eq!(decoded.mime_type, "");
}

#[test]
fn file_info_exact_layout() {
    let original = FileInfo { name: "a".to_owned(), mime_type: "bc".to_owned() };
    let bytes = original.as_bytes();
    assert_eq!(bytes, vec![1, 0, 0, 0, 0, 0, 0, 0, 0x61, 0x62, 0x63]);
}

#[test]
fn file_info_rejects_truncated_prefix() {
    let result = FileInfo::from_bytes(vec![1, 2, 3]);
    assert!(matches!(result, Err(DecryptionError::UnexpectedEndOfBytes)));
}

#[test]
fn file_info_rejects_short_name() {
    // The prefix claims a five-byte name, but only one byte follows.
    let result = FileInfo::from_bytes(vec![5, 0, 0, 0, 0, 0, 0, 0, 0x61]);
    assert!(matches!(result, Err(DecryptionError::UnexpectedEndOfBytes)));
}

#[test]
fn file_info_rejects_invalid_utf8_name() {
    let result = FileInfo::from_bytes(vec![1, 0, 0, 0, 0, 0, 0, 0, 0xFF]);
    assert!(matches!(result, Err(DecryptionError::ParseUtf8Error)));
}

#[test]
fn file_info_rejects_invalid_utf8_mime() {
    let result = FileInfo::from_bytes(vec![1, 0, 0, 0, 0, 0, 0, 0, 0x61, 0xFF]);
    assert!(matches!(result, Err(DecryptionError::ParseUtf8Error)));
}

#[test]
fn file_content_round_trip() {
    let original = FileContent { data: vec![0, 1, 2, 255, 254, 0] };
    let bytes = original.as_bytes();
    assert_eq!(bytes, vec![0, 1, 2, 255, 254, 0]);
    let decoded = FileContent::from_bytes(bytes).unwrap();
    assert_eq!(decoded.data, vec![0, 1, 2, 255, 254, 0]);
}
