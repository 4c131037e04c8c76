//! The concrete kinds of secret payload — folder names, file descriptors,
//! file contents — and their canonical byte encodings.

use vstd::bytes::{lemma_auto_spec_u64_to_from_le_bytes, spec_u64_from_le_bytes, spec_u64_to_le_bytes, u64_from_le_bytes, u64_to_le_bytes};
use vstd::prelude::*;
use vstd::slice::{slice_subrange, slice_to_vec};
use vstd::string::StrSliceExecFns;
use vstd::utf8::{decode_utf8, encode_utf8, encode_utf8_decode_utf8, encode_utf8_valid_utf8, valid_utf8};

use crate::vault::secure::string_from_utf8;
use crate::vault::{CipherSecret, DecryptionError};

verus! {

/// The name of a folder, encrypted before it leaves the client.
#[derive(Clone)]
pub struct FolderName {
    pub name: String,
}

impl View for FolderName {
    type V = Seq<char>;

    open spec fn view(&self) -> Seq<char> {
        self.name@
    }
}

impl CipherSecret for FolderName {
    open spec fn wf(v: Seq<char>) -> bool {
        true
    }

    open spec fn spec_encode(v: Seq<char>) -> Seq<u8> {
        encode_utf8(v)
    }

    open spec fn spec_decode(bytes: Seq<u8>) -> Result<Seq<char>, DecryptionError> {
        if valid_utf8(bytes) {
            Ok(decode_utf8(bytes))
        } else {
            Err(DecryptionError::ParseUtf8Error)
        }
    }

    proof fn lemma_encode_decode(v: Seq<char>) {
        encode_utf8_valid_utf8(v);
        encode_utf8_decode_utf8(v);
    }

    fn as_bytes(&self) -> (r: Vec<u8>) {
        self.name.as_str().as_bytes_vec()
    }

    fn from_bytes(bytes: Vec<u8>) -> (r: Result<Self, DecryptionError>) {
        match string_from_utf8(bytes) {
            Some(name) => {
                proof {
                    encode_utf8_decode_utf8(name@);
                }
                Ok(FolderName { name })
            },
            None => Err(DecryptionError::ParseUtf8Error),
        }
    }
}

/// The mathematical value of a file descriptor: its name and MIME type.
pub struct FileInfoView {
    pub name: Seq<char>,
    pub mime_type: Seq<char>,
}

/// A file's descriptor — display name and MIME type — encrypted before it
/// leaves the client. The encoding prefixes the name with its byte length so
/// that the two text fields stay self-delimiting.
#[derive(Clone)]
pub struct FileInfo {
    pub name: String,
    pub mime_type: String,
}

impl View for FileInfo {
    type V = FileInfoView;

    open spec fn view(&self) -> FileInfoView {
        FileInfoView { name: self.name@, mime_type: self.mime_type@ }
    }
}

impl CipherSecret for FileInfo {
    open spec fn wf(v: FileInfoView) -> bool {
        encode_utf8(v.name).len() <= u64::MAX
    }

    open spec fn spec_encode(v: FileInfoView) -> Seq<u8> {
        spec_u64_to_le_bytes(encode_utf8(v.name).len() as u64) + encode_utf8(v.name)
            + encode_utf8(v.mime_type)
    }

    open spec fn spec_decode(bytes: Seq<u8>) -> Result<FileInfoView, DecryptionError> {
        if bytes.len() < 8 {
            Err(DecryptionError::UnexpectedEndOfBytes)
        } else {
            let n = spec_u64_from_le_bytes(bytes.subrange(0, 8)) as int;
            if bytes.len() < 8 + n {
                Err(DecryptionError::UnexpectedEndOfBytes)
            } else {
                let name_bytes = bytes.subrange(8, 8 + n);
                let mime_bytes = bytes.subrange(8 + n, bytes.len() as int);
                if valid_utf8(name_bytes) && valid_utf8(mime_bytes) {
                    Ok(
                        FileInfoView {
                            name: decode_utf8(name_bytes),
                            mime_type: decode_utf8(mime_bytes),
                        },
                    )
                } else {
                    Err(DecryptionError::ParseUtf8Error)
                }
            }
        }
    }

    proof fn lemma_encode_decode(v: FileInfoView) {
        lemma_auto_spec_u64_to_from_le_bytes();
        let name_bytes = encode_utf8(v.name);
        let mime_bytes = encode_utf8(v.mime_type);
        let e = Self::spec_encode(v);
        let n = name_bytes.len() as u64;
        assert(e.subrange(0, 8) =~= spec_u64_to_le_bytes(n));
        assert(e.subrange(8, 8 + n as int) =~= name_bytes);
        assert(e.subrange(8 + n as int, e.len() as int) =~= mime_bytes);
        encode_utf8_valid_utf8(v.name);
        encode_utf8_valid_utf8(v.mime_type);
        encode_utf8_decode_utf8(v.name);
        encode_utf8_decode_utf8(v.mime_type);
    }

    fn as_bytes(&self) -> (r: Vec<u8>) {
        let name_bytes = self.name.as_str().as_bytes_vec();
        let mime_bytes = self.mime_type.as_str().as_bytes_vec();
        let mut bytes = u64_to_le_bytes(name_bytes.len() as u64);
        bytes.extend_from_slice(name_bytes.as_slice());
        bytes.extend_from_slice(mime_bytes.as_slice());
        proof {
            lemma_auto_spec_u64_to_from_le_bytes();
            assert(bytes@ =~= Self::spec_encode(self@));
        }
        bytes
    }

    fn from_bytes(bytes: Vec<u8>) -> (r: Result<Self, DecryptionError>) {
        proof {
            lemma_auto_spec_u64_to_from_le_bytes();
        }
        if bytes.len() < 8 {
            return Err(DecryptionError::UnexpectedEndOfBytes);
        }
        let prefix = slice_subrange(bytes.as_slice(), 0, 8);
        let name_len = u64_from_le_bytes(prefix);
        let rest = (bytes.len() - 8) as u64;
        if name_len > rest {
            return Err(DecryptionError::UnexpectedEndOfBytes);
        }
        let name_end = 8 + name_len as usize;
        let name_slice = slice_subrange(bytes.as_slice(), 8, name_end);
        let mime_slice = slice_subrange(bytes.as_slice(), name_end, bytes.len());
        let name = match string_from_utf8(slice_to_vec(name_slice)) {
            Some(name) => name,
            None => {
                return Err(DecryptionError::ParseUtf8Error);
            },
        };
        let mime_type = match string_from_utf8(slice_to_vec(mime_slice)) {
            Some(mime_type) => mime_type,
            None => {
                return Err(DecryptionError::ParseUtf8Error);
            },
        };
        proof {
            encode_utf8_decode_utf8(name@);
            encode_utf8_decode_utf8(mime_type@);
        }
        Ok(FileInfo { name, mime_type })
    }
}

/// The raw bytes of a file, encrypted before they leave the client.
#[derive(Clone)]
pub struct FileContent {
    pub data: Vec<u8>,
}

impl View for FileContent {
    type V = Seq<u8>;

    open spec fn view(&self) -> Seq<u8> {
        self.data@
    }
}

impl CipherSecret for FileContent {
    open spec fn wf(v: Seq<u8>) -> bool {
        true
    }

    open spec fn spec_encode(v: Seq<u8>) -> Seq<u8> {
        v
    }

    open spec fn spec_decode(bytes: Seq<u8>) -> Result<Seq<u8>, DecryptionError> {
        Ok(bytes)
    }

    proof fn lemma_encode_decode(v: Seq<u8>) {
    }

    fn as_bytes(&self) -> (r: Vec<u8>) {
        slice_to_vec(self.data.as_slice())
    }

    fn from_bytes(bytes: Vec<u8>) -> (r: Result<Self, DecryptionError>) {
        Ok(FileContent { data: bytes })
    }
}

} // verus!
