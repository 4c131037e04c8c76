//! Collision-free allocation of opaque file identifiers, and the pending →
//! committed/aborted lifecycle of a stored file. Identifiers are random
//! base-36 strings; candidates grow one character per collision, which keeps
//! expected attempts low and guarantees success once a candidate is longer
//! than every name the directory holds.

use vstd::prelude::*;
use vstd::utf8::{
    char_is_scalar, encode_scalar, encode_utf8, has_width_1_encoding, has_width_2_encoding,
    has_width_3_encoding, is_leading_byte_width_1, leading_byte_width_1, leading_byte_width_2,
    leading_byte_width_3, leading_byte_width_4, partial_valid_utf8,
    partial_valid_utf8_extend_ascii_block, valid_utf8,
};

use crate::files::directory::Directory;
use crate::vault::secure::{fill_random, string_from_utf8};

verus! {

/// Why a transaction could not be opened.
#[derive(Clone, Copy, PartialEq, Eq, Structural, Debug)]
pub enum FileTransactionError {
    /// The entropy source failed to produce a random identifier.
    EntropyFailure,
    /// No free identifier was found before the candidate length ran out; with
    /// growing random candidates this is practically unreachable.
    IdSpaceExhausted,
}

/// A byte of the identifier alphabet: an ASCII digit or lowercase letter.
pub open spec fn is_id_byte(b: u8) -> bool {
    (48 <= b <= 57) || (97 <= b <= 122)
}

/// A character of the identifier alphabet: a digit or a lowercase letter.
pub open spec fn is_id_char(c: char) -> bool {
    (48 <= c as u32 <= 57) || (97 <= c as u32 <= 122)
}

/// The identifier-alphabet byte that a random byte maps to: one of the 36
/// digits and lowercase letters, by the byte's remainder.
pub open spec fn spec_id_byte(b: u8) -> u8 {
    if b % 36 < 10 {
        (48 + b % 36) as u8
    } else {
        (87 + b % 36) as u8
    }
}

/// Maps a random byte onto the identifier alphabet.
fn id_byte(b: u8) -> (r: u8)
    ensures
        r == spec_id_byte(b),
        is_id_byte(r),
{
    let m = b % 36;
    if m < 10 {
        48 + m
    } else {
        87 + m
    }
}

/// A sequence of characters that encodes, byte for byte, to a given all-ASCII
/// byte sequence consists of exactly those bytes as characters.
proof fn lemma_ascii_encode_chars(chars: Seq<char>, bytes: Seq<u8>)
    requires
        encode_utf8(chars) == bytes,
        forall|i: int| 0 <= i < bytes.len() ==> bytes[i] < 0x80,
    ensures
        chars.len() == bytes.len(),
        forall|i: int| 0 <= i < chars.len() ==> (#[trigger] chars[i]) as u32 == bytes[i],
    decreases chars.len(),
{
    if chars.len() == 0 {
    } else {
        char_is_scalar(chars[0]);
        let s = chars[0] as u32;
        let first = encode_scalar(s);
        assert(bytes =~= first + encode_utf8(chars.drop_first()));
        assert(first.len() >= 1 && bytes[0] == first[0]);
        assert(bytes[0] < 0x80);
        if has_width_1_encoding(s) {
            assert(first[0] == leading_byte_width_1(s));
            assert(s <= 0x7F ==> (s & 0x7F) == s) by (bit_vector);
            assert(bytes[0] == s);
        } else if has_width_2_encoding(s) {
            assert(first[0] == leading_byte_width_2(s));
            let ghost y: u8 = ((s >> 6) & 0x1F) as u8;
            assert((0xC0u8 | y) >= 0x80) by (bit_vector);
            assert(false);
        } else if has_width_3_encoding(s) {
            assert(first[0] == leading_byte_width_3(s));
            let ghost y: u8 = ((s >> 12) & 0x0F) as u8;
            assert((0xE0u8 | y) >= 0x80) by (bit_vector);
            assert(false);
        } else {
            assert(first[0] == leading_byte_width_4(s));
            let ghost y: u8 = ((s >> 18) & 0x7) as u8;
            assert((0xF0u8 | y) >= 0x80) by (bit_vector);
            assert(false);
        }
        assert(encode_utf8(chars.drop_first()) =~= bytes.drop_first());
        lemma_ascii_encode_chars(chars.drop_first(), bytes.drop_first());
        assert forall|i: int| 0 <= i < chars.len() implies (#[trigger] chars[i]) as u32
            == bytes[i] by {
            if i > 0 {
                assert(chars.drop_first()[i - 1] as u32 == bytes.drop_first()[i - 1]);
            }
        }
    }
}

/// Draws a fresh random identifier of the given length over the base-36
/// alphabet.
pub fn create_id(length: usize) -> (r: Result<String, FileTransactionError>)
    ensures
        r matches Ok(s) ==> s@.len() == length && (forall|i: int|
            0 <= i < s@.len() ==> is_id_char(#[trigger] s@[i])),
{
    let mut buf: Vec<u8> = vec![0u8; length];
    if !fill_random(&mut buf) {
        return Err(FileTransactionError::EntropyFailure);
    }
    let mut ascii: Vec<u8> = Vec::new();
    let mut i: usize = 0;
    while i < length
        invariant
            buf@.len() == length,
            ascii@.len() == i,
            0 <= i <= length,
            forall|j: int| 0 <= j < i ==> is_id_byte(#[trigger] ascii@[j]),
        decreases length - i,
    {
        ascii.push(id_byte(buf[i]));
        i += 1;
    }
    proof {
        assert(ascii@.subrange(0, 0) =~= Seq::<u8>::empty());
        assert(partial_valid_utf8(ascii@, 0));
        assert forall|j: int| 0 <= j < ascii@.len() implies is_leading_byte_width_1(
            #[trigger] ascii@[j],
        ) by {
            assert(is_id_byte(ascii@[j]));
        }
        partial_valid_utf8_extend_ascii_block(ascii@, 0, ascii@.len() as int);
        assert(ascii@.subrange(0, ascii@.len() as int) =~= ascii@);
        assert(valid_utf8(ascii@));
    }
    let ghost ascii_bytes = ascii@;
    match string_from_utf8(ascii) {
        Some(s) => {
            proof {
                lemma_ascii_encode_chars(s@, ascii_bytes);
            }
            Ok(s)
        },
        None => {
            proof {
                assert(false);
            }
            Err(FileTransactionError::EntropyFailure)
        },
    }
}

/// A pending stored file: its freshly allocated identifier exists in the
/// directory and is owned by this transaction until it is committed with
/// `write_data` or rolled back with `abort`. Every exit path must take one of
/// the two, so that no half-written file outlives its transaction.
pub struct NewFileTransaction {
    id: String,
}

impl View for NewFileTransaction {
    type V = Seq<char>;

    closed spec fn view(&self) -> Seq<char> {
        self.id@
    }
}

impl NewFileTransaction {
    /// Opens a transaction: allocates an identifier that no existing entry
    /// uses — trying random candidates of growing length until one is created
    /// exclusively — and creates the empty pending entry. On failure the
    /// directory is unchanged.
    pub fn open_file(dir: &mut Directory) -> (r: Result<Self, FileTransactionError>)
        requires
            old(dir).wf(),
        ensures
            final(dir).wf(),
            match r {
                Ok(t) => !old(dir)@.dom().contains(t@) && final(dir)@ == old(dir)@.insert(
                    t@,
                    Seq::<u8>::empty(),
                ) && t@.len() >= 1 && (forall|i: int|
                    0 <= i < t@.len() ==> is_id_char(#[trigger] t@[i])),
                Err(_) => *final(dir) == *old(dir),
            },
    {
        let mut i: usize = 1;
        loop
            invariant
                dir.wf(),
                *dir == *old(dir),
                1 <= i,
                i <= dir.max_name_len() + 1,
            decreases dir.max_name_len() + 1 - i,
        {
            let id = match create_id(i) {
                Ok(id) => id,
                Err(e) => {
                    return Err(e);
                },
            };
            if dir.create_new(&id) {
                return Ok(NewFileTransaction { id });
            }
            if i == usize::MAX {
                return Err(FileTransactionError::IdSpaceExhausted);
            }
            i = i + 1;
        }
    }

    /// The identifier this transaction allocated.
    pub fn id(&self) -> (r: &str)
        ensures
            r@ == self@,
    {
        self.id.as_str()
    }

    /// Commits the transaction: writes the file's bytes and releases the
    /// identifier to the caller, who must record it durably before reporting
    /// success.
    pub fn write_data(self, dir: &mut Directory, data: &[u8])
        requires
            old(dir).wf(),
            old(dir)@.dom().contains(self@),
        ensures
            final(dir).wf(),
            final(dir)@ == old(dir)@.insert(self@, data@),
    {
        let _written = dir.write(&self.id, data);
    }

    /// Rolls the transaction back: the pending entry is deleted, so no
    /// partially written file lingers to collide with a future identifier or
    /// be served.
    pub fn abort(self, dir: &mut Directory)
        requires
            old(dir).wf(),
        ensures
            final(dir).wf(),
            final(dir)@ == old(dir)@.remove(self@),
    {
        dir.remove(&self.id);
    }
}

/// Law: two transactions opened in turn on a directory receive distinct
/// identifiers — the second allocation sees the first identifier present and
/// avoids it.
pub proof fn lemma_distinct_identifiers(
    d0: Map<Seq<char>, Seq<u8>>,
    d1: Map<Seq<char>, Seq<u8>>,
    id1: Seq<char>,
    id2: Seq<char>,
)
    requires
        !d0.dom().contains(id1),
        d1 == d0.insert(id1, Seq::<u8>::empty()),
        !d1.dom().contains(id2),
    ensures
        id1 != id2,
{
}

/// Law: aborting a transaction leaves the directory exactly as it was before
/// the transaction was opened, so a later allocation is not interfered with.
pub proof fn lemma_abort_leaves_no_trace(d0: Map<Seq<char>, Seq<u8>>, id: Seq<char>)
    requires
        !d0.dom().contains(id),
    ensures
        d0.insert(id, Seq::<u8>::empty()).remove(id) == d0,
{
    assert(d0.insert(id, Seq::<u8>::empty()).remove(id) =~= d0);
}

} // verus!
