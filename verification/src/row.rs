//! The row type and its fixed-width byte codec.
//!
//! A row is `id` (little-endian 4 bytes), then `username` (32 bytes), then
//! `email` (255 bytes).  Field bytes shorter than their capacity are stored
//! zero-padded to the full width, so every well-formed row encodes to
//! exactly `ROW_SIZE` bytes and decoding is a bytewise inverse.

use vstd::prelude::*;
use vstd::bytes::lemma_auto_spec_u32_to_from_le_bytes;
use vstd::bytes::spec_u32_from_le_bytes;
use vstd::bytes::spec_u32_to_le_bytes;
use vstd::bytes::u32_from_le_bytes;
use vstd::bytes::u32_to_le_bytes;
use vstd::slice::slice_index_get;
use vstd::slice::slice_subrange;
use crate::layout::EMAIL_SIZE;
use crate::layout::ID_SIZE;
use crate::layout::ROW_SIZE;
use crate::layout::USERNAME_SIZE;

verus! {

/// The mathematical value of a row: an id and the two field byte strings
/// at their full, zero-padded width.
#[verifier::ext_equal]
pub struct RowV {
    pub id: u32,
    pub username: Seq<u8>,
    pub email: Seq<u8>,
}

impl RowV {
    /// Both text fields are stored at exactly their declared capacity.
    pub open spec fn wf(self) -> bool {
        &&& self.username.len() == USERNAME_SIZE
        &&& self.email.len() == EMAIL_SIZE
    }
}

/// One fixed-schema record.  `username` and `email` always hold exactly
/// their capacity in bytes, with unused tails zero-filled; `Row::new` pads
/// validated input to this shape.
#[derive(Debug, Clone, PartialEq, Eq)]
pub struct Row {
    pub id: u32,
    pub username: Vec<u8>,
    pub email: Vec<u8>,
}

impl View for Row {
    type V = RowV;

    open spec fn view(&self) -> RowV {
        RowV { id: self.id, username: self.username@, email: self.email@ }
    }
}

impl Row {
    pub open spec fn wf(self) -> bool {
        self@.wf()
    }
}

/// Why a pair of field values cannot form a row.
#[derive(Debug, Clone, Copy, PartialEq, Eq)]
pub enum RowError {
    /// The supplied username exceeds `USERNAME_SIZE` bytes.
    UsernameTooLong,
    /// The supplied email exceeds `EMAIL_SIZE` bytes.
    EmailTooLong,
}

/// `s` extended with zero bytes to length `n` (for `s` within capacity).
pub open spec fn zero_pad(s: Seq<u8>, n: int) -> Seq<u8> {
    s + Seq::new((n - s.len()) as nat, |i: int| 0u8)
}

/// The encoded form of a row: id bytes, then the two padded fields.
pub open spec fn spec_encode(r: RowV) -> Seq<u8> {
    spec_u32_to_le_bytes(r.id) + r.username + r.email
}

/// The row stored in a `ROW_SIZE`-byte block: the little-endian id from
/// the first four bytes and the two field windows read verbatim.
pub open spec fn spec_decode(b: Seq<u8>) -> RowV {
    RowV {
        id: spec_u32_from_le_bytes(b.subrange(0, ID_SIZE as int)),
        username: b.subrange(ID_SIZE as int, (ID_SIZE + USERNAME_SIZE) as int),
        email: b.subrange((ID_SIZE + USERNAME_SIZE) as int, ROW_SIZE as int),
    }
}

impl Row {
    /// Builds a row from validated fields, zero-padding each to capacity.
    /// Fails exactly when a field exceeds its capacity, naming the first
    /// offending field.
    pub fn new(id: u32, username: &Vec<u8>, email: &Vec<u8>) -> (res: Result<Row, RowError>)
        ensures
            match res {
                Ok(r) => {
                    &&& username@.len() <= USERNAME_SIZE
                    &&& email@.len() <= EMAIL_SIZE
                    &&& r.wf()
                    &&& r@.id == id
                    &&& r@.username == zero_pad(username@, USERNAME_SIZE as int)
                    &&& r@.email == zero_pad(email@, EMAIL_SIZE as int)
                },
                Err(RowError::UsernameTooLong) => username@.len() > USERNAME_SIZE,
                Err(RowError::EmailTooLong) => {
                    &&& username@.len() <= USERNAME_SIZE
                    &&& email@.len() > EMAIL_SIZE
                },
            },
    {
        if username.len() > USERNAME_SIZE {
            return Err(RowError::UsernameTooLong);
        }
        if email.len() > EMAIL_SIZE {
            return Err(RowError::EmailTooLong);
        }
        let padded_username = pad_to(username, USERNAME_SIZE);
        let padded_email = pad_to(email, EMAIL_SIZE);
        Ok(Row { id, username: padded_username, email: padded_email })
    }
}

/// Copies `s` and zero-fills the tail up to `n` bytes.
fn pad_to(s: &Vec<u8>, n: usize) -> (out: Vec<u8>)
    requires
        s@.len() <= n,
    ensures
        out@ == zero_pad(s@, n as int),
        out@.len() == n,
{
    let mut out: Vec<u8> = Vec::new();
    let mut i: usize = 0;
    while i < s.len()
        invariant
            i <= s@.len() <= n,
            out@ == s@.subrange(0, i as int),
        decreases s@.len() - i,
    {
        out.push(s[i]);
        i += 1;
    }
    assert(out@ == s@);
    while i < n
        invariant
            s@.len() <= i <= n,
            out@.len() == i,
            out@.subrange(0, s@.len() as int) == s@,
            forall|k: int| s@.len() <= k < i ==> out@[k] == 0u8,
        decreases n - i,
    {
        out.push(0u8);
        i += 1;
    }
    assert(out@ =~= zero_pad(s@, n as int));
    out
}

/// Packs a well-formed row into its fixed `ROW_SIZE`-byte block.
pub fn encode(r: &Row) -> (block: Vec<u8>)
    requires
        r.wf(),
    ensures
        block@ == spec_encode(r@),
        block@.len() == ROW_SIZE,
{
    proof {
        lemma_auto_spec_u32_to_from_le_bytes();
    }
    let mut block = u32_to_le_bytes(r.id);
    append_bytes(&mut block, &r.username);
    append_bytes(&mut block, &r.email);
    assert(block@ =~= spec_encode(r@));
    block
}

/// Appends every byte of `src` to `dst`, in order.
fn append_bytes(dst: &mut Vec<u8>, src: &Vec<u8>)
    ensures
        final(dst)@ == old(dst)@ + src@,
{
    let mut i: usize = 0;
    while i < src.len()
        invariant
            i <= src@.len(),
            dst@ == old(dst)@ + src@.subrange(0, i as int),
        decreases src@.len() - i,
    {
        dst.push(src[i]);
        i += 1;
    }
    assert(dst@ =~= old(dst)@ + src@);
}

/// Unpacks a `ROW_SIZE`-byte block into the row it stores.
pub fn decode(block: &[u8]) -> (r: Row)
    requires
        block@.len() == ROW_SIZE,
    ensures
        r@ == spec_decode(block@),
        r.wf(),
{
    let id_bytes = slice_subrange(block, 0, ID_SIZE);
    let id = u32_from_le_bytes(id_bytes);
    let username = copy_window(block, ID_SIZE, USERNAME_SIZE);
    let email = copy_window(block, ID_SIZE + USERNAME_SIZE, EMAIL_SIZE);
    let r = Row { id, username, email };
    assert(r@ =~= spec_decode(block@));
    r
}

/// Copies `len` bytes of `block` starting at `start` into a fresh vector.
pub(crate) fn copy_window(block: &[u8], start: usize, len: usize) -> (out: Vec<u8>)
    requires
        start + len <= block@.len(),
        block@.len() <= usize::MAX,
    ensures
        out@ == block@.subrange(start as int, start as int + len as int),
{
    let mut out: Vec<u8> = Vec::new();
    let mut i: usize = 0;
    while i < len
        invariant
            i <= len,
            start + len <= block@.len() <= usize::MAX,
            out@ == block@.subrange(start as int, start as int + i as int),
        decreases len - i,
    {
        out.push(*slice_index_get(block, start + i));
        i += 1;
        assert(out@ =~= block@.subrange(start as int, start as int + i as int));
    }
    out
}

/// Round-trip law: decoding an encoded row reproduces the row exactly,
/// id and both zero-padded field contents alike.
pub proof fn lemma_round_trip(r: RowV)
    requires
        r.wf(),
    ensures
        spec_decode(spec_encode(r)) == r,
{
    lemma_auto_spec_u32_to_from_le_bytes();
    let b = spec_encode(r);
    assert(b.subrange(0, ID_SIZE as int) =~= spec_u32_to_le_bytes(r.id));
    assert(b.subrange(ID_SIZE as int, (ID_SIZE + USERNAME_SIZE) as int) =~= r.username);
    assert(b.subrange((ID_SIZE + USERNAME_SIZE) as int, ROW_SIZE as int) =~= r.email);
    assert(spec_decode(spec_encode(r)) =~= r);
}

/// Fixed-width law: a well-formed row always encodes to exactly
/// `ROW_SIZE` bytes, whatever its field contents.
pub proof fn lemma_encode_fixed_width(r: RowV)
    requires
        r.wf(),
    ensures
        spec_encode(r).len() == ROW_SIZE,
{
    lemma_auto_spec_u32_to_from_le_bytes();
}

} // verus!
