//! Fixed-width little-endian wire codecs for command identifiers and return
//! values. Every command buffer starts with a `WORD_BYTES`-wide identifier;
//! every return value is sent as a `WORD_BYTES`-wide little-endian word.

use vstd::bytes::{
    lemma_auto_spec_u64_to_from_le_bytes, spec_u64_from_le_bytes, spec_u64_to_le_bytes,
    u64_from_le_bytes, u64_to_le_bytes,
};
use vstd::prelude::*;
use vstd::slice::slice_subrange;

verus! {

/// Width in bytes of the wire encoding of a command identifier and of a
/// return value: one native machine word.
pub const WORD_BYTES: usize = 8;

/// Wire encoding of a return value: `WORD_BYTES` little-endian bytes.
pub open spec fn retv_to_bytes(v: isize) -> Seq<u8> {
    spec_u64_to_le_bytes(v as u64)
}

/// Return value read back from `WORD_BYTES` little-endian bytes.
pub open spec fn retv_from_bytes(s: Seq<u8>) -> isize
    recommends
        s.len() == WORD_BYTES,
{
    spec_u64_from_le_bytes(s) as isize
}

/// Wire encoding of a command identifier: `WORD_BYTES` little-endian bytes.
pub open spec fn id_to_bytes(id: usize) -> Seq<u8> {
    spec_u64_to_le_bytes(id as u64)
}

/// The command identifier held in the leading `WORD_BYTES` bytes of a
/// command buffer.
pub open spec fn id_of(cmd: Seq<u8>) -> usize
    recommends
        cmd.len() >= WORD_BYTES,
{
    spec_u64_from_le_bytes(cmd.subrange(0, WORD_BYTES as int)) as usize
}

/// The payload of a command buffer: everything after the identifier.
pub open spec fn payload_of(cmd: Seq<u8>) -> Seq<u8>
    recommends
        cmd.len() >= WORD_BYTES,
{
    cmd.skip(WORD_BYTES as int)
}

/// Encodes a return value as `WORD_BYTES` little-endian bytes.
pub fn encode_retv(v: isize) -> (r: Vec<u8>)
    ensures
        r@ == retv_to_bytes(v),
        r@.len() == WORD_BYTES,
{
    u64_to_le_bytes(v as u64)
}

/// Decodes a return value from its `WORD_BYTES`-byte wire encoding.
pub fn decode_retv(s: &[u8]) -> (v: isize)
    requires
        s@.len() == WORD_BYTES,
    ensures
        v == retv_from_bytes(s@),
{
    u64_from_le_bytes(s) as isize
}

/// Encodes a command identifier as `WORD_BYTES` little-endian bytes.
pub fn encode_id(id: usize) -> (r: Vec<u8>)
    ensures
        r@ == id_to_bytes(id),
        r@.len() == WORD_BYTES,
{
    u64_to_le_bytes(id as u64)
}

/// Splits a command buffer into its leading identifier and its payload.
pub fn decode_id<'a>(cmd: &'a [u8]) -> (r: (usize, &'a [u8]))
    requires
        cmd@.len() >= WORD_BYTES,
    ensures
        r.0 == id_of(cmd@),
        r.1@ == payload_of(cmd@),
{
    let head = slice_subrange(cmd, 0, WORD_BYTES);
    let id = u64_from_le_bytes(head) as usize;
    let payload = slice_subrange(cmd, WORD_BYTES, cmd.len());
    (id, payload)
}

/// Law: encoding a return value and decoding the bytes gives the value back.
pub proof fn lemma_retv_round_trip(v: isize)
    ensures
        retv_from_bytes(retv_to_bytes(v)) == v,
{
    lemma_auto_spec_u64_to_from_le_bytes();
    assert((v as u64) as isize == v) by (bit_vector);
}

/// Law: encoding a command identifier and decoding the bytes gives the
/// identifier back, with an empty payload left over.
pub proof fn lemma_id_round_trip(id: usize)
    ensures
        id_of(id_to_bytes(id)) == id,
        payload_of(id_to_bytes(id)) == Seq::<u8>::empty(),
{
    lemma_auto_spec_u64_to_from_le_bytes();
    assert((id as u64) as usize == id) by (bit_vector);
    assert(id_to_bytes(id).subrange(0, WORD_BYTES as int) =~= id_to_bytes(id));
    assert(payload_of(id_to_bytes(id)) =~= Seq::<u8>::empty());
}

} // verus!
