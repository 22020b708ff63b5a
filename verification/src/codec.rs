//! Serialization of the descriptor's scalar header: the five signed 64-bit
//! fields, little-endian, in declaration order — 40 bytes. The pointer
//! fields never cross a wire, so they are excluded; the round-trip lemma
//! pins the layout of the field set that does.

use vstd::bytes::lemma_auto_spec_u64_to_from_le_bytes;
use vstd::bytes::spec_u64_from_le_bytes;
use vstd::bytes::spec_u64_to_le_bytes;
use vstd::bytes::u64_from_le_bytes;
use vstd::bytes::u64_to_le_bytes;
use vstd::prelude::*;
use vstd::slice::slice_subrange;

use crate::descriptor::ArrowArray;

verus! {

/// The five fixed-width scalar fields of a descriptor, in declaration
/// order: the part of the record that survives serialization.
#[derive(Clone, Copy, Debug, PartialEq, Eq, Structural)]
pub struct ScalarFields {
    pub length: i64,
    pub null_count: i64,
    pub offset: i64,
    pub n_buffers: i64,
    pub n_children: i64,
}

impl ArrowArray {
    /// The descriptor's scalar header.
    pub open spec fn spec_scalar_fields(self) -> ScalarFields {
        ScalarFields {
            length: self.length,
            null_count: self.null_count,
            offset: self.offset,
            n_buffers: self.n_buffers,
            n_children: self.n_children,
        }
    }

    /// Copies the five scalar fields out of the descriptor.
    pub fn scalar_fields(&self) -> (f: ScalarFields)
        ensures
            f == self.spec_scalar_fields(),
    {
        ScalarFields {
            length: self.length,
            null_count: self.null_count,
            offset: self.offset,
            n_buffers: self.n_buffers,
            n_children: self.n_children,
        }
    }
}

/// A signed 64-bit value as its 8 little-endian bytes, through the two's
/// complement image of the value.
pub open spec fn spec_i64_to_le_bytes(x: i64) -> Seq<u8> {
    spec_u64_to_le_bytes(x as u64)
}

/// The signed 64-bit value read from 8 little-endian bytes.
pub open spec fn spec_i64_from_le_bytes(s: Seq<u8>) -> i64
    recommends
        s.len() == 8,
{
    spec_u64_from_le_bytes(s) as i64
}

/// Encoding a signed 64-bit value and decoding the 8 bytes gives the value
/// back.
pub proof fn lemma_i64_le_bytes_round_trip(x: i64)
    ensures
        spec_i64_to_le_bytes(x).len() == 8,
        spec_i64_from_le_bytes(spec_i64_to_le_bytes(x)) == x,
{
    lemma_auto_spec_u64_to_from_le_bytes();
    assert(((x as u64) as i64) == x) by (bit_vector);
}

/// One scalar field to its 8 little-endian bytes.
pub fn i64_to_le_bytes(x: i64) -> (s: Vec<u8>)
    ensures
        s@ == spec_i64_to_le_bytes(x),
        s@.len() == 8,
{
    u64_to_le_bytes(x as u64)
}

/// One scalar field from its 8 little-endian bytes.
pub fn i64_from_le_bytes(s: &[u8]) -> (x: i64)
    requires
        s@.len() == 8,
    ensures
        x == spec_i64_from_le_bytes(s@),
{
    u64_from_le_bytes(s) as i64
}

/// The serialized scalar header: each field's 8 little-endian bytes, in
/// declaration order.
pub open spec fn spec_scalars_to_le_bytes(f: ScalarFields) -> Seq<u8> {
    spec_i64_to_le_bytes(f.length) + spec_i64_to_le_bytes(f.null_count)
        + spec_i64_to_le_bytes(f.offset) + spec_i64_to_le_bytes(f.n_buffers)
        + spec_i64_to_le_bytes(f.n_children)
}

/// The scalar header read back from its 40 serialized bytes.
pub open spec fn spec_scalars_from_le_bytes(s: Seq<u8>) -> ScalarFields
    recommends
        s.len() == 40,
{
    ScalarFields {
        length: spec_i64_from_le_bytes(s.subrange(0, 8)),
        null_count: spec_i64_from_le_bytes(s.subrange(8, 16)),
        offset: spec_i64_from_le_bytes(s.subrange(16, 24)),
        n_buffers: spec_i64_from_le_bytes(s.subrange(24, 32)),
        n_children: spec_i64_from_le_bytes(s.subrange(32, 40)),
    }
}

/// Serializes the scalar header to its 40-byte little-endian form.
pub fn scalars_to_le_bytes(f: &ScalarFields) -> (s: Vec<u8>)
    ensures
        s@ == spec_scalars_to_le_bytes(*f),
        s@.len() == 40,
{
    let mut s = i64_to_le_bytes(f.length);
    let mut part = i64_to_le_bytes(f.null_count);
    s.append(&mut part);
    let mut part = i64_to_le_bytes(f.offset);
    s.append(&mut part);
    let mut part = i64_to_le_bytes(f.n_buffers);
    s.append(&mut part);
    let mut part = i64_to_le_bytes(f.n_children);
    s.append(&mut part);
    proof {
        assert(s@ =~= spec_scalars_to_le_bytes(*f));
    }
    s
}

/// Deserializes a scalar header from bytes. Exactly the inputs of the
/// fixed 40-byte length decode; anything shorter or longer is rejected.
pub fn scalars_from_le_bytes(s: &[u8]) -> (r: Option<ScalarFields>)
    ensures
        r is Some <==> s@.len() == 40,
        r matches Some(f) ==> f == spec_scalars_from_le_bytes(s@),
{
    if s.len() != 40 {
        return None;
    }
    let length = i64_from_le_bytes(slice_subrange(s, 0, 8));
    let null_count = i64_from_le_bytes(slice_subrange(s, 8, 16));
    let offset = i64_from_le_bytes(slice_subrange(s, 16, 24));
    let n_buffers = i64_from_le_bytes(slice_subrange(s, 24, 32));
    let n_children = i64_from_le_bytes(slice_subrange(s, 32, 40));
    Some(ScalarFields { length, null_count, offset, n_buffers, n_children })
}

/// Round trip: serializing a scalar header and deserializing the 40 bytes
/// gives back exactly the same five field values, which pins the layout as
/// stable over the defined field set.
pub proof fn lemma_scalars_le_bytes_round_trip(f: ScalarFields)
    ensures
        spec_scalars_to_le_bytes(f).len() == 40,
        spec_scalars_from_le_bytes(spec_scalars_to_le_bytes(f)) == f,
{
    let s = spec_scalars_to_le_bytes(f);
    lemma_i64_le_bytes_round_trip(f.length);
    lemma_i64_le_bytes_round_trip(f.null_count);
    lemma_i64_le_bytes_round_trip(f.offset);
    lemma_i64_le_bytes_round_trip(f.n_buffers);
    lemma_i64_le_bytes_round_trip(f.n_children);
    assert(s.subrange(0, 8) =~= spec_i64_to_le_bytes(f.length));
    assert(s.subrange(8, 16) =~= spec_i64_to_le_bytes(f.null_count));
    assert(s.subrange(16, 24) =~= spec_i64_to_le_bytes(f.offset));
    assert(s.subrange(24, 32) =~= spec_i64_to_le_bytes(f.n_buffers));
    assert(s.subrange(32, 40) =~= spec_i64_to_le_bytes(f.n_children));
}

} // verus!
