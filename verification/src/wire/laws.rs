//! Round-trip laws of the wire primitives.

use crate::decode::decode_error::DecodeError;
use crate::wire::model::le_bytes_32;
use crate::wire::model::le_bytes_64;
use crate::wire::model::le_value_32;
use crate::wire::model::le_value_64;
use crate::wire::model::lemma_le32_round_trip;
use crate::wire::model::lemma_le64_round_trip;
use crate::wire::model::lemma_varint_bytes_len;
use crate::wire::model::lemma_varint_bytes_termination;
use crate::wire::model::lemma_varint_bytes_value;
use crate::wire::model::lemma_varint_len_32;
use crate::wire::model::lemma_varint_len_64;
use crate::wire::model::lemma_zigzag_round_trip;
use crate::wire::model::twos_complement_32;
use crate::wire::model::twos_complement_32_inverse;
use crate::wire::model::twos_complement_64;
use crate::wire::model::twos_complement_64_inverse;
use crate::wire::model::varint_bytes;
use crate::wire::model::varint_len;
use crate::wire::model::zigzag;
use crate::wire::model::zigzag_inverse;
use crate::wire::wire_decoder::spec_read_varint_u32;
use crate::wire::wire_decoder::spec_read_varint_u64;
use vstd::prelude::*;

verus! {

/// Varint round trip, 32 bits: reading a stream that starts with the
/// encoding of `u` yields `u` back and leaves exactly the rest.
pub proof fn lemma_varint_u32_round_trip(u: u32, rest: Seq<u8>)
    ensures
        spec_read_varint_u32(varint_bytes(u as nat) + rest).0 == Ok::<u32, DecodeError>(u),
        spec_read_varint_u32(varint_bytes(u as nat) + rest).1 == rest,
{
    lemma_varint_len_32(u as nat);
    lemma_varint_bytes_len(u as nat);
    lemma_varint_bytes_termination(u as nat, rest);
    lemma_varint_bytes_value(u as nat);
}

/// Varint round trip, 64 bits.
pub proof fn lemma_varint_u64_round_trip(u: u64, rest: Seq<u8>)
    ensures
        spec_read_varint_u64(varint_bytes(u as nat) + rest).0 == Ok::<u64, DecodeError>(u),
        spec_read_varint_u64(varint_bytes(u as nat) + rest).1 == rest,
{
    lemma_varint_len_64(u as nat);
    lemma_varint_bytes_len(u as nat);
    lemma_varint_bytes_termination(u as nat, rest);
    lemma_varint_bytes_value(u as nat);
}

/// Fixed-width round trip, 32 bits: reading back the four little-endian
/// bytes of a word yields the word.
pub proof fn lemma_fixed32_round_trip(v: u32)
    ensures
        le_value_32(le_bytes_32(v)) == v,
{
    lemma_le32_round_trip(v);
}

/// Fixed-width round trip, 64 bits.
pub proof fn lemma_fixed64_round_trip(v: u64)
    ensures
        le_value_64(le_bytes_64(v)) == v,
{
    lemma_le64_round_trip(v);
}

/// ZigZag round trip, 32 bits: the raw value of an encoded `sint32`
/// fits in 32 bits, decodes back to the argument, and has its low bit
/// set exactly for negative arguments.
pub proof fn lemma_sint32_round_trip(i: i32)
    ensures
        zigzag(i as int) <= u32::MAX,
        zigzag_inverse(zigzag(i as int)) == i as int,
        i < 0 <==> zigzag(i as int) % 2 == 1,
{
    lemma_zigzag_round_trip(i as int);
}

/// ZigZag round trip, 64 bits.
pub proof fn lemma_sint64_round_trip(i: i64)
    ensures
        zigzag(i as int) <= u64::MAX,
        zigzag_inverse(zigzag(i as int)) == i as int,
        i < 0 <==> zigzag(i as int) % 2 == 1,
{
    lemma_zigzag_round_trip(i as int);
}

/// Two's-complement round trip, 32 bits: the raw value of an encoded
/// `int32` fits in 32 bits and its signed reading is the argument.
pub proof fn lemma_int32_round_trip(i: i32)
    ensures
        twos_complement_32(i as int) <= u32::MAX,
        twos_complement_32_inverse(twos_complement_32(i as int)) == i as int,
{
}

/// Two's-complement round trip, 64 bits.
pub proof fn lemma_int64_round_trip(i: i64)
    ensures
        twos_complement_64(i as int) <= u64::MAX,
        twos_complement_64_inverse(twos_complement_64(i as int)) == i as int,
{
}

/// The number of varint bytes a value is measured at equals the length
/// of its emitted encoding.
pub proof fn lemma_canonical_width(v: nat)
    ensures
        varint_bytes(v).len() == varint_len(v),
{
    lemma_varint_bytes_len(v);
}

} // verus!
