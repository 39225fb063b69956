use crate::field_number::FieldNumber;
use crate::wire::model::lemma_i32_to_u32;
use crate::wire::model::lemma_i64_to_u64;
use crate::wire::model::lemma_pow128_values;
use crate::wire::model::lemma_tag_len;
use crate::wire::model::lemma_u64_low32;
use crate::wire::model::lemma_u64_to_i64;
use crate::wire::model::lemma_varint_len_exact;
use crate::wire::model::lemma_zigzag32_exec;
use crate::wire::model::lemma_zigzag64_exec;
use crate::wire::model::lemma_zigzag_dec32_exec;
use crate::wire::model::lemma_zigzag_dec64_exec;
use crate::wire::model::tag_value;
use crate::wire::model::twos_complement_32;
use crate::wire::model::twos_complement_64;
use crate::wire::model::twos_complement_64_inverse;
use crate::wire::model::varint_len;
use crate::wire::model::zigzag;
use crate::wire::model::zigzag_inverse;
use vstd::prelude::*;

verus! {

/// Variable-sized integer wire value, used to carry the Protobuf types
/// `int32`, `int64`, `uint32`, `uint64`, `sint32`, `sint64`, `bool` and
/// `enum` as a raw 64-bit value.
#[derive(Debug, Copy, Clone, Eq, PartialEq, Hash, Ord, PartialOrd, Structural)]
pub struct WireVarInt(pub(crate) u64);

impl View for WireVarInt {
    type V = u64;

    closed spec fn view(&self) -> u64 {
        self.0
    }
}

impl WireVarInt {
    /// Wraps a raw varint value.
    pub fn from_raw(raw_value: u64) -> (r: WireVarInt)
        ensures
            r@ == raw_value,
    {
        WireVarInt(raw_value)
    }

    /// Encodes a `bool` as Protobuf `bool`: raw one or zero.
    pub fn from_bool(value: bool) -> (r: WireVarInt)
        ensures
            r@ == if value {
                1u64
            } else {
                0u64
            },
    {
        if value {
            WireVarInt(1)
        } else {
            WireVarInt(0)
        }
    }

    /// Encodes a `u32` as Protobuf `uint32`.
    pub fn from_uint32(value: u32) -> (r: WireVarInt)
        ensures
            r@ == value,
    {
        WireVarInt(value as u64)
    }

    /// Encodes an `i32` as Protobuf `int32`: the raw value is the 32-bit
    /// two's-complement representation, zero-extended to 64 bits.
    pub fn from_int32(value: i32) -> (r: WireVarInt)
        ensures
            r@ == twos_complement_32(value as int),
    {
        proof {
            lemma_i32_to_u32(value);
        }
        WireVarInt((value as u32) as u64)
    }

    /// Encodes an `i32` as Protobuf `sint32`, using the ZigZag mapping.
    pub fn from_sint32(value: i32) -> (r: WireVarInt)
        ensures
            r@ == zigzag(value as int),
    {
        proof {
            lemma_zigzag32_exec(value);
        }
        let zz: i32 = (value << 1) ^ (value >> 31);
        WireVarInt((zz as u32) as u64)
    }

    /// Encodes a `u64` as Protobuf `uint64`.
    pub fn from_uint64(value: u64) -> (r: WireVarInt)
        ensures
            r@ == value,
    {
        WireVarInt(value)
    }

    /// Encodes an `i64` as Protobuf `int64`: the raw value is the 64-bit
    /// two's-complement representation.
    pub fn from_int64(value: i64) -> (r: WireVarInt)
        ensures
            r@ == twos_complement_64(value as int),
    {
        proof {
            lemma_i64_to_u64(value);
        }
        WireVarInt(value as u64)
    }

    /// Encodes an `i64` as Protobuf `sint64`, using the ZigZag mapping.
    pub fn from_sint64(value: i64) -> (r: WireVarInt)
        ensures
            r@ == zigzag(value as int),
    {
        proof {
            lemma_zigzag64_exec(value);
        }
        let zz: i64 = (value << 1) ^ (value >> 63);
        WireVarInt(zz as u64)
    }

    /// Returns the stored raw value (the same as [`Self::as_uint64`]).
    pub fn raw(&self) -> (r: u64)
        ensures
            r == self@,
    {
        self.0
    }

    /// Interprets the varint as a Protobuf `bool`.
    ///
    /// Succeeds exactly when the raw value is zero or one.
    pub fn try_as_bool(&self) -> (r: Option<bool>)
        ensures
            r is Some <==> self@ <= 1,
            self@ == 0 ==> r == Some(false),
            self@ == 1 ==> r == Some(true),
    {
        match self.0 {
            0 => Some(false),
            1 => Some(true),
            _ => None,
        }
    }

    /// Interprets the varint as a Protobuf `uint32`.
    ///
    /// Succeeds exactly when the raw value fits in 32 bits.
    pub fn try_as_uint32(&self) -> (r: Option<u32>)
        ensures
            r is Some <==> self@ <= u32::MAX,
            r matches Some(v) ==> v == self@,
    {
        if self.0 > u32::MAX as u64 {
            None
        } else {
            proof {
                lemma_u64_low32(self.0);
            }
            Some(self.0 as u32)
        }
    }

    /// Interprets the varint as a Protobuf `int32` (two's complement).
    ///
    /// Both on-wire forms of a 32-bit integer are accepted: a raw value
    /// that fits in 32 bits, and the 64-bit sign-extension of a negative
    /// 32-bit value; any other raw value is rejected.  The result is the
    /// signed reading of the low 32 bits.
    pub fn try_as_int32(&self) -> (r: Option<i32>)
        ensures
            r is Some <==> (self@ <= u32::MAX || self@ >= 0xFFFF_FFFF_8000_0000),
            r matches Some(v) ==> v == twos_complement_32_inverse_of(self@),
    {
        proof {
            lemma_u64_low32(self.0);
        }
        if self.0 <= u32::MAX as u64 || self.0 >= 0xFFFF_FFFF_8000_0000 {
            Some((self.0 as u32) as i32)
        } else {
            None
        }
    }

    /// Interprets the varint as a Protobuf `sint32` (ZigZag).
    ///
    /// Succeeds exactly when the raw value fits in 32 bits.
    pub fn try_as_sint32(&self) -> (r: Option<i32>)
        ensures
            r is Some <==> self@ <= u32::MAX,
            r matches Some(v) ==> v == zigzag_inverse(self@ as nat),
    {
        if self.0 > u32::MAX as u64 {
            None
        } else {
            proof {
                lemma_u64_low32(self.0);
                lemma_zigzag_dec32_exec(self.0 as u32);
            }
            let x: u32 = self.0 as u32;
            Some(((x >> 1) as i32) ^ (-((x & 1) as i32)))
        }
    }

    /// Interprets the varint as a Protobuf `uint64`.
    pub fn as_uint64(&self) -> (r: u64)
        ensures
            r == self@,
    {
        self.0
    }

    /// Interprets the varint as a Protobuf `int64` (two's complement).
    pub fn as_int64(&self) -> (r: i64)
        ensures
            r == twos_complement_64_inverse(self@ as nat),
    {
        proof {
            lemma_u64_to_i64(self.0);
        }
        self.0 as i64
    }

    /// Interprets the varint as a Protobuf `sint64` (ZigZag).
    pub fn as_sint64(&self) -> (r: i64)
        ensures
            r == zigzag_inverse(self@ as nat),
    {
        proof {
            lemma_zigzag_dec64_exec(self.0);
        }
        ((self.0 >> 1) as i64) ^ (-((self.0 & 1) as i64))
    }

    /// Returns the byte length of the encoded tag that carries the given
    /// field number: the tag is the field number shifted left by three,
    /// and its width does not depend on the wire-type bits.
    pub fn tag_byte_len(field_number: FieldNumber) -> (r: i32)
        requires
            field_number@ <= 0x1FFF_FFFF,
        ensures
            r == varint_len(tag_value(field_number@, 0) as nat),
            1 <= r <= 5,
    {
        proof {
            lemma_tag_len(field_number@, 0);
        }
        let f = field_number.value();
        if f < 0x10 {
            1
        } else if f < 0x800 {
            2
        } else if f < 0x4_0000 {
            3
        } else if f < 0x200_0000 {
            4
        } else {
            5
        }
    }

    /// Returns the encoded byte length of a `uint32` varint.
    pub fn uint32_byte_len(value: u32) -> (r: i32)
        ensures
            r == varint_len(value as nat),
            1 <= r <= 5,
    {
        Self::varint32_len(value)
    }

    /// Returns the encoded byte length of a `uint64` varint.
    pub fn uint64_byte_len(value: u64) -> (r: i32)
        ensures
            r == varint_len(value as nat),
            1 <= r <= 10,
    {
        Self::varint64_len(value)
    }

    /// Returns the encoded byte length of an `int32` varint: negative
    /// values are sign-extended to 64 bits and take ten bytes.
    pub fn int32_byte_len(value: i32) -> (r: i32)
        ensures
            r == varint_len(twos_complement_64(value as int)),
            1 <= r <= 10,
    {
        proof {
            lemma_i64_to_u64(value as i64);
        }
        Self::varint64_len((value as i64) as u64)
    }

    /// Returns the encoded byte length of an `int64` varint.
    pub fn int64_byte_len(value: i64) -> (r: i32)
        ensures
            r == varint_len(twos_complement_64(value as int)),
            1 <= r <= 10,
    {
        proof {
            lemma_i64_to_u64(value);
        }
        Self::varint64_len(value as u64)
    }

    /// Returns the encoded byte length of an `sint32` varint (ZigZag).
    pub fn sint32_byte_len(value: i32) -> (r: i32)
        ensures
            r == varint_len(zigzag(value as int)),
            1 <= r <= 5,
    {
        proof {
            lemma_zigzag32_exec(value);
        }
        let zz: i32 = (value << 1) ^ (value >> 31);
        Self::varint32_len(zz as u32)
    }

    /// Returns the encoded byte length of an `sint64` varint (ZigZag).
    pub fn sint64_byte_len(value: i64) -> (r: i32)
        ensures
            r == varint_len(zigzag(value as int)),
            1 <= r <= 10,
    {
        proof {
            lemma_zigzag64_exec(value);
        }
        let zz: i64 = (value << 1) ^ (value >> 63);
        Self::varint64_len(zz as u64)
    }

    /// Byte length of a 32-bit unsigned varint.
    fn varint32_len(value: u32) -> (r: i32)
        ensures
            r == varint_len(value as nat),
            1 <= r <= 5,
    {
        proof {
            lemma_pow128_values();
            if value < 0x80 {
                lemma_varint_len_exact(value as nat, 1);
            } else if value < 0x4000 {
                lemma_varint_len_exact(value as nat, 2);
            } else if value < 0x20_0000 {
                lemma_varint_len_exact(value as nat, 3);
            } else if value < 0x1000_0000 {
                lemma_varint_len_exact(value as nat, 4);
            } else {
                lemma_varint_len_exact(value as nat, 5);
            }
        }
        if value < 0x80 {
            1
        } else if value < 0x4000 {
            2
        } else if value < 0x20_0000 {
            3
        } else if value < 0x1000_0000 {
            4
        } else {
            5
        }
    }

    /// Byte length of a 64-bit unsigned varint.
    fn varint64_len(value: u64) -> (r: i32)
        ensures
            r == varint_len(value as nat),
            1 <= r <= 10,
    {
        proof {
            lemma_pow128_values();
            if value < 0x80 {
                lemma_varint_len_exact(value as nat, 1);
            } else if value < 0x4000 {
                lemma_varint_len_exact(value as nat, 2);
            } else if value < 0x20_0000 {
                lemma_varint_len_exact(value as nat, 3);
            } else if value < 0x1000_0000 {
                lemma_varint_len_exact(value as nat, 4);
            } else if value < 0x8_0000_0000 {
                lemma_varint_len_exact(value as nat, 5);
            } else if value < 0x400_0000_0000 {
                lemma_varint_len_exact(value as nat, 6);
            } else if value < 0x2_0000_0000_0000 {
                lemma_varint_len_exact(value as nat, 7);
            } else if value < 0x100_0000_0000_0000 {
                lemma_varint_len_exact(value as nat, 8);
            } else if value < 0x8000_0000_0000_0000 {
                lemma_varint_len_exact(value as nat, 9);
            } else {
                lemma_varint_len_exact(value as nat, 10);
            }
        }
        if value < 0x80 {
            1
        } else if value < 0x4000 {
            2
        } else if value < 0x20_0000 {
            3
        } else if value < 0x1000_0000 {
            4
        } else if value < 0x8_0000_0000 {
            5
        } else if value < 0x400_0000_0000 {
            6
        } else if value < 0x2_0000_0000_0000 {
            7
        } else if value < 0x100_0000_0000_0000 {
            8
        } else if value < 0x8000_0000_0000_0000 {
            9
        } else {
            10
        }
    }
}

/// The signed reading of the low 32 bits of a raw value.
pub open spec fn twos_complement_32_inverse_of(u: u64) -> int {
    crate::wire::model::twos_complement_32_inverse((u % 0x1_0000_0000) as nat)
}

} // verus!
