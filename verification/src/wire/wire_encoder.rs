use crate::wire::model::le_bytes_32;
use crate::wire::model::le_bytes_64;
use crate::wire::model::twos_complement_64;
use crate::wire::model::varint_bytes;
use crate::wire::model::zigzag;
use vstd::prelude::*;

verus! {

/// Append-only buffer of wire-format bytes with typed primitive writes.
///
/// No operation reads the buffer back or shifts existing bytes.
#[derive(Debug, Clone, Eq, PartialEq, Hash, Ord, PartialOrd)]
pub struct WireEncoder {
    /// Buffer where the encoded bytes are written.
    pub buf: Vec<u8>,
}

impl Default for WireEncoder {
    /// Returns an encoder over an empty buffer.
    fn default() -> (r: WireEncoder)
        ensures
            r.buf@ == Seq::<u8>::empty(),
    {
        WireEncoder { buf: Vec::new() }
    }
}

impl WireEncoder {
    /// Creates an encoder over a new, empty buffer.
    pub fn new() -> (r: WireEncoder)
        ensures
            r.buf@ == Seq::<u8>::empty(),
    {
        WireEncoder { buf: Vec::new() }
    }

    /// Creates an encoder that appends to the given buffer.
    pub fn with_buf(buf: Vec<u8>) -> (r: WireEncoder)
        ensures
            r.buf@ == buf@,
    {
        WireEncoder { buf }
    }

    /// Appends the canonical varint encoding of a `u64`.
    pub fn add_var_uint64(&mut self, value: u64)
        ensures
            final(self).buf@ == old(self).buf@ + varint_bytes(value as nat),
    {
        let mut v: u64 = value;
        while v >= 128
            invariant
                self.buf@ + varint_bytes(v as nat) == old(self).buf@ + varint_bytes(
                    value as nat,
                ),
            decreases v,
        {
            let byte: u8 = ((v & 0x7f) as u8) | 0x80;
            proof {
                crate::wire::model::lemma_varint_emit_step(v);
                assert(varint_bytes(v as nat) == seq![(128 + (v as nat) % 128) as u8]
                    + varint_bytes((v as nat) / 128));
                assert(self.buf@.push((128 + v % 128) as u8) =~= self.buf@ + seq![
                    (128 + (v as nat) % 128) as u8,
                ]);
                assert((self.buf@ + seq![(128 + (v as nat) % 128) as u8]) + varint_bytes(
                    (v as nat) / 128,
                ) =~= self.buf@ + varint_bytes(v as nat));
            }
            self.buf.push(byte);
            v = v >> 7;
        }
        let last: u8 = (v & 0x7f) as u8;
        proof {
            crate::wire::model::lemma_varint_emit_step(v);
            assert(varint_bytes(v as nat) =~= seq![v as u8]);
            assert(self.buf@.push(v as u8) =~= self.buf@ + varint_bytes(v as nat));
        }
        self.buf.push(last);
    }

    /// Appends the canonical varint encoding of a `u32`.
    pub fn add_var_uint32(&mut self, value: u32)
        ensures
            final(self).buf@ == old(self).buf@ + varint_bytes(value as nat),
    {
        self.add_var_uint64(value as u64);
    }

    /// Appends a Protobuf `int32` as a varint: the value is sign-extended
    /// to 64 bits, so negative values take ten bytes.
    pub fn add_var_int32(&mut self, value: i32)
        ensures
            final(self).buf@ == old(self).buf@ + varint_bytes(twos_complement_64(value as int)),
    {
        let wide: i64 = value as i64;
        proof {
            crate::wire::model::lemma_i64_to_u64(wide);
        }
        self.add_var_uint64(wide as u64);
    }

    /// Appends a Protobuf `sint32` as a varint, using the ZigZag mapping.
    pub fn add_var_sint32(&mut self, value: i32)
        ensures
            final(self).buf@ == old(self).buf@ + varint_bytes(zigzag(value as int)),
    {
        let zz: i32 = (value << 1) ^ (value >> 31);
        proof {
            crate::wire::model::lemma_zigzag32_exec(value);
        }
        self.add_var_uint64((zz as u32) as u64);
    }

    /// Appends a Protobuf `int64` as a varint (two's complement).
    pub fn add_var_int64(&mut self, value: i64)
        ensures
            final(self).buf@ == old(self).buf@ + varint_bytes(twos_complement_64(value as int)),
    {
        proof {
            crate::wire::model::lemma_i64_to_u64(value);
        }
        self.add_var_uint64(value as u64);
    }

    /// Appends a Protobuf `sint64` as a varint, using the ZigZag mapping.
    pub fn add_var_sint64(&mut self, value: i64)
        ensures
            final(self).buf@ == old(self).buf@ + varint_bytes(zigzag(value as int)),
    {
        let zz: i64 = (value << 1) ^ (value >> 63);
        proof {
            crate::wire::model::lemma_zigzag64_exec(value);
        }
        self.add_var_uint64(zz as u64);
    }

    /// Appends a Protobuf `bool`: one byte, `0x00` or `0x01`.
    pub fn add_bool(&mut self, value: bool)
        ensures
            final(self).buf@ == old(self).buf@ + seq![if value { 1u8 } else { 0u8 }],
    {
        self.buf.push(if value {
            1
        } else {
            0
        });
        proof {
            assert(old(self).buf@.push(if value { 1u8 } else { 0u8 }) =~= old(self).buf@ + seq![
                if value { 1u8 } else { 0u8 },
            ]);
        }
    }

    /// Appends a `fixed32`: four little-endian bytes.
    pub fn add_fixed32(&mut self, value: u32)
        ensures
            final(self).buf@ == old(self).buf@ + le_bytes_32(value),
    {
        self.buf.push((value & 0xff) as u8);
        self.buf.push(((value >> 8) & 0xff) as u8);
        self.buf.push(((value >> 16) & 0xff) as u8);
        self.buf.push(((value >> 24) & 0xff) as u8);
        proof {
            assert(self.buf@ =~= old(self).buf@ + le_bytes_32(value));
        }
    }

    /// Appends an `sfixed32`: four little-endian bytes of the
    /// two's-complement representation.
    pub fn add_sfixed32(&mut self, value: i32)
        ensures
            final(self).buf@ == old(self).buf@ + le_bytes_32(value as u32),
    {
        self.add_fixed32(value as u32);
    }

    /// Appends a `fixed64`: eight little-endian bytes.
    pub fn add_fixed64(&mut self, value: u64)
        ensures
            final(self).buf@ == old(self).buf@ + le_bytes_64(value),
    {
        self.buf.push((value & 0xff) as u8);
        self.buf.push(((value >> 8) & 0xff) as u8);
        self.buf.push(((value >> 16) & 0xff) as u8);
        self.buf.push(((value >> 24) & 0xff) as u8);
        self.buf.push(((value >> 32) & 0xff) as u8);
        self.buf.push(((value >> 40) & 0xff) as u8);
        self.buf.push(((value >> 48) & 0xff) as u8);
        self.buf.push(((value >> 56) & 0xff) as u8);
        proof {
            assert(self.buf@ =~= old(self).buf@ + le_bytes_64(value));
        }
    }

    /// Appends an `sfixed64`: eight little-endian bytes of the
    /// two's-complement representation.
    pub fn add_sfixed64(&mut self, value: i64)
        ensures
            final(self).buf@ == old(self).buf@ + le_bytes_64(value as u64),
    {
        self.add_fixed64(value as u64);
    }

    /// Appends raw bytes verbatim.
    pub fn add_raw(&mut self, value: &[u8])
        ensures
            final(self).buf@ == old(self).buf@ + value@,
    {
        self.buf.extend_from_slice(value);
    }

    /// Consumes the encoder and hands back its buffer.
    pub fn take_buf(self) -> (r: Vec<u8>)
        ensures
            r@ == self.buf@,
    {
        self.buf
    }
}

} // verus!
