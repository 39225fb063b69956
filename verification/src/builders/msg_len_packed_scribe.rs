use crate::builders::msg_len_builder::MsgLenBuilder;
use crate::builders::two_pass::len_step;
use crate::builders::two_pass::zero_bytes;
use crate::builders::two_pass::ScribeOp;
use crate::field_number::FieldNumber;
use crate::wire::model::lemma_varint_bytes_len;
use crate::wire::model::twos_complement_64;
use crate::wire::model::varint_bytes;
use crate::wire::model::varint_len;
use crate::wire::model::zigzag;
use crate::wire::wire_var_int::WireVarInt;
use vstd::prelude::*;

verus! {

/// Measurement pass inside an open packed region: the same scalar
/// measurements, without field numbers, since packed items share the
/// region's tag.
#[derive(Debug, Eq, PartialEq, Hash)]
pub struct MsgLenPackedScribe {
    /// The measurement pass this packed region belongs to.
    pub parent: MsgLenBuilder,
}

impl MsgLenPackedScribe {
    /// Adds one tag-less item's payload width to the region's sum.
    fn add_item(&mut self, payload_len: i32)
        requires
            old(self).parent.wf(),
            1 <= payload_len <= 10,
            old(self).parent.cur_len + payload_len <= i32::MAX,
        ensures
            final(self).parent.wf(),
            final(self).parent.buf == old(self).parent.buf,
            final(self).parent.cur_len == old(self).parent.cur_len + payload_len,
    {
        self.parent.cur_len = self.parent.cur_len + payload_len;
    }

    /// Measures a packed `int32` item.
    pub fn add_int32(&mut self, value: i32)
        requires
            old(self).parent.wf(),
            old(self).parent.cur_len + varint_len(twos_complement_64(value as int)) <= i32::MAX,
        ensures
            final(self).parent.wf(),
            final(self).parent.buf == old(self).parent.buf,
            final(self).parent.model() == len_step(
                old(self).parent.model(),
                (ScribeOp::PackedItem { payload: varint_bytes(twos_complement_64(value as int)) }),
            ),
    {
        proof {
            lemma_varint_bytes_len(twos_complement_64(value as int));
        }
        let n: i32 = WireVarInt::int32_byte_len(value);
        self.add_item(n);
    }

    /// Measures a packed `int64` item.
    pub fn add_int64(&mut self, value: i64)
        requires
            old(self).parent.wf(),
            old(self).parent.cur_len + varint_len(twos_complement_64(value as int)) <= i32::MAX,
        ensures
            final(self).parent.wf(),
            final(self).parent.buf == old(self).parent.buf,
            final(self).parent.model() == len_step(
                old(self).parent.model(),
                (ScribeOp::PackedItem { payload: varint_bytes(twos_complement_64(value as int)) }),
            ),
    {
        proof {
            lemma_varint_bytes_len(twos_complement_64(value as int));
        }
        let n: i32 = WireVarInt::int64_byte_len(value);
        self.add_item(n);
    }

    /// Measures a packed `uint32` item.
    pub fn add_uint32(&mut self, value: u32)
        requires
            old(self).parent.wf(),
            old(self).parent.cur_len + varint_len(value as nat) <= i32::MAX,
        ensures
            final(self).parent.wf(),
            final(self).parent.buf == old(self).parent.buf,
            final(self).parent.model() == len_step(
                old(self).parent.model(),
                (ScribeOp::PackedItem { payload: varint_bytes(value as nat) }),
            ),
    {
        proof {
            lemma_varint_bytes_len(value as nat);
        }
        let n: i32 = WireVarInt::uint32_byte_len(value);
        self.add_item(n);
    }

    /// Measures a packed `uint64` item.
    pub fn add_uint64(&mut self, value: u64)
        requires
            old(self).parent.wf(),
            old(self).parent.cur_len + varint_len(value as nat) <= i32::MAX,
        ensures
            final(self).parent.wf(),
            final(self).parent.buf == old(self).parent.buf,
            final(self).parent.model() == len_step(
                old(self).parent.model(),
                (ScribeOp::PackedItem { payload: varint_bytes(value as nat) }),
            ),
    {
        proof {
            lemma_varint_bytes_len(value as nat);
        }
        let n: i32 = WireVarInt::uint64_byte_len(value);
        self.add_item(n);
    }

    /// Measures a packed `bool` item: one byte.
    pub fn add_bool(&mut self)
        requires
            old(self).parent.wf(),
            old(self).parent.cur_len + 1 <= i32::MAX,
        ensures
            final(self).parent.wf(),
            final(self).parent.buf == old(self).parent.buf,
            final(self).parent.model() == len_step(
                old(self).parent.model(),
                (ScribeOp::PackedItem { payload: zero_bytes(1) }),
            ),
    {
        self.add_item(1);
    }

    /// Measures a packed `enum` item, carried with `int32` semantics.
    pub fn add_enum(&mut self, value: i32)
        requires
            old(self).parent.wf(),
            old(self).parent.cur_len + varint_len(twos_complement_64(value as int)) <= i32::MAX,
        ensures
            final(self).parent.wf(),
            final(self).parent.buf == old(self).parent.buf,
            final(self).parent.model() == len_step(
                old(self).parent.model(),
                (ScribeOp::PackedItem { payload: varint_bytes(twos_complement_64(value as int)) }),
            ),
    {
        proof {
            lemma_varint_bytes_len(twos_complement_64(value as int));
        }
        let n: i32 = WireVarInt::int32_byte_len(value);
        self.add_item(n);
    }

    /// Measures a packed `sint32` item (ZigZag).
    pub fn add_sint32(&mut self, value: i32)
        requires
            old(self).parent.wf(),
            old(self).parent.cur_len + varint_len(zigzag(value as int)) <= i32::MAX,
        ensures
            final(self).parent.wf(),
            final(self).parent.buf == old(self).parent.buf,
            final(self).parent.model() == len_step(
                old(self).parent.model(),
                (ScribeOp::PackedItem { payload: varint_bytes(zigzag(value as int)) }),
            ),
    {
        proof {
            lemma_varint_bytes_len(zigzag(value as int));
        }
        let n: i32 = WireVarInt::sint32_byte_len(value);
        self.add_item(n);
    }

    /// Measures a packed `sint64` item (ZigZag).
    pub fn add_sint64(&mut self, value: i64)
        requires
            old(self).parent.wf(),
            old(self).parent.cur_len + varint_len(zigzag(value as int)) <= i32::MAX,
        ensures
            final(self).parent.wf(),
            final(self).parent.buf == old(self).parent.buf,
            final(self).parent.model() == len_step(
                old(self).parent.model(),
                (ScribeOp::PackedItem { payload: varint_bytes(zigzag(value as int)) }),
            ),
    {
        proof {
            lemma_varint_bytes_len(zigzag(value as int));
        }
        let n: i32 = WireVarInt::sint64_byte_len(value);
        self.add_item(n);
    }

    /// Measures a packed `fixed32` item: four bytes.
    pub fn add_fixed32(&mut self)
        requires
            old(self).parent.wf(),
            old(self).parent.cur_len + 4 <= i32::MAX,
        ensures
            final(self).parent.wf(),
            final(self).parent.buf == old(self).parent.buf,
            final(self).parent.model() == len_step(
                old(self).parent.model(),
                (ScribeOp::PackedItem { payload: zero_bytes(4) }),
            ),
    {
        self.add_item(4);
    }

    /// Measures a packed `sfixed32` item: four bytes.
    pub fn add_sfixed32(&mut self)
        requires
            old(self).parent.wf(),
            old(self).parent.cur_len + 4 <= i32::MAX,
        ensures
            final(self).parent.wf(),
            final(self).parent.buf == old(self).parent.buf,
            final(self).parent.model() == len_step(
                old(self).parent.model(),
                (ScribeOp::PackedItem { payload: zero_bytes(4) }),
            ),
    {
        self.add_item(4);
    }

    /// Measures a packed `float` item: four bytes.
    pub fn add_float(&mut self)
        requires
            old(self).parent.wf(),
            old(self).parent.cur_len + 4 <= i32::MAX,
        ensures
            final(self).parent.wf(),
            final(self).parent.buf == old(self).parent.buf,
            final(self).parent.model() == len_step(
                old(self).parent.model(),
                (ScribeOp::PackedItem { payload: zero_bytes(4) }),
            ),
    {
        self.add_item(4);
    }

    /// Measures a packed `fixed64` item: eight bytes.
    pub fn add_fixed64(&mut self)
        requires
            old(self).parent.wf(),
            old(self).parent.cur_len + 8 <= i32::MAX,
        ensures
            final(self).parent.wf(),
            final(self).parent.buf == old(self).parent.buf,
            final(self).parent.model() == len_step(
                old(self).parent.model(),
                (ScribeOp::PackedItem { payload: zero_bytes(8) }),
            ),
    {
        self.add_item(8);
    }

    /// Measures a packed `sfixed64` item: eight bytes.
    pub fn add_sfixed64(&mut self)
        requires
            old(self).parent.wf(),
            old(self).parent.cur_len + 8 <= i32::MAX,
        ensures
            final(self).parent.wf(),
            final(self).parent.buf == old(self).parent.buf,
            final(self).parent.model() == len_step(
                old(self).parent.model(),
                (ScribeOp::PackedItem { payload: zero_bytes(8) }),
            ),
    {
        self.add_item(8);
    }

    /// Measures a packed `double` item: eight bytes.
    pub fn add_double(&mut self)
        requires
            old(self).parent.wf(),
            old(self).parent.cur_len + 8 <= i32::MAX,
        ensures
            final(self).parent.wf(),
            final(self).parent.buf == old(self).parent.buf,
            final(self).parent.model() == len_step(
                old(self).parent.model(),
                (ScribeOp::PackedItem { payload: zero_bytes(8) }),
            ),
    {
        self.add_item(8);
    }

    /// Closes the packed region and hands the measurement pass back; the
    /// field number must be the one the region was opened under.
    pub fn end_packed_field(self, field_number: FieldNumber) -> (r: MsgLenBuilder)
        requires
            self.parent.wf(),
            self.parent.model().stack.len() > 0,
            self.parent.model().stack.last().field == field_number@,
            self.parent.model().stack.last().packed,
            self.parent.model().stack.last().saved + varint_len(self.parent.cur_len as nat)
                + self.parent.cur_len <= i32::MAX,
        ensures
            r.wf(),
            r.model() == len_step(
                self.parent.model(),
                (ScribeOp::Close { field: field_number@, packed: true }),
            ),
            r.buf.encoder.buf@ == self.parent.buf.encoder.buf@,
    {
        let mut b = self.parent;
        b.end_packed_field(field_number);
        b
    }
}

} // verus!
