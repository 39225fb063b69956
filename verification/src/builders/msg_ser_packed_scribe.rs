use crate::builders::msg_len_builder::lens_model;
use crate::builders::msg_ser_builder::MsgSerBuilder;
use crate::builders::two_pass::ser_step;
use crate::builders::two_pass::ScribeOp;
use crate::field_number::FieldNumber;
use crate::wire::model::le_bytes_32;
use crate::wire::model::le_bytes_64;
use crate::wire::model::lemma_varint_bytes_len;
use crate::wire::model::twos_complement_64;
use crate::wire::model::varint_bytes;
use crate::wire::model::zigzag;
use vstd::prelude::*;

verus! {

/// Serialization pass inside an open packed region: the same scalar
/// writes, without field numbers and without tags, since packed items
/// share the region's tag.
#[derive(Debug, Eq, PartialEq, Hash)]
pub struct MsgSerPackedScribe {
    /// The serialization pass this packed region belongs to.
    pub parent: MsgSerBuilder,
}

impl MsgSerPackedScribe {
    /// Emits a packed `int32` item: the sign-extended varint alone.
    pub fn add_int32(&mut self, value: i32)
        requires
            old(self).parent.wf(),
        ensures
            final(self).parent.wf(),
            final(self).parent.buf.encoder.buf@ == old(self).parent.buf.encoder.buf@
                + varint_bytes(twos_complement_64(value as int)),
            final(self).parent.buf.lens@ == old(self).parent.buf.lens@,
            final(self).parent.buf.len_stack@ == old(self).parent.buf.len_stack@,
            final(self).parent.next_len_index == old(self).parent.next_len_index,
            final(self).parent.model() == ser_step(
                old(self).parent.model(),
                lens_model(old(self).parent.buf.lens@),
                (ScribeOp::PackedItem { payload: varint_bytes(twos_complement_64(value as int)) }),
            ),
    {
        proof {
            lemma_varint_bytes_len(twos_complement_64(value as int));
        }
        self.parent.buf.encoder.add_var_int32(value);
    }

    /// Emits a packed `int64` item.
    pub fn add_int64(&mut self, value: i64)
        requires
            old(self).parent.wf(),
        ensures
            final(self).parent.wf(),
            final(self).parent.buf.encoder.buf@ == old(self).parent.buf.encoder.buf@
                + varint_bytes(twos_complement_64(value as int)),
            final(self).parent.buf.lens@ == old(self).parent.buf.lens@,
            final(self).parent.buf.len_stack@ == old(self).parent.buf.len_stack@,
            final(self).parent.next_len_index == old(self).parent.next_len_index,
            final(self).parent.model() == ser_step(
                old(self).parent.model(),
                lens_model(old(self).parent.buf.lens@),
                (ScribeOp::PackedItem { payload: varint_bytes(twos_complement_64(value as int)) }),
            ),
    {
        proof {
            lemma_varint_bytes_len(twos_complement_64(value as int));
        }
        self.parent.buf.encoder.add_var_int64(value);
    }

    /// Emits a packed `uint32` item.
    pub fn add_uint32(&mut self, value: u32)
        requires
            old(self).parent.wf(),
        ensures
            final(self).parent.wf(),
            final(self).parent.buf.encoder.buf@ == old(self).parent.buf.encoder.buf@
                + varint_bytes(value as nat),
            final(self).parent.buf.lens@ == old(self).parent.buf.lens@,
            final(self).parent.buf.len_stack@ == old(self).parent.buf.len_stack@,
            final(self).parent.next_len_index == old(self).parent.next_len_index,
            final(self).parent.model() == ser_step(
                old(self).parent.model(),
                lens_model(old(self).parent.buf.lens@),
                (ScribeOp::PackedItem { payload: varint_bytes(value as nat) }),
            ),
    {
        proof {
            lemma_varint_bytes_len(value as nat);
        }
        self.parent.buf.encoder.add_var_uint32(value);
    }

    /// Emits a packed `uint64` item.
    pub fn add_uint64(&mut self, value: u64)
        requires
            old(self).parent.wf(),
        ensures
            final(self).parent.wf(),
            final(self).parent.buf.encoder.buf@ == old(self).parent.buf.encoder.buf@
                + varint_bytes(value as nat),
            final(self).parent.buf.lens@ == old(self).parent.buf.lens@,
            final(self).parent.buf.len_stack@ == old(self).parent.buf.len_stack@,
            final(self).parent.next_len_index == old(self).parent.next_len_index,
            final(self).parent.model() == ser_step(
                old(self).parent.model(),
                lens_model(old(self).parent.buf.lens@),
                (ScribeOp::PackedItem { payload: varint_bytes(value as nat) }),
            ),
    {
        proof {
            lemma_varint_bytes_len(value as nat);
        }
        self.parent.buf.encoder.add_var_uint64(value);
    }

    /// Emits a packed `bool` item: one byte.
    pub fn add_bool(&mut self, value: bool)
        requires
            old(self).parent.wf(),
        ensures
            final(self).parent.wf(),
            final(self).parent.buf.encoder.buf@ == old(self).parent.buf.encoder.buf@ + seq![
                if value { 1u8 } else { 0u8 },
            ],
            final(self).parent.buf.lens@ == old(self).parent.buf.lens@,
            final(self).parent.buf.len_stack@ == old(self).parent.buf.len_stack@,
            final(self).parent.next_len_index == old(self).parent.next_len_index,
            final(self).parent.model() == ser_step(
                old(self).parent.model(),
                lens_model(old(self).parent.buf.lens@),
                (ScribeOp::PackedItem { payload: seq![if value { 1u8 } else { 0u8 }] }),
            ),
    {
        self.parent.buf.encoder.add_bool(value);
    }

    /// Emits a packed `enum` item, carried with `int32` semantics.
    pub fn add_enum(&mut self, value: i32)
        requires
            old(self).parent.wf(),
        ensures
            final(self).parent.wf(),
            final(self).parent.buf.encoder.buf@ == old(self).parent.buf.encoder.buf@
                + varint_bytes(twos_complement_64(value as int)),
            final(self).parent.buf.lens@ == old(self).parent.buf.lens@,
            final(self).parent.buf.len_stack@ == old(self).parent.buf.len_stack@,
            final(self).parent.next_len_index == old(self).parent.next_len_index,
            final(self).parent.model() == ser_step(
                old(self).parent.model(),
                lens_model(old(self).parent.buf.lens@),
                (ScribeOp::PackedItem { payload: varint_bytes(twos_complement_64(value as int)) }),
            ),
    {
        proof {
            lemma_varint_bytes_len(twos_complement_64(value as int));
        }
        self.parent.buf.encoder.add_var_int32(value);
    }

    /// Emits a packed `sint32` item (ZigZag).
    pub fn add_sint32(&mut self, value: i32)
        requires
            old(self).parent.wf(),
        ensures
            final(self).parent.wf(),
            final(self).parent.buf.encoder.buf@ == old(self).parent.buf.encoder.buf@
                + varint_bytes(zigzag(value as int)),
            final(self).parent.buf.lens@ == old(self).parent.buf.lens@,
            final(self).parent.buf.len_stack@ == old(self).parent.buf.len_stack@,
            final(self).parent.next_len_index == old(self).parent.next_len_index,
            final(self).parent.model() == ser_step(
                old(self).parent.model(),
                lens_model(old(self).parent.buf.lens@),
                (ScribeOp::PackedItem { payload: varint_bytes(zigzag(value as int)) }),
            ),
    {
        proof {
            lemma_varint_bytes_len(zigzag(value as int));
        }
        self.parent.buf.encoder.add_var_sint32(value);
    }

    /// Emits a packed `sint64` item (ZigZag).
    pub fn add_sint64(&mut self, value: i64)
        requires
            old(self).parent.wf(),
        ensures
            final(self).parent.wf(),
            final(self).parent.buf.encoder.buf@ == old(self).parent.buf.encoder.buf@
                + varint_bytes(zigzag(value as int)),
            final(self).parent.buf.lens@ == old(self).parent.buf.lens@,
            final(self).parent.buf.len_stack@ == old(self).parent.buf.len_stack@,
            final(self).parent.next_len_index == old(self).parent.next_len_index,
            final(self).parent.model() == ser_step(
                old(self).parent.model(),
                lens_model(old(self).parent.buf.lens@),
                (ScribeOp::PackedItem { payload: varint_bytes(zigzag(value as int)) }),
            ),
    {
        proof {
            lemma_varint_bytes_len(zigzag(value as int));
        }
        self.parent.buf.encoder.add_var_sint64(value);
    }

    /// Emits a packed `fixed32` item: four little-endian bytes.
    pub fn add_fixed32(&mut self, value: u32)
        requires
            old(self).parent.wf(),
        ensures
            final(self).parent.wf(),
            final(self).parent.buf.encoder.buf@ == old(self).parent.buf.encoder.buf@ + le_bytes_32(
                value,
            ),
            final(self).parent.buf.lens@ == old(self).parent.buf.lens@,
            final(self).parent.buf.len_stack@ == old(self).parent.buf.len_stack@,
            final(self).parent.next_len_index == old(self).parent.next_len_index,
            final(self).parent.model() == ser_step(
                old(self).parent.model(),
                lens_model(old(self).parent.buf.lens@),
                (ScribeOp::PackedItem { payload: le_bytes_32(value) }),
            ),
    {
        self.parent.buf.encoder.add_fixed32(value);
    }

    /// Emits a packed `sfixed32` item.
    pub fn add_sfixed32(&mut self, value: i32)
        requires
            old(self).parent.wf(),
        ensures
            final(self).parent.wf(),
            final(self).parent.buf.encoder.buf@ == old(self).parent.buf.encoder.buf@ + le_bytes_32(
                value as u32,
            ),
            final(self).parent.buf.lens@ == old(self).parent.buf.lens@,
            final(self).parent.buf.len_stack@ == old(self).parent.buf.len_stack@,
            final(self).parent.next_len_index == old(self).parent.next_len_index,
            final(self).parent.model() == ser_step(
                old(self).parent.model(),
                lens_model(old(self).parent.buf.lens@),
                (ScribeOp::PackedItem { payload: le_bytes_32(value as u32) }),
            ),
    {
        self.parent.buf.encoder.add_sfixed32(value);
    }

    /// Emits a packed `fixed64` item: eight little-endian bytes.
    pub fn add_fixed64(&mut self, value: u64)
        requires
            old(self).parent.wf(),
        ensures
            final(self).parent.wf(),
            final(self).parent.buf.encoder.buf@ == old(self).parent.buf.encoder.buf@ + le_bytes_64(
                value,
            ),
            final(self).parent.buf.lens@ == old(self).parent.buf.lens@,
            final(self).parent.buf.len_stack@ == old(self).parent.buf.len_stack@,
            final(self).parent.next_len_index == old(self).parent.next_len_index,
            final(self).parent.model() == ser_step(
                old(self).parent.model(),
                lens_model(old(self).parent.buf.lens@),
                (ScribeOp::PackedItem { payload: le_bytes_64(value) }),
            ),
    {
        self.parent.buf.encoder.add_fixed64(value);
    }

    /// Emits a packed `sfixed64` item.
    pub fn add_sfixed64(&mut self, value: i64)
        requires
            old(self).parent.wf(),
        ensures
            final(self).parent.wf(),
            final(self).parent.buf.encoder.buf@ == old(self).parent.buf.encoder.buf@ + le_bytes_64(
                value as u64,
            ),
            final(self).parent.buf.lens@ == old(self).parent.buf.lens@,
            final(self).parent.buf.len_stack@ == old(self).parent.buf.len_stack@,
            final(self).parent.next_len_index == old(self).parent.next_len_index,
            final(self).parent.model() == ser_step(
                old(self).parent.model(),
                lens_model(old(self).parent.buf.lens@),
                (ScribeOp::PackedItem { payload: le_bytes_64(value as u64) }),
            ),
    {
        self.parent.buf.encoder.add_sfixed64(value);
    }

    /// Closes the packed region, handing the serialization pass back;
    /// closing emits nothing in this pass.
    pub fn end_packed_field(self, _field_number: FieldNumber) -> (r: MsgSerBuilder)
        ensures
            r == self.parent,
    {
        self.parent
    }
}

} // verus!
