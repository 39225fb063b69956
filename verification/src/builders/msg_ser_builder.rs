use crate::builders::msg_builder::MsgBuilder;
use crate::builders::msg_len_builder::lens_model;
use crate::builders::msg_ser_packed_scribe::MsgSerPackedScribe;
use crate::builders::two_pass::ser_step;
use crate::builders::two_pass::ScribeOp;
use crate::builders::two_pass::SerPass;
use crate::field_number::FieldNumber;
use crate::wire::model::lemma_tag_len;
use crate::wire::model::lemma_tag_value_arith;
use crate::wire::model::lemma_varint_bytes_len;
use crate::wire::model::le_bytes_32;
use crate::wire::model::le_bytes_64;
use crate::wire::model::tag_value;
use crate::wire::model::twos_complement_64;
use crate::wire::model::varint_bytes;
use crate::wire::model::zigzag;
use vstd::prelude::*;
use vstd::string::StringSliceAdditionalSpecFns;

verus! {

/// Serialization pass of an encoding: answers the same field-typed
/// scribe calls by emitting bytes, consuming the lengths the measurement
/// pass recorded, in order.
#[derive(Debug, Eq, PartialEq, Hash)]
pub struct MsgSerBuilder {
    /// The builder holding the recorded lengths and the output buffer.
    pub buf: MsgBuilder,
    /// How many recorded lengths have been consumed.
    pub next_len_index: usize,
}

impl MsgSerBuilder {
    /// Abstraction of this pass as a serialization-pass state.
    pub open spec fn model(&self) -> SerPass {
        SerPass { emitted: self.buf.encoder.buf@.len() as int, next: self.next_len_index as int }
    }

    /// Well-formedness: every recorded length is non-negative.
    pub open spec fn wf(&self) -> bool {
        forall|j: int| 0 <= j < self.buf.lens@.len() ==> (#[trigger] self.buf.lens@[j]).1 >= 0
    }

    /// Emits the tag of a varint-class field.
    fn add_varint_tag(&mut self, field_number: FieldNumber)
        requires
            field_number@ <= 0x1FFF_FFFF,
        ensures
            final(self).buf.encoder.buf@ == old(self).buf.encoder.buf@ + varint_bytes(
                tag_value(field_number@, 0) as nat,
            ),
            final(self).buf.lens@ == old(self).buf.lens@,
            final(self).buf.len_stack@ == old(self).buf.len_stack@,
            final(self).next_len_index == old(self).next_len_index,
    {
        proof {
            lemma_tag_value_arith(field_number@, 0);
        }
        self.buf.encoder.add_var_uint32(field_number.0 << 3);
    }

    /// Emits an `int32` field: tag, then the sign-extended varint.
    pub fn add_int32_field(&mut self, field_number: FieldNumber, value: i32)
        requires
            old(self).wf(),
            field_number@ <= 0x1FFF_FFFF,
        ensures
            final(self).wf(),
            final(self).buf.encoder.buf@ == old(self).buf.encoder.buf@ + varint_bytes(
                tag_value(field_number@, 0) as nat,
            ) + varint_bytes(twos_complement_64(value as int)),
            final(self).buf.lens@ == old(self).buf.lens@,
            final(self).buf.len_stack@ == old(self).buf.len_stack@,
            final(self).next_len_index == old(self).next_len_index,
            final(self).model() == ser_step(
                old(self).model(),
                lens_model(old(self).buf.lens@),
                (ScribeOp::Scalar {
                    field: field_number@,
                    code: 0,
                    payload: varint_bytes(twos_complement_64(value as int)),
                }),
            ),
    {
        proof {
            lemma_tag_len(field_number@, 0);
            lemma_varint_bytes_len(tag_value(field_number@, 0) as nat);
            lemma_varint_bytes_len(twos_complement_64(value as int));
        }
        self.add_varint_tag(field_number);
        self.buf.encoder.add_var_int32(value);
    }

    /// Emits an `int64` field: tag, then the two's-complement varint.
    pub fn add_int64_field(&mut self, field_number: FieldNumber, value: i64)
        requires
            old(self).wf(),
            field_number@ <= 0x1FFF_FFFF,
        ensures
            final(self).wf(),
            final(self).buf.encoder.buf@ == old(self).buf.encoder.buf@ + varint_bytes(
                tag_value(field_number@, 0) as nat,
            ) + varint_bytes(twos_complement_64(value as int)),
            final(self).buf.lens@ == old(self).buf.lens@,
            final(self).buf.len_stack@ == old(self).buf.len_stack@,
            final(self).next_len_index == old(self).next_len_index,
            final(self).model() == ser_step(
                old(self).model(),
                lens_model(old(self).buf.lens@),
                (ScribeOp::Scalar {
                    field: field_number@,
                    code: 0,
                    payload: varint_bytes(twos_complement_64(value as int)),
                }),
            ),
    {
        proof {
            lemma_tag_len(field_number@, 0);
            lemma_varint_bytes_len(tag_value(field_number@, 0) as nat);
            lemma_varint_bytes_len(twos_complement_64(value as int));
        }
        self.add_varint_tag(field_number);
        self.buf.encoder.add_var_int64(value);
    }

    /// Emits a `uint32` field.
    pub fn add_uint32_field(&mut self, field_number: FieldNumber, value: u32)
        requires
            old(self).wf(),
            field_number@ <= 0x1FFF_FFFF,
        ensures
            final(self).wf(),
            final(self).buf.encoder.buf@ == old(self).buf.encoder.buf@ + varint_bytes(
                tag_value(field_number@, 0) as nat,
            ) + varint_bytes(value as nat),
            final(self).buf.lens@ == old(self).buf.lens@,
            final(self).buf.len_stack@ == old(self).buf.len_stack@,
            final(self).next_len_index == old(self).next_len_index,
            final(self).model() == ser_step(
                old(self).model(),
                lens_model(old(self).buf.lens@),
                (ScribeOp::Scalar {
                    field: field_number@,
                    code: 0,
                    payload: varint_bytes(value as nat),
                }),
            ),
    {
        proof {
            lemma_tag_len(field_number@, 0);
            lemma_varint_bytes_len(tag_value(field_number@, 0) as nat);
            lemma_varint_bytes_len(value as nat);
        }
        self.add_varint_tag(field_number);
        self.buf.encoder.add_var_uint32(value);
    }

    /// Emits a `uint64` field.
    pub fn add_uint64_field(&mut self, field_number: FieldNumber, value: u64)
        requires
            old(self).wf(),
            field_number@ <= 0x1FFF_FFFF,
        ensures
            final(self).wf(),
            final(self).buf.encoder.buf@ == old(self).buf.encoder.buf@ + varint_bytes(
                tag_value(field_number@, 0) as nat,
            ) + varint_bytes(value as nat),
            final(self).buf.lens@ == old(self).buf.lens@,
            final(self).buf.len_stack@ == old(self).buf.len_stack@,
            final(self).next_len_index == old(self).next_len_index,
            final(self).model() == ser_step(
                old(self).model(),
                lens_model(old(self).buf.lens@),
                (ScribeOp::Scalar {
                    field: field_number@,
                    code: 0,
                    payload: varint_bytes(value as nat),
                }),
            ),
    {
        proof {
            lemma_tag_len(field_number@, 0);
            lemma_varint_bytes_len(tag_value(field_number@, 0) as nat);
            lemma_varint_bytes_len(value as nat);
        }
        self.add_varint_tag(field_number);
        self.buf.encoder.add_var_uint64(value);
    }

    /// Emits a `bool` field: tag, then one byte.
    pub fn add_bool_field(&mut self, field_number: FieldNumber, value: bool)
        requires
            old(self).wf(),
            field_number@ <= 0x1FFF_FFFF,
        ensures
            final(self).wf(),
            final(self).buf.encoder.buf@ == old(self).buf.encoder.buf@ + varint_bytes(
                tag_value(field_number@, 0) as nat,
            ) + seq![if value { 1u8 } else { 0u8 }],
            final(self).buf.lens@ == old(self).buf.lens@,
            final(self).buf.len_stack@ == old(self).buf.len_stack@,
            final(self).next_len_index == old(self).next_len_index,
            final(self).model() == ser_step(
                old(self).model(),
                lens_model(old(self).buf.lens@),
                (ScribeOp::Scalar {
                    field: field_number@,
                    code: 0,
                    payload: seq![if value { 1u8 } else { 0u8 }],
                }),
            ),
    {
        proof {
            lemma_tag_len(field_number@, 0);
            lemma_varint_bytes_len(tag_value(field_number@, 0) as nat);
        }
        self.add_varint_tag(field_number);
        self.buf.encoder.add_bool(value);
    }

    /// Emits an `enum` field, carried with `int32` semantics.
    pub fn add_enum_field(&mut self, field_number: FieldNumber, value: i32)
        requires
            old(self).wf(),
            field_number@ <= 0x1FFF_FFFF,
        ensures
            final(self).wf(),
            final(self).buf.encoder.buf@ == old(self).buf.encoder.buf@ + varint_bytes(
                tag_value(field_number@, 0) as nat,
            ) + varint_bytes(twos_complement_64(value as int)),
            final(self).buf.lens@ == old(self).buf.lens@,
            final(self).buf.len_stack@ == old(self).buf.len_stack@,
            final(self).next_len_index == old(self).next_len_index,
            final(self).model() == ser_step(
                old(self).model(),
                lens_model(old(self).buf.lens@),
                (ScribeOp::Scalar {
                    field: field_number@,
                    code: 0,
                    payload: varint_bytes(twos_complement_64(value as int)),
                }),
            ),
    {
        proof {
            lemma_tag_len(field_number@, 0);
            lemma_varint_bytes_len(tag_value(field_number@, 0) as nat);
            lemma_varint_bytes_len(twos_complement_64(value as int));
        }
        self.add_varint_tag(field_number);
        self.buf.encoder.add_var_int32(value);
    }

    /// Emits an `sint32` field (ZigZag).
    pub fn add_sint32_field(&mut self, field_number: FieldNumber, value: i32)
        requires
            old(self).wf(),
            field_number@ <= 0x1FFF_FFFF,
        ensures
            final(self).wf(),
            final(self).buf.encoder.buf@ == old(self).buf.encoder.buf@ + varint_bytes(
                tag_value(field_number@, 0) as nat,
            ) + varint_bytes(zigzag(value as int)),
            final(self).buf.lens@ == old(self).buf.lens@,
            final(self).buf.len_stack@ == old(self).buf.len_stack@,
            final(self).next_len_index == old(self).next_len_index,
            final(self).model() == ser_step(
                old(self).model(),
                lens_model(old(self).buf.lens@),
                (ScribeOp::Scalar {
                    field: field_number@,
                    code: 0,
                    payload: varint_bytes(zigzag(value as int)),
                }),
            ),
    {
        proof {
            lemma_tag_len(field_number@, 0);
            lemma_varint_bytes_len(tag_value(field_number@, 0) as nat);
            lemma_varint_bytes_len(zigzag(value as int));
        }
        self.add_varint_tag(field_number);
        self.buf.encoder.add_var_sint32(value);
    }

    /// Emits an `sint64` field (ZigZag).
    pub fn add_sint64_field(&mut self, field_number: FieldNumber, value: i64)
        requires
            old(self).wf(),
            field_number@ <= 0x1FFF_FFFF,
        ensures
            final(self).wf(),
            final(self).buf.encoder.buf@ == old(self).buf.encoder.buf@ + varint_bytes(
                tag_value(field_number@, 0) as nat,
            ) + varint_bytes(zigzag(value as int)),
            final(self).buf.lens@ == old(self).buf.lens@,
            final(self).buf.len_stack@ == old(self).buf.len_stack@,
            final(self).next_len_index == old(self).next_len_index,
            final(self).model() == ser_step(
                old(self).model(),
                lens_model(old(self).buf.lens@),
                (ScribeOp::Scalar {
                    field: field_number@,
                    code: 0,
                    payload: varint_bytes(zigzag(value as int)),
                }),
            ),
    {
        proof {
            lemma_tag_len(field_number@, 0);
            lemma_varint_bytes_len(tag_value(field_number@, 0) as nat);
            lemma_varint_bytes_len(zigzag(value as int));
        }
        self.add_varint_tag(field_number);
        self.buf.encoder.add_var_sint64(value);
    }

    /// Emits a `fixed32` field: tag, then four little-endian bytes.
    pub fn add_fixed32_field(&mut self, field_number: FieldNumber, value: u32)
        requires
            old(self).wf(),
            field_number@ <= 0x1FFF_FFFF,
        ensures
            final(self).wf(),
            final(self).buf.encoder.buf@ == old(self).buf.encoder.buf@ + varint_bytes(
                tag_value(field_number@, 5) as nat,
            ) + le_bytes_32(value),
            final(self).buf.lens@ == old(self).buf.lens@,
            final(self).buf.len_stack@ == old(self).buf.len_stack@,
            final(self).next_len_index == old(self).next_len_index,
            final(self).model() == ser_step(
                old(self).model(),
                lens_model(old(self).buf.lens@),
                (ScribeOp::Scalar { field: field_number@, code: 5, payload: le_bytes_32(value) }),
            ),
    {
        proof {
            lemma_tag_len(field_number@, 5);
            lemma_varint_bytes_len(tag_value(field_number@, 5) as nat);
        }
        self.buf.encoder.add_var_uint32((field_number.0 << 3) | 5);
        self.buf.encoder.add_fixed32(value);
    }

    /// Emits an `sfixed32` field: tag, then four little-endian bytes of
    /// the two's-complement representation.
    pub fn add_sfixed32_field(&mut self, field_number: FieldNumber, value: i32)
        requires
            old(self).wf(),
            field_number@ <= 0x1FFF_FFFF,
        ensures
            final(self).wf(),
            final(self).buf.encoder.buf@ == old(self).buf.encoder.buf@ + varint_bytes(
                tag_value(field_number@, 5) as nat,
            ) + le_bytes_32(value as u32),
            final(self).buf.lens@ == old(self).buf.lens@,
            final(self).buf.len_stack@ == old(self).buf.len_stack@,
            final(self).next_len_index == old(self).next_len_index,
            final(self).model() == ser_step(
                old(self).model(),
                lens_model(old(self).buf.lens@),
                (ScribeOp::Scalar {
                    field: field_number@,
                    code: 5,
                    payload: le_bytes_32(value as u32),
                }),
            ),
    {
        proof {
            lemma_tag_len(field_number@, 5);
            lemma_varint_bytes_len(tag_value(field_number@, 5) as nat);
        }
        self.buf.encoder.add_var_uint32((field_number.0 << 3) | 5);
        self.buf.encoder.add_sfixed32(value);
    }

    /// Emits a `fixed64` field: tag, then eight little-endian bytes.
    pub fn add_fixed64_field(&mut self, field_number: FieldNumber, value: u64)
        requires
            old(self).wf(),
            field_number@ <= 0x1FFF_FFFF,
        ensures
            final(self).wf(),
            final(self).buf.encoder.buf@ == old(self).buf.encoder.buf@ + varint_bytes(
                tag_value(field_number@, 1) as nat,
            ) + le_bytes_64(value),
            final(self).buf.lens@ == old(self).buf.lens@,
            final(self).buf.len_stack@ == old(self).buf.len_stack@,
            final(self).next_len_index == old(self).next_len_index,
            final(self).model() == ser_step(
                old(self).model(),
                lens_model(old(self).buf.lens@),
                (ScribeOp::Scalar { field: field_number@, code: 1, payload: le_bytes_64(value) }),
            ),
    {
        proof {
            lemma_tag_len(field_number@, 1);
            lemma_varint_bytes_len(tag_value(field_number@, 1) as nat);
        }
        self.buf.encoder.add_var_uint32((field_number.0 << 3) | 1);
        self.buf.encoder.add_fixed64(value);
    }

    /// Emits an `sfixed64` field: tag, then eight little-endian bytes of
    /// the two's-complement representation.
    pub fn add_sfixed64_field(&mut self, field_number: FieldNumber, value: i64)
        requires
            old(self).wf(),
            field_number@ <= 0x1FFF_FFFF,
        ensures
            final(self).wf(),
            final(self).buf.encoder.buf@ == old(self).buf.encoder.buf@ + varint_bytes(
                tag_value(field_number@, 1) as nat,
            ) + le_bytes_64(value as u64),
            final(self).buf.lens@ == old(self).buf.lens@,
            final(self).buf.len_stack@ == old(self).buf.len_stack@,
            final(self).next_len_index == old(self).next_len_index,
            final(self).model() == ser_step(
                old(self).model(),
                lens_model(old(self).buf.lens@),
                (ScribeOp::Scalar {
                    field: field_number@,
                    code: 1,
                    payload: le_bytes_64(value as u64),
                }),
            ),
    {
        proof {
            lemma_tag_len(field_number@, 1);
            lemma_varint_bytes_len(tag_value(field_number@, 1) as nat);
        }
        self.buf.encoder.add_var_uint32((field_number.0 << 3) | 1);
        self.buf.encoder.add_sfixed64(value);
    }

    /// Emits a `string` field: tag, varint byte length, UTF-8 bytes.
    pub fn add_string_field(&mut self, field_number: FieldNumber, value: &str)
        requires
            old(self).wf(),
            field_number@ <= 0x1FFF_FFFF,
            value.spec_bytes().len() <= 0x7FFF_FFFF,
        ensures
            final(self).wf(),
            final(self).buf.encoder.buf@ == old(self).buf.encoder.buf@ + varint_bytes(
                tag_value(field_number@, 2) as nat,
            ) + varint_bytes(value.spec_bytes().len()) + value.spec_bytes(),
            final(self).buf.lens@ == old(self).buf.lens@,
            final(self).buf.len_stack@ == old(self).buf.len_stack@,
            final(self).next_len_index == old(self).next_len_index,
            final(self).model() == ser_step(
                old(self).model(),
                lens_model(old(self).buf.lens@),
                (ScribeOp::Scalar {
                    field: field_number@,
                    code: 2,
                    payload: varint_bytes(value.spec_bytes().len()) + value.spec_bytes(),
                }),
            ),
    {
        proof {
            lemma_tag_len(field_number@, 2);
            lemma_varint_bytes_len(tag_value(field_number@, 2) as nat);
            lemma_varint_bytes_len(value.spec_bytes().len());
        }
        self.buf.encoder.add_var_uint32((field_number.0 << 3) | 2);
        let len: usize = value.len();
        self.buf.encoder.add_var_uint32(len as u32);
        self.buf.encoder.add_raw(value.as_bytes());
    }

    /// Emits a `bytes` field: tag, varint byte length, raw bytes.
    pub fn add_bytes_field(&mut self, field_number: FieldNumber, value: &[u8])
        requires
            old(self).wf(),
            field_number@ <= 0x1FFF_FFFF,
            value@.len() <= 0x7FFF_FFFF,
        ensures
            final(self).wf(),
            final(self).buf.encoder.buf@ == old(self).buf.encoder.buf@ + varint_bytes(
                tag_value(field_number@, 2) as nat,
            ) + varint_bytes(value@.len()) + value@,
            final(self).buf.lens@ == old(self).buf.lens@,
            final(self).buf.len_stack@ == old(self).buf.len_stack@,
            final(self).next_len_index == old(self).next_len_index,
            final(self).model() == ser_step(
                old(self).model(),
                lens_model(old(self).buf.lens@),
                (ScribeOp::Scalar {
                    field: field_number@,
                    code: 2,
                    payload: varint_bytes(value@.len()) + value@,
                }),
            ),
    {
        proof {
            lemma_tag_len(field_number@, 2);
            lemma_varint_bytes_len(tag_value(field_number@, 2) as nat);
            lemma_varint_bytes_len(value@.len());
        }
        self.buf.encoder.add_var_uint32((field_number.0 << 3) | 2);
        let len: usize = value.len();
        self.buf.encoder.add_var_uint32(len as u32);
        self.buf.encoder.add_raw(value);
    }

    /// Opens a length-delimited region in the output: consumes the next
    /// recorded length, which must carry the same field number, and
    /// emits the region's tag and its length prefix.
    fn start_len_area(&mut self, field_number: FieldNumber)
        requires
            old(self).wf(),
            field_number@ <= 0x1FFF_FFFF,
            old(self).next_len_index < old(self).buf.lens@.len(),
            old(self).buf.lens@[old(self).next_len_index as int].0 == field_number,
        ensures
            final(self).wf(),
            final(self).buf.encoder.buf@ == old(self).buf.encoder.buf@ + varint_bytes(
                tag_value(field_number@, 2) as nat,
            ) + varint_bytes(
                twos_complement_64(old(self).buf.lens@[old(self).next_len_index as int].1 as int),
            ),
            final(self).buf.lens@ == old(self).buf.lens@,
            final(self).buf.len_stack@ == old(self).buf.len_stack@,
            final(self).next_len_index == old(self).next_len_index + 1,
            final(self).model() == ser_step(
                old(self).model(),
                lens_model(old(self).buf.lens@),
                (ScribeOp::Open { field: field_number@, packed: false }),
            ),
    {
        proof {
            lemma_tag_len(field_number@, 2);
            lemma_varint_bytes_len(tag_value(field_number@, 2) as nat);
            let entry = old(self).buf.lens@[old(self).next_len_index as int];
            lemma_varint_bytes_len(twos_complement_64(entry.1 as int));
            assert(lens_model(old(self).buf.lens@)[old(self).next_len_index as int] == (
            entry.0@,
            entry.1 as int,
            ));
        }
        let total: usize = self.buf.lens.len();
        let pair: (FieldNumber, i32) = self.buf.lens[self.next_len_index];
        self.next_len_index = self.next_len_index + 1;
        self.buf.encoder.add_var_uint32((field_number.0 << 3) | 2);
        self.buf.encoder.add_var_int32(pair.1);
    }

    /// Opens an embedded-message region in the output.
    pub fn start_msg_field(&mut self, field_number: FieldNumber)
        requires
            old(self).wf(),
            field_number@ <= 0x1FFF_FFFF,
            old(self).next_len_index < old(self).buf.lens@.len(),
            old(self).buf.lens@[old(self).next_len_index as int].0 == field_number,
        ensures
            final(self).wf(),
            final(self).buf.encoder.buf@ == old(self).buf.encoder.buf@ + varint_bytes(
                tag_value(field_number@, 2) as nat,
            ) + varint_bytes(
                twos_complement_64(old(self).buf.lens@[old(self).next_len_index as int].1 as int),
            ),
            final(self).buf.lens@ == old(self).buf.lens@,
            final(self).buf.len_stack@ == old(self).buf.len_stack@,
            final(self).next_len_index == old(self).next_len_index + 1,
            final(self).model() == ser_step(
                old(self).model(),
                lens_model(old(self).buf.lens@),
                (ScribeOp::Open { field: field_number@, packed: false }),
            ),
    {
        self.start_len_area(field_number);
    }

    /// Opens a packed repeated field in the output and hands back the
    /// tag-less packed scribe that owns this pass while the region is
    /// open.  Closing a region is a no-op in this pass.
    pub fn start_packed_field(self, field_number: FieldNumber) -> (r: MsgSerPackedScribe)
        requires
            self.wf(),
            field_number@ <= 0x1FFF_FFFF,
            self.next_len_index < self.buf.lens@.len(),
            self.buf.lens@[self.next_len_index as int].0 == field_number,
        ensures
            r.parent.wf(),
            r.parent.buf.encoder.buf@ == self.buf.encoder.buf@ + varint_bytes(
                tag_value(field_number@, 2) as nat,
            ) + varint_bytes(
                twos_complement_64(self.buf.lens@[self.next_len_index as int].1 as int),
            ),
            r.parent.buf.lens@ == self.buf.lens@,
            r.parent.buf.len_stack@ == self.buf.len_stack@,
            r.parent.next_len_index == self.next_len_index + 1,
            r.parent.model() == ser_step(
                self.model(),
                lens_model(self.buf.lens@),
                (ScribeOp::Open { field: field_number@, packed: true }),
            ),
    {
        let mut b = self;
        b.start_len_area(field_number);
        MsgSerPackedScribe { parent: b }
    }

    /// Ends the serialization pass, handing the builder back; the
    /// encoded message is its encoder buffer.
    pub fn end(self) -> (r: MsgBuilder)
        ensures
            r == self.buf,
    {
        self.buf
    }
}

} // verus!
