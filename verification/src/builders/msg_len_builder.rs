use crate::builders::msg_builder::LenStackEntry;
use crate::builders::msg_builder::LenStackType;
use crate::builders::msg_builder::MsgBuilder;
use crate::builders::msg_len_packed_scribe::MsgLenPackedScribe;
use crate::builders::msg_ser_builder::MsgSerBuilder;
use crate::builders::two_pass::len_step;
use crate::builders::two_pass::tag_len_of;
use crate::builders::two_pass::zero_bytes;
use crate::builders::two_pass::LenFrame;
use crate::builders::two_pass::LenPass;
use crate::builders::two_pass::ScribeOp;
use crate::field_number::FieldNumber;
use crate::wire::model::lemma_varint_bytes_len;
use crate::wire::model::twos_complement_64;
use crate::wire::model::varint_bytes;
use crate::wire::model::varint_len;
use crate::wire::model::zigzag;
use crate::wire::wire_var_int::WireVarInt;
use vstd::prelude::*;
use vstd::string::StringSliceAdditionalSpecFns;

verus! {

/// Abstraction of a sequence of recorded lengths.
pub open spec fn lens_model(s: Seq<(FieldNumber, i32)>) -> Seq<(u32, int)> {
    s.map_values(|p: (FieldNumber, i32)| (p.0@, p.1 as int))
}

/// Abstraction of one open region.
pub open spec fn frame_model(e: LenStackEntry) -> LenFrame {
    LenFrame {
        saved: e.len as int,
        packed: e.t is Packed,
        idx: e.len_index as int,
        field: e.field_number@,
    }
}

/// Abstraction of the region stack.
pub open spec fn stack_model(s: Seq<LenStackEntry>) -> Seq<LenFrame> {
    s.map_values(|e: LenStackEntry| frame_model(e))
}

/// Measurement pass of an encoding: answers the field-typed scribe calls
/// by accumulating byte counts, recording the length of every
/// length-delimited region, and never emitting a byte.
#[derive(Debug, Eq, PartialEq, Hash)]
pub struct MsgLenBuilder {
    /// The builder whose buffers this pass fills.
    pub buf: MsgBuilder,
    /// Partial byte count of the innermost open region, or of the whole
    /// message when none is open.
    pub cur_len: i32,
}

impl MsgLenBuilder {
    /// Abstraction of this pass as a measurement-pass state.
    pub open spec fn model(&self) -> LenPass {
        LenPass {
            cur: self.cur_len as int,
            lens: lens_model(self.buf.lens@),
            stack: stack_model(self.buf.len_stack@),
        }
    }

    /// Well-formedness: the partial sum and every recorded length are
    /// non-negative, and every open region points at a recorded slot
    /// that carries its own field number.
    pub open spec fn wf(&self) -> bool {
        &&& self.cur_len >= 0
        &&& forall|k: int|
            0 <= k < self.buf.len_stack@.len() ==> (#[trigger] self.buf.len_stack@[k]).len_index
                < self.buf.lens@.len()
        &&& forall|k: int| 0 <= k < self.buf.len_stack@.len() ==> (#[trigger] self.buf.len_stack@[k]).len >= 0
        &&& forall|k: int|
            0 <= k < self.buf.len_stack@.len() ==> self.buf.lens@[(
            #[trigger] self.buf.len_stack@[k]).len_index as int].0 == self.buf.len_stack@[k].field_number
        &&& forall|j: int| 0 <= j < self.buf.lens@.len() ==> (#[trigger] self.buf.lens@[j]).1 >= 0
    }

    /// Adds a scalar field's contribution to the running sum.
    fn add_scalar(&mut self, field_number: FieldNumber, payload_len: i32)
        requires
            old(self).wf(),
            field_number@ <= 0x1FFF_FFFF,
            1 <= payload_len <= 10,
            old(self).cur_len + tag_len_of(field_number@) + payload_len <= i32::MAX,
        ensures
            final(self).wf(),
            final(self).buf == old(self).buf,
            final(self).cur_len == old(self).cur_len + tag_len_of(field_number@) + payload_len,
    {
        let tag: i32 = WireVarInt::tag_byte_len(field_number);
        self.cur_len = self.cur_len + tag + payload_len;
    }

    /// Measures an `int32` field: negative values take ten bytes.
    pub fn add_int32_field(&mut self, field_number: FieldNumber, value: i32)
        requires
            old(self).wf(),
            field_number@ <= 0x1FFF_FFFF,
            old(self).cur_len + tag_len_of(field_number@) + varint_len(
                twos_complement_64(value as int),
            ) <= i32::MAX,
        ensures
            final(self).wf(),
            final(self).buf == old(self).buf,
            final(self).model() == len_step(
                old(self).model(),
                (ScribeOp::Scalar {
                    field: field_number@,
                    code: 0,
                    payload: varint_bytes(twos_complement_64(value as int)),
                }),
            ),
    {
        proof {
            lemma_varint_bytes_len(twos_complement_64(value as int));
        }
        let n: i32 = WireVarInt::int32_byte_len(value);
        self.add_scalar(field_number, n);
    }

    /// Measures an `int64` field.
    pub fn add_int64_field(&mut self, field_number: FieldNumber, value: i64)
        requires
            old(self).wf(),
            field_number@ <= 0x1FFF_FFFF,
            old(self).cur_len + tag_len_of(field_number@) + varint_len(
                twos_complement_64(value as int),
            ) <= i32::MAX,
        ensures
            final(self).wf(),
            final(self).buf == old(self).buf,
            final(self).model() == len_step(
                old(self).model(),
                (ScribeOp::Scalar {
                    field: field_number@,
                    code: 0,
                    payload: varint_bytes(twos_complement_64(value as int)),
                }),
            ),
    {
        proof {
            lemma_varint_bytes_len(twos_complement_64(value as int));
        }
        let n: i32 = WireVarInt::int64_byte_len(value);
        self.add_scalar(field_number, n);
    }

    /// Measures a `uint32` field.
    pub fn add_uint32_field(&mut self, field_number: FieldNumber, value: u32)
        requires
            old(self).wf(),
            field_number@ <= 0x1FFF_FFFF,
            old(self).cur_len + tag_len_of(field_number@) + varint_len(value as nat) <= i32::MAX,
        ensures
            final(self).wf(),
            final(self).buf == old(self).buf,
            final(self).model() == len_step(
                old(self).model(),
                (ScribeOp::Scalar {
                    field: field_number@,
                    code: 0,
                    payload: varint_bytes(value as nat),
                }),
            ),
    {
        proof {
            lemma_varint_bytes_len(value as nat);
        }
        let n: i32 = WireVarInt::uint32_byte_len(value);
        self.add_scalar(field_number, n);
    }

    /// Measures a `uint64` field.
    pub fn add_uint64_field(&mut self, field_number: FieldNumber, value: u64)
        requires
            old(self).wf(),
            field_number@ <= 0x1FFF_FFFF,
            old(self).cur_len + tag_len_of(field_number@) + varint_len(value as nat) <= i32::MAX,
        ensures
            final(self).wf(),
            final(self).buf == old(self).buf,
            final(self).model() == len_step(
                old(self).model(),
                (ScribeOp::Scalar {
                    field: field_number@,
                    code: 0,
                    payload: varint_bytes(value as nat),
                }),
            ),
    {
        proof {
            lemma_varint_bytes_len(value as nat);
        }
        let n: i32 = WireVarInt::uint64_byte_len(value);
        self.add_scalar(field_number, n);
    }

    /// Measures a `bool` field: one payload byte.
    pub fn add_bool_field(&mut self, field_number: FieldNumber)
        requires
            old(self).wf(),
            field_number@ <= 0x1FFF_FFFF,
            old(self).cur_len + tag_len_of(field_number@) + 1 <= i32::MAX,
        ensures
            final(self).wf(),
            final(self).buf == old(self).buf,
            final(self).model() == len_step(
                old(self).model(),
                (ScribeOp::Scalar { field: field_number@, code: 0, payload: zero_bytes(1) }),
            ),
    {
        self.add_scalar(field_number, 1);
    }

    /// Measures an `enum` field, which is carried with `int32`
    /// semantics.
    pub fn add_enum_field(&mut self, field_number: FieldNumber, value: i32)
        requires
            old(self).wf(),
            field_number@ <= 0x1FFF_FFFF,
            old(self).cur_len + tag_len_of(field_number@) + varint_len(
                twos_complement_64(value as int),
            ) <= i32::MAX,
        ensures
            final(self).wf(),
            final(self).buf == old(self).buf,
            final(self).model() == len_step(
                old(self).model(),
                (ScribeOp::Scalar {
                    field: field_number@,
                    code: 0,
                    payload: varint_bytes(twos_complement_64(value as int)),
                }),
            ),
    {
        proof {
            lemma_varint_bytes_len(twos_complement_64(value as int));
        }
        let n: i32 = WireVarInt::int32_byte_len(value);
        self.add_scalar(field_number, n);
    }

    /// Measures an `sint32` field (ZigZag).
    pub fn add_sint32_field(&mut self, field_number: FieldNumber, value: i32)
        requires
            old(self).wf(),
            field_number@ <= 0x1FFF_FFFF,
            old(self).cur_len + tag_len_of(field_number@) + varint_len(zigzag(value as int))
                <= i32::MAX,
        ensures
            final(self).wf(),
            final(self).buf == old(self).buf,
            final(self).model() == len_step(
                old(self).model(),
                (ScribeOp::Scalar {
                    field: field_number@,
                    code: 0,
                    payload: varint_bytes(zigzag(value as int)),
                }),
            ),
    {
        proof {
            lemma_varint_bytes_len(zigzag(value as int));
        }
        let n: i32 = WireVarInt::sint32_byte_len(value);
        self.add_scalar(field_number, n);
    }

    /// Measures an `sint64` field (ZigZag).
    pub fn add_sint64_field(&mut self, field_number: FieldNumber, value: i64)
        requires
            old(self).wf(),
            field_number@ <= 0x1FFF_FFFF,
            old(self).cur_len + tag_len_of(field_number@) + varint_len(zigzag(value as int))
                <= i32::MAX,
        ensures
            final(self).wf(),
            final(self).buf == old(self).buf,
            final(self).model() == len_step(
                old(self).model(),
                (ScribeOp::Scalar {
                    field: field_number@,
                    code: 0,
                    payload: varint_bytes(zigzag(value as int)),
                }),
            ),
    {
        proof {
            lemma_varint_bytes_len(zigzag(value as int));
        }
        let n: i32 = WireVarInt::sint64_byte_len(value);
        self.add_scalar(field_number, n);
    }

    /// Measures a `fixed32` field: four payload bytes.
    pub fn add_fixed32_field(&mut self, field_number: FieldNumber)
        requires
            old(self).wf(),
            field_number@ <= 0x1FFF_FFFF,
            old(self).cur_len + tag_len_of(field_number@) + 4 <= i32::MAX,
        ensures
            final(self).wf(),
            final(self).buf == old(self).buf,
            final(self).model() == len_step(
                old(self).model(),
                (ScribeOp::Scalar { field: field_number@, code: 5, payload: zero_bytes(4) }),
            ),
    {
        self.add_scalar(field_number, 4);
    }

    /// Measures an `sfixed32` field: four payload bytes.
    pub fn add_sfixed32_field(&mut self, field_number: FieldNumber)
        requires
            old(self).wf(),
            field_number@ <= 0x1FFF_FFFF,
            old(self).cur_len + tag_len_of(field_number@) + 4 <= i32::MAX,
        ensures
            final(self).wf(),
            final(self).buf == old(self).buf,
            final(self).model() == len_step(
                old(self).model(),
                (ScribeOp::Scalar { field: field_number@, code: 5, payload: zero_bytes(4) }),
            ),
    {
        self.add_scalar(field_number, 4);
    }

    /// Measures a `float` field: four payload bytes.
    pub fn add_float_field(&mut self, field_number: FieldNumber)
        requires
            old(self).wf(),
            field_number@ <= 0x1FFF_FFFF,
            old(self).cur_len + tag_len_of(field_number@) + 4 <= i32::MAX,
        ensures
            final(self).wf(),
            final(self).buf == old(self).buf,
            final(self).model() == len_step(
                old(self).model(),
                (ScribeOp::Scalar { field: field_number@, code: 5, payload: zero_bytes(4) }),
            ),
    {
        self.add_scalar(field_number, 4);
    }

    /// Measures a `fixed64` field: eight payload bytes.
    pub fn add_fixed64_field(&mut self, field_number: FieldNumber)
        requires
            old(self).wf(),
            field_number@ <= 0x1FFF_FFFF,
            old(self).cur_len + tag_len_of(field_number@) + 8 <= i32::MAX,
        ensures
            final(self).wf(),
            final(self).buf == old(self).buf,
            final(self).model() == len_step(
                old(self).model(),
                (ScribeOp::Scalar { field: field_number@, code: 1, payload: zero_bytes(8) }),
            ),
    {
        self.add_scalar(field_number, 8);
    }

    /// Measures an `sfixed64` field: eight payload bytes.
    pub fn add_sfixed64_field(&mut self, field_number: FieldNumber)
        requires
            old(self).wf(),
            field_number@ <= 0x1FFF_FFFF,
            old(self).cur_len + tag_len_of(field_number@) + 8 <= i32::MAX,
        ensures
            final(self).wf(),
            final(self).buf == old(self).buf,
            final(self).model() == len_step(
                old(self).model(),
                (ScribeOp::Scalar { field: field_number@, code: 1, payload: zero_bytes(8) }),
            ),
    {
        self.add_scalar(field_number, 8);
    }

    /// Measures a `double` field: eight payload bytes.
    pub fn add_double_field(&mut self, field_number: FieldNumber)
        requires
            old(self).wf(),
            field_number@ <= 0x1FFF_FFFF,
            old(self).cur_len + tag_len_of(field_number@) + 8 <= i32::MAX,
        ensures
            final(self).wf(),
            final(self).buf == old(self).buf,
            final(self).model() == len_step(
                old(self).model(),
                (ScribeOp::Scalar { field: field_number@, code: 1, payload: zero_bytes(8) }),
            ),
    {
        self.add_scalar(field_number, 8);
    }

    /// Measures a `string` field: a length prefix and the UTF-8 bytes.
    pub fn add_string_field(&mut self, field_number: FieldNumber, value: &str)
        requires
            old(self).wf(),
            field_number@ <= 0x1FFF_FFFF,
            value.spec_bytes().len() <= 0x7FFF_FFFF,
            old(self).cur_len + tag_len_of(field_number@) + varint_len(value.spec_bytes().len())
                + value.spec_bytes().len() <= i32::MAX,
        ensures
            final(self).wf(),
            final(self).buf == old(self).buf,
            final(self).model() == len_step(
                old(self).model(),
                (ScribeOp::Scalar {
                    field: field_number@,
                    code: 2,
                    payload: varint_bytes(value.spec_bytes().len()) + value.spec_bytes(),
                }),
            ),
    {
        let len: usize = value.len();
        self.add_len_prefixed(field_number, len);
        proof {
            lemma_varint_bytes_len(value.spec_bytes().len());
        }
    }

    /// Measures a `bytes` field: a length prefix and the raw bytes.
    pub fn add_bytes_field(&mut self, field_number: FieldNumber, value: &[u8])
        requires
            old(self).wf(),
            field_number@ <= 0x1FFF_FFFF,
            value@.len() <= 0x7FFF_FFFF,
            old(self).cur_len + tag_len_of(field_number@) + varint_len(value@.len()) + value@.len()
                <= i32::MAX,
        ensures
            final(self).wf(),
            final(self).buf == old(self).buf,
            final(self).model() == len_step(
                old(self).model(),
                (ScribeOp::Scalar {
                    field: field_number@,
                    code: 2,
                    payload: varint_bytes(value@.len()) + value@,
                }),
            ),
    {
        let len: usize = value.len();
        self.add_len_prefixed(field_number, len);
        proof {
            lemma_varint_bytes_len(value@.len());
        }
    }

    /// Adds the contribution of a length-prefixed span: tag, prefix
    /// width, and the span itself.
    fn add_len_prefixed(&mut self, field_number: FieldNumber, len: usize)
        requires
            old(self).wf(),
            field_number@ <= 0x1FFF_FFFF,
            len <= 0x7FFF_FFFF,
            old(self).cur_len + tag_len_of(field_number@) + varint_len(len as nat) + len
                <= i32::MAX,
        ensures
            final(self).wf(),
            final(self).buf == old(self).buf,
            final(self).cur_len == old(self).cur_len + tag_len_of(field_number@) + varint_len(
                len as nat,
            ) + len,
    {
        let tag: i32 = WireVarInt::tag_byte_len(field_number);
        let prefix: i32 = WireVarInt::int32_byte_len(len as i32);
        proof {
            crate::wire::model::lemma_i64_to_u64((len as i32) as i64);
        }
        self.cur_len = self.cur_len + tag + prefix + (len as i32);
    }

    /// Opens a length-delimited region: charges the enclosing region for
    /// the tag, snapshots its sum, reserves a slot for the region's
    /// length, and restarts the sum at zero.
    fn start_len_area(&mut self, field_number: FieldNumber, t: LenStackType)
        requires
            old(self).wf(),
            field_number@ <= 0x1FFF_FFFF,
            old(self).cur_len + tag_len_of(field_number@) <= i32::MAX,
            old(self).buf.lens@.len() < usize::MAX,
        ensures
            final(self).wf(),
            final(self).model() == len_step(
                old(self).model(),
                (ScribeOp::Open { field: field_number@, packed: t is Packed }),
            ),
            final(self).buf.encoder.buf@ == old(self).buf.encoder.buf@,
    {
        let tag: i32 = WireVarInt::tag_byte_len(field_number);
        let saved: i32 = self.cur_len + tag;
        let idx: usize = self.buf.lens.len();
        self.buf.lens.push((field_number, 0));
        self.buf.len_stack.push(LenStackEntry { len: saved, t, len_index: idx, field_number });
        self.cur_len = 0;
        proof {
            assert(lens_model(self.buf.lens@) =~= lens_model(old(self).buf.lens@).push(
                (field_number@, 0),
            ));
            assert(stack_model(self.buf.len_stack@) =~= stack_model(old(self).buf.len_stack@).push(
                (LenFrame {
                    saved: saved as int,
                    packed: t is Packed,
                    idx: idx as int,
                    field: field_number@,
                }),
            ));
            assert(self.model() == len_step(
                old(self).model(),
                (ScribeOp::Open { field: field_number@, packed: t is Packed }),
            ));
        }
    }

    /// Closes the innermost region: stores its finished sum into its
    /// slot and restores the enclosing sum, now counting the length
    /// prefix whose width has just become known.  When no region remains
    /// open, the finished sum is simply left in the accumulator.
    fn end_len_area(&mut self, field_number: FieldNumber, t: LenStackType)
        requires
            old(self).wf(),
            old(self).model().stack.len() > 0,
            old(self).model().stack.last().field == field_number@,
            old(self).model().stack.last().packed == (t is Packed),
            old(self).model().stack.last().saved + varint_len(old(self).cur_len as nat) + old(
                self,
            ).cur_len <= i32::MAX,
        ensures
            final(self).wf(),
            final(self).model() == len_step(
                old(self).model(),
                (ScribeOp::Close { field: field_number@, packed: t is Packed }),
            ),
            final(self).buf.encoder.buf@ == old(self).buf.encoder.buf@,
    {
        proof {
            let s0 = old(self).buf.len_stack@;
            assert(stack_model(s0).last() == frame_model(s0.last()));
            assert(s0.len() > 0);
        }
        let ended: LenStackEntry = self.buf.len_stack.pop().unwrap();
        let idx: usize = ended.len_index;
        let finished: i32 = self.cur_len;
        let slot = vstd::std_specs::vec::vec_index_mut(&mut self.buf.lens, idx);
        *slot = (ended.field_number, finished);
        if self.buf.len_stack.len() > 0 {
            let prefix: i32 = WireVarInt::int32_byte_len(finished);
            proof {
                crate::wire::model::lemma_i64_to_u64(finished as i64);
            }
            self.cur_len = ended.len + prefix + finished;
        }
        proof {
            let m0 = old(self).model();
            let fr = m0.stack.last();
            assert(fr == frame_model(old(self).buf.len_stack@.last()));
            assert(lens_model(self.buf.lens@) =~= m0.lens.update(fr.idx, (m0.lens[fr.idx].0, m0.cur)));
            assert(stack_model(self.buf.len_stack@) =~= m0.stack.drop_last());
            assert(self.model() == len_step(
                m0,
                (ScribeOp::Close { field: field_number@, packed: t is Packed }),
            ));
        }
    }

    /// Opens an embedded-message region.
    pub fn start_msg_field(&mut self, field_number: FieldNumber)
        requires
            old(self).wf(),
            field_number@ <= 0x1FFF_FFFF,
            old(self).cur_len + tag_len_of(field_number@) <= i32::MAX,
            old(self).buf.lens@.len() < usize::MAX,
        ensures
            final(self).wf(),
            final(self).model() == len_step(
                old(self).model(),
                (ScribeOp::Open { field: field_number@, packed: false }),
            ),
            final(self).buf.encoder.buf@ == old(self).buf.encoder.buf@,
    {
        self.start_len_area(field_number, LenStackType::Msg);
    }

    /// Closes an embedded-message region; it must be the innermost open
    /// region and carry the same field number.
    pub fn end_msg_field(&mut self, field_number: FieldNumber)
        requires
            old(self).wf(),
            old(self).model().stack.len() > 0,
            old(self).model().stack.last().field == field_number@,
            !old(self).model().stack.last().packed,
            old(self).model().stack.last().saved + varint_len(old(self).cur_len as nat) + old(
                self,
            ).cur_len <= i32::MAX,
        ensures
            final(self).wf(),
            final(self).model() == len_step(
                old(self).model(),
                (ScribeOp::Close { field: field_number@, packed: false }),
            ),
            final(self).buf.encoder.buf@ == old(self).buf.encoder.buf@,
    {
        self.end_len_area(field_number, LenStackType::Msg);
    }

    /// Opens a packed repeated field and hands back the tag-less packed
    /// scribe that owns this pass while the region is open.
    pub fn start_packed_field(self, field_number: FieldNumber) -> (r: MsgLenPackedScribe)
        requires
            self.wf(),
            field_number@ <= 0x1FFF_FFFF,
            self.cur_len + tag_len_of(field_number@) <= i32::MAX,
            self.buf.lens@.len() < usize::MAX,
        ensures
            r.parent.wf(),
            r.parent.model() == len_step(
                self.model(),
                (ScribeOp::Open { field: field_number@, packed: true }),
            ),
            r.parent.buf.encoder.buf@ == self.buf.encoder.buf@,
    {
        let mut b = self;
        b.start_len_area(field_number, LenStackType::Packed);
        MsgLenPackedScribe { parent: b }
    }

    /// Closes a packed repeated field; it must be the innermost open
    /// region and carry the same field number.
    pub fn end_packed_field(&mut self, field_number: FieldNumber)
        requires
            old(self).wf(),
            old(self).model().stack.len() > 0,
            old(self).model().stack.last().field == field_number@,
            old(self).model().stack.last().packed,
            old(self).model().stack.last().saved + varint_len(old(self).cur_len as nat) + old(
                self,
            ).cur_len <= i32::MAX,
        ensures
            final(self).wf(),
            final(self).model() == len_step(
                old(self).model(),
                (ScribeOp::Close { field: field_number@, packed: true }),
            ),
            final(self).buf.encoder.buf@ == old(self).buf.encoder.buf@,
    {
        self.end_len_area(field_number, LenStackType::Packed);
    }

    /// Ends the measurement pass; every region must have been closed.
    /// Hands back the serialization-pass builder over the recorded
    /// lengths.
    pub fn end(self) -> (r: MsgSerBuilder)
        requires
            self.wf(),
            self.model().stack.len() == 0,
        ensures
            r.wf(),
            r.buf == self.buf,
            r.next_len_index == 0,
    {
        MsgSerBuilder { buf: self.buf, next_len_index: 0 }
    }
}

} // verus!
