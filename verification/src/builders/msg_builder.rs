use crate::builders::msg_len_builder::MsgLenBuilder;
use crate::field_number::FieldNumber;
use crate::wire::wire_encoder::WireEncoder;
use vstd::prelude::*;

verus! {

/// Reusable buffers for encoding a message to its wire format.
///
/// Encoding runs in two passes.  The measurement pass determines the
/// byte length of every length-delimited region, because each region is
/// prefixed by its length as a varint whose own width depends on that
/// length; a single pass would have to shift the encoded bytes around
/// once the lengths became known.  The serialization pass then emits
/// bytes, consuming the recorded lengths in order.  Reusing one builder
/// across encodings amortizes the allocations.
#[derive(Debug, Clone, Eq, PartialEq, Hash)]
pub struct MsgBuilder {
    /// The byte length of every length-delimited region, with its field
    /// number, in the order the measurement pass met them.
    pub lens: Vec<(FieldNumber, i32)>,
    /// The regions open during the measurement pass, innermost last.
    pub len_stack: Vec<LenStackEntry>,
    /// The output buffer of the serialization pass.
    pub encoder: WireEncoder,
}

impl MsgBuilder {
    /// Creates a builder with empty buffers.
    pub fn new() -> (r: MsgBuilder)
        ensures
            r.lens@ == Seq::<(FieldNumber, i32)>::empty(),
            r.len_stack@ == Seq::<LenStackEntry>::empty(),
            r.encoder.buf@ == Seq::<u8>::empty(),
    {
        MsgBuilder { lens: Vec::new(), len_stack: Vec::new(), encoder: WireEncoder::new() }
    }

    /// Starts a new encoding: clears all buffers, reserving room for the
    /// given number of length-delimited regions when known, and hands
    /// back the measurement-pass builder.
    pub fn start(self, num_len_values: Option<usize>) -> (r: MsgLenBuilder)
        ensures
            r.buf.lens@ == Seq::<(FieldNumber, i32)>::empty(),
            r.buf.len_stack@ == Seq::<LenStackEntry>::empty(),
            r.buf.encoder.buf@ == Seq::<u8>::empty(),
            r.cur_len == 0,
    {
        let mut b = self;
        b.lens.clear();
        b.len_stack.clear();
        b.encoder.buf.clear();
        match num_len_values {
            Some(n) => {
                b.lens.reserve(n);
                b.len_stack.reserve(n);
            },
            None => {},
        }
        MsgLenBuilder { buf: b, cur_len: 0 }
    }
}

/// One region open during the measurement pass.
#[derive(Debug, Copy, Clone, Eq, PartialEq, Hash)]
pub struct LenStackEntry {
    /// The enclosing region's partial sum, including this region's tag,
    /// snapshotted when this region was opened.
    pub len: i32,
    /// The kind of region.
    pub t: LenStackType,
    /// The slot in [`MsgBuilder::lens`] to store this region's length
    /// into on close.
    pub len_index: usize,
    /// The field number the region was opened under.
    pub field_number: FieldNumber,
}

/// The two kinds of length-delimited region the builders track.
#[derive(Debug, Copy, Clone, Eq, PartialEq, Hash, Structural)]
pub enum LenStackType {
    /// An embedded message.
    Msg,
    /// A packed repeated field.
    Packed,
}

} // verus!
