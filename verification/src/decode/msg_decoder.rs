use crate::decode::decode_error::DecodeError;
use crate::decode::msg_record_ref::MsgRecordRef;
use crate::decode::msg_record_ref::RecordModel;
use crate::field_number::FieldNumber;
use crate::wire::model::le_value_32;
use crate::wire::model::le_value_64;
use crate::wire::wire_decoder::spec_read_varint_u32;
use crate::wire::wire_decoder::spec_read_varint_u64;
use crate::wire::wire_decoder::WireDecoder;
use crate::wire::wire_i32::WireI32;
use crate::wire::wire_i64::WireI64;
use crate::wire::wire_len_ref::WireLenRef;
use crate::wire::wire_value_ref::WireValueModel;
use crate::wire::wire_value_ref::WireValueRef;
use crate::wire::wire_var_int::WireVarInt;
use vstd::prelude::*;

verus! {

/// What decoding one record does to a non-empty byte stream: a record and
/// the bytes left over, or an error.
pub enum DecodeOutcome {
    Fail(DecodeError),
    Rec(RecordModel, Seq<u8>),
}

/// The record at the head of a byte stream: a tag varint, then a payload
/// named by the tag's low three bits.
pub open spec fn spec_next_record(s: Seq<u8>) -> DecodeOutcome {
    let tag_read = spec_read_varint_u32(s);
    match tag_read.0 {
        Err(e) => DecodeOutcome::Fail(e),
        Ok(tag) => {
            let s1 = tag_read.1;
            let f = tag >> 3;
            let wt = tag & 7;
            if wt == 0 {
                let vr = spec_read_varint_u64(s1);
                match vr.0 {
                    Err(e) => DecodeOutcome::Fail(e),
                    Ok(v) => DecodeOutcome::Rec(
                        RecordModel { field: f, value: WireValueModel::VarInt(v) },
                        vr.1,
                    ),
                }
            } else if wt == 1 {
                if s1.len() < 8 {
                    DecodeOutcome::Fail(DecodeError::Len)
                } else {
                    DecodeOutcome::Rec(
                        RecordModel { field: f, value: WireValueModel::I64(le_value_64(s1.take(8))) },
                        s1.skip(8),
                    )
                }
            } else if wt == 2 {
                let len_read = spec_read_varint_u32(s1);
                match len_read.0 {
                    Err(e) => DecodeOutcome::Fail(e),
                    Ok(n) => {
                        let s2 = len_read.1;
                        if s2.len() < n {
                            DecodeOutcome::Fail(DecodeError::Len)
                        } else {
                            DecodeOutcome::Rec(
                                RecordModel {
                                    field: f,
                                    value: WireValueModel::Len(s2.take(n as int)),
                                },
                                s2.skip(n as int),
                            )
                        }
                    },
                }
            } else if wt == 3 {
                DecodeOutcome::Rec(RecordModel { field: f, value: WireValueModel::SGroup }, s1)
            } else if wt == 4 {
                DecodeOutcome::Rec(RecordModel { field: f, value: WireValueModel::EGroup }, s1)
            } else if wt == 5 {
                if s1.len() < 4 {
                    DecodeOutcome::Fail(DecodeError::Len)
                } else {
                    DecodeOutcome::Rec(
                        RecordModel { field: f, value: WireValueModel::I32(le_value_32(s1.take(4))) },
                        s1.skip(4),
                    )
                }
            } else {
                DecodeOutcome::Fail(DecodeError::UnknownWireType(wt))
            }
        },
    }
}

/// Pull iterator over the tag/value records of a wire-format byte
/// stream.
///
/// After a record fails to decode, the cursor is poisoned: the error is
/// returned once and every later call yields `None`.
#[derive(Debug, Clone, Eq, PartialEq, Hash, Ord, PartialOrd)]
pub struct MsgDecoder<'a> {
    /// The cursor over the bytes not yet decoded.
    pub wire_decoder: WireDecoder<'a>,
}

impl<'a> MsgDecoder<'a> {
    /// Creates a decoder over the given bytes.
    pub fn new(data: &[u8]) -> (r: MsgDecoder<'_>)
        ensures
            r.wire_decoder.data@ == data@,
    {
        MsgDecoder { wire_decoder: WireDecoder { data } }
    }

    /// Returns the next record, `None` at the end of the input, or an
    /// error once; after an error the remaining input is dropped, so
    /// every later call returns `None`.
    pub fn next(&mut self) -> (r: Option<Result<MsgRecordRef<'a>, DecodeError>>)
        ensures
            old(self).wire_decoder.data@.len() == 0 ==> r is None && final(self).wire_decoder.data@
                == old(self).wire_decoder.data@,
            old(self).wire_decoder.data@.len() > 0 ==> match spec_next_record(
                old(self).wire_decoder.data@,
            ) {
                DecodeOutcome::Fail(e) => r == Some(Err::<MsgRecordRef<'a>, DecodeError>(e))
                    && final(self).wire_decoder.data@.len() == 0,
                DecodeOutcome::Rec(rm, rest) => (r matches Some(rr) && rr matches Ok(rec) && rec@
                    == rm && final(self).wire_decoder.data@ == rest),
            },
    {
        if self.wire_decoder.data.len() == 0 {
            return None;
        }
        match self.next_inner() {
            Err(err) => {
                let d: &'a [u8] = self.wire_decoder.data;
                self.wire_decoder.data = &d[0..0];
                proof {
                    assert(self.wire_decoder.data@ =~= Seq::<u8>::empty());
                }
                Some(Err(err))
            },
            Ok(rec) => Some(Ok(rec)),
        }
    }

    /// Decodes the record at the head of the input.
    fn next_inner(&mut self) -> (r: Result<MsgRecordRef<'a>, DecodeError>)
        ensures
            match spec_next_record(old(self).wire_decoder.data@) {
                DecodeOutcome::Fail(e) => r == Err::<MsgRecordRef<'a>, DecodeError>(e),
                DecodeOutcome::Rec(rm, rest) => (r matches Ok(rec) && rec@ == rm
                    && final(self).wire_decoder.data@ == rest),
            },
    {
        let tag = match self.wire_decoder.read_var_uint32() {
            Ok(t) => t,
            Err(e) => {
                return Err(e);
            },
        };
        let field_number = FieldNumber(tag >> 3);
        let wire_type: u32 = tag & 7;
        proof {
            assert(tag & 7 < 8) by (bit_vector);
        }
        let value = match wire_type {
            0 => {
                match self.wire_decoder.read_var_uint64() {
                    Ok(v) => WireValueRef::VarInt(WireVarInt::from_raw(v)),
                    Err(e) => {
                        return Err(e);
                    },
                }
            },
            1 => {
                match self.wire_decoder.read_fixed64() {
                    Ok(v) => WireValueRef::I64(WireI64(v)),
                    Err(e) => {
                        return Err(e);
                    },
                }
            },
            2 => {
                let len = match self.wire_decoder.read_var_uint32() {
                    Ok(n) => n,
                    Err(e) => {
                        return Err(e);
                    },
                };
                match self.wire_decoder.take_nbyte(len as usize) {
                    Ok(data) => WireValueRef::Len(WireLenRef { data }),
                    Err(e) => {
                        return Err(e);
                    },
                }
            },
            3 => WireValueRef::SGroup,
            4 => WireValueRef::EGroup,
            5 => {
                match self.wire_decoder.read_fixed32() {
                    Ok(v) => WireValueRef::I32(WireI32(v)),
                    Err(e) => {
                        return Err(e);
                    },
                }
            },
            unknown => {
                return Err(DecodeError::UnknownWireType(unknown));
            },
        };
        Ok(MsgRecordRef { field_number, value })
    }
}

} // verus!
