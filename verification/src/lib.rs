//! Schema-less encoder and decoder for the Protocol Buffers binary wire
//! format.
//!
//! The crate understands tags, wire types, varints, fixed-width values and
//! length-delimited regions; schema knowledge stays in the caller's
//! serialization routine.  Encoding runs in two passes over the caller's
//! data: a measurement pass that records the byte length of every
//! length-delimited region, and a serialization pass that emits bytes and
//! consumes those lengths in order.  Decoding is a pull iterator over
//! tag/value records.

pub mod builders;
pub mod decode;
pub mod field_number;
pub mod field_value;
pub mod wire;
pub mod wire_type;

pub use builders::msg_builder::LenStackEntry;
pub use builders::msg_builder::LenStackType;
pub use builders::msg_builder::MsgBuilder;
pub use builders::msg_len_builder::MsgLenBuilder;
pub use builders::msg_len_packed_scribe::MsgLenPackedScribe;
pub use builders::msg_ser_builder::MsgSerBuilder;
pub use builders::msg_ser_packed_scribe::MsgSerPackedScribe;
pub use decode::decode_error::DecodeError;
pub use decode::msg_decoder::MsgDecoder;
pub use decode::msg_record_ref::MsgRecordRef;
pub use field_number::FieldNumber;
pub use field_number::FieldNumberIntoError;
pub use field_value::FieldValue;
pub use wire::wire_decoder::WireDecoder;
pub use wire::wire_encoder::WireEncoder;
pub use wire::wire_i32::WireI32;
pub use wire::wire_i64::WireI64;
pub use wire::wire_len_calc::WireLenCalc;
pub use wire::wire_len_ref::WireLenRef;
pub use wire::wire_value_ref::WireValueIntoError;
pub use wire::wire_value_ref::WireValueRef;
pub use wire::wire_var_int::WireVarInt;
pub use wire_type::WireType;
